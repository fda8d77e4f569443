use sql_stream::render::{BatchReport, Renderer};
use sql_stream::{QueryEngine, SqlStreamError};

fn written(rows: usize) -> BatchReport {
    BatchReport { rows, written: Ok(()) }
}

fn refused(rows: usize, cause: &str) -> BatchReport {
    BatchReport { rows, written: Err(cause.to_string()) }
}

#[test]
fn result_without_batches_renders_to_zero_rows() {
    let engine = QueryEngine::new().unwrap();
    assert_eq!(engine.print_results(&vec![]), Ok(0));
}

#[test]
fn result_without_rows_renders_to_zero_rows() {
    let engine = QueryEngine::new().unwrap();
    assert_eq!(engine.print_results(&vec![written(0)]), Ok(0));
    assert_eq!(engine.print_results(&vec![written(0), written(0)]), Ok(0));
}

#[test]
fn rows_of_all_batches_are_counted() {
    let engine = QueryEngine::new().unwrap();
    assert_eq!(engine.print_results(&vec![written(3)]), Ok(3));
    assert_eq!(engine.print_results(&vec![written(8192), written(8192), written(17)]), Ok(16401));
    assert_eq!(engine.print_results(&vec![written(usize::MAX - 1), written(1)]), Ok(usize::MAX));
}

#[test]
fn first_refused_batch_ends_the_rendering() {
    let engine = QueryEngine::new().unwrap();
    assert_eq!(
        engine.print_results(&vec![written(5), refused(7, "broken pipe"), written(9)]),
        Err(SqlStreamError::RenderFailure("broken pipe".to_string()))
    );
    assert_eq!(
        engine.print_results(&vec![refused(1, "first"), refused(1, "second")]),
        Err(SqlStreamError::RenderFailure("first".to_string()))
    );
    // Rows behind the failure are not counted, however many they are.
    assert_eq!(
        engine.print_results(&vec![written(1), refused(0, "full"), written(usize::MAX)]),
        Err(SqlStreamError::RenderFailure("full".to_string()))
    );
}

#[test]
fn renderer_counts_batch_by_batch() {
    let mut renderer = Renderer::new();
    assert_eq!(renderer.rows(), 0);
    assert!(renderer.header_due());
    assert_eq!(renderer.batch_written(4, Ok(())), Ok(()));
    assert_eq!(renderer.rows(), 4);
    assert!(!renderer.header_due());
    assert_eq!(renderer.batch_written(0, Ok(())), Ok(()));
    assert_eq!(renderer.batch_written(6, Ok(())), Ok(()));
    assert_eq!(renderer.rows(), 10);
}

#[test]
fn renderer_keeps_what_was_written_when_a_batch_is_refused() {
    let mut renderer = Renderer::new();
    assert_eq!(renderer.batch_written(4, Ok(())), Ok(()));
    assert_eq!(
        renderer.batch_written(6, Err("broken pipe".to_string())),
        Err(SqlStreamError::RenderFailure("broken pipe".to_string()))
    );
    assert_eq!(renderer.rows(), 4);
    assert!(!renderer.header_due());
}

#[test]
fn header_stays_due_until_something_is_written() {
    let mut renderer = Renderer::new();
    assert_eq!(
        renderer.batch_written(2, Err("closed".to_string())),
        Err(SqlStreamError::RenderFailure("closed".to_string()))
    );
    assert!(renderer.header_due());
    assert_eq!(renderer.rows(), 0);
    // A result without batches gets its header by way of a batch without rows.
    assert_eq!(renderer.batch_written(0, Ok(())), Ok(()));
    assert!(!renderer.header_due());
    assert_eq!(renderer.rows(), 0);
}

#[test]
fn renderer_knows_its_room() {
    let mut renderer = Renderer::new();
    assert!(renderer.has_room_for(usize::MAX));
    assert_eq!(renderer.batch_written(1, Ok(())), Ok(()));
    assert!(!renderer.has_room_for(usize::MAX));
    assert!(renderer.has_room_for(usize::MAX - 1));
    assert_eq!(renderer.batch_written(usize::MAX - 1, Ok(())), Ok(()));
    assert_eq!(renderer.rows(), usize::MAX);
    assert!(renderer.has_room_for(0));
    assert!(!renderer.has_room_for(1));
}

#[test]
fn limited_result_is_not_rendered_with_more_rows() {
    // A result that was cut down to three rows, in whatever batches it comes.
    let engine = QueryEngine::new().unwrap();
    for batches in [vec![3], vec![1, 2], vec![1, 1, 1], vec![0, 3, 0], vec![2]] {
        let reports: Vec<BatchReport> = batches.iter().map(|rows| written(*rows)).collect();
        let arrived: usize = batches.iter().sum();
        let printed = engine.print_results(&reports).unwrap();
        assert_eq!(printed, arrived);
        assert!(printed <= 3);
    }
}
