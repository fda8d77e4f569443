use sql_stream::format::Format;
use sql_stream::resolver::{resolve, resolve_with};
use sql_stream::SqlStreamError;

#[test]
fn missing_path_is_file_not_found_whatever_the_extension() {
    for path in ["nonexistent.csv", "nonexistent.json", "nonexistent.txt", "nonexistent", ""] {
        assert_eq!(resolve_with(path, false), Err(SqlStreamError::FileNotFound(path.to_string())));
    }
}

#[test]
fn existing_csv_and_json_resolve_in_any_case() {
    for path in ["a.csv", "a.CSV", "a.Csv", "a.cSv", "dir/a.b.csv", "a.csv/"] {
        assert_eq!(resolve_with(path, true), Ok(Format::Csv));
    }
    for path in ["a.json", "a.JSON", "a.Json", "a.jSoN", "/x/y.json"] {
        assert_eq!(resolve_with(path, true), Ok(Format::Json));
    }
}

#[test]
fn other_extension_is_unsupported_and_kept_as_written() {
    assert_eq!(
        resolve_with("test.txt", true),
        Err(SqlStreamError::UnsupportedFormat("txt".to_string()))
    );
    assert_eq!(
        resolve_with("test.Parquet", true),
        Err(SqlStreamError::UnsupportedFormat("Parquet".to_string()))
    );
    assert_eq!(resolve_with("test.", true), Err(SqlStreamError::UnsupportedFormat(String::new())));
    assert_eq!(
        resolve_with("test.csvx", true),
        Err(SqlStreamError::UnsupportedFormat("csvx".to_string()))
    );
    assert_eq!(
        resolve_with("test.cs", true),
        Err(SqlStreamError::UnsupportedFormat("cs".to_string()))
    );
    assert_eq!(
        resolve_with("test.jso", true),
        Err(SqlStreamError::UnsupportedFormat("jso".to_string()))
    );
    assert_eq!(
        resolve_with("test.jsonl", true),
        Err(SqlStreamError::UnsupportedFormat("jsonl".to_string()))
    );
}

#[test]
fn letters_outside_ascii_are_not_folded() {
    // U+212A KELVIN SIGN and U+017F LATIN SMALL LETTER LONG S look like
    // letters of the two extensions and are none of them.
    assert_eq!(
        resolve_with("a.c\u{17f}v", true),
        Err(SqlStreamError::UnsupportedFormat("c\u{17f}v".to_string()))
    );
    assert_eq!(
        resolve_with("a.j\u{17f}on", true),
        Err(SqlStreamError::UnsupportedFormat("j\u{17f}on".to_string()))
    );
}

#[test]
fn missing_extension_is_unsupported_with_the_whole_path() {
    for path in ["data", "dir.csv/data", ".csv", "a.csv/..", "/", ""] {
        assert_eq!(
            resolve_with(path, true),
            Err(SqlStreamError::UnsupportedFormat(path.to_string()))
        );
    }
}

#[test]
fn format_names_its_extension() {
    assert_eq!(Format::Csv.extension(), "csv");
    assert_eq!(Format::Json.extension(), "json");
    assert_eq!(Format::from_extension("csv"), Some(Format::Csv));
    assert_eq!(Format::from_extension("JSON"), Some(Format::Json));
    assert_eq!(Format::from_extension("tsv"), None);
    assert_eq!(Format::from_extension(""), None);
    assert_eq!(Format::from_extension("json "), None);
    for format in [Format::Csv, Format::Json] {
        assert_eq!(Format::from_extension(format.extension()), Some(format));
    }
}

#[test]
fn folding_agrees_with_lowercasing_on_the_two_extensions() {
    let letters = ['c', 'C', 's', 'S', 'v', 'V', 'j', 'J', 'o', 'O', 'n', 'N', 'x', '.', 'é', 'K'];
    let mut words: Vec<String> = vec![String::new()];
    let mut frontier: Vec<String> = vec![String::new()];
    for _ in 0..4 {
        let mut next: Vec<String> = Vec::new();
        for prefix in &frontier {
            for c in letters {
                let mut word = prefix.clone();
                word.push(c);
                next.push(word);
            }
        }
        words.extend(next.iter().cloned());
        frontier = next;
    }
    for word in &words {
        let expected = match word.to_lowercase().as_str() {
            "csv" => Some(Format::Csv),
            "json" => Some(Format::Json),
            _ => None,
        };
        assert_eq!(Format::from_extension(word), expected, "extension {:?}", word);
    }
}

#[test]
fn resolve_probes_the_file_system() {
    assert_eq!(
        resolve("surely/not/there.csv"),
        Err(SqlStreamError::FileNotFound("surely/not/there.csv".to_string()))
    );
    let csv = tempfile::Builder::new().suffix(".CSV").tempfile().unwrap();
    assert_eq!(resolve(csv.path().to_str().unwrap()), Ok(Format::Csv));
    let json = tempfile::Builder::new().suffix(".json").tempfile().unwrap();
    assert_eq!(resolve(json.path().to_str().unwrap()), Ok(Format::Json));
    let dir = tempfile::tempdir().unwrap();
    let path = dir.path().to_str().unwrap().to_string();
    assert!(matches!(resolve(&path), Err(SqlStreamError::UnsupportedFormat(_))));
}
