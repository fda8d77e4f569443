use sql_stream::cli::DEFAULT_TABLE_NAME;
use sql_stream::CliArgs;

fn args_for(file: &str) -> CliArgs {
    CliArgs {
        file: file.to_string(),
        query: "SELECT 1".to_string(),
        table_name: DEFAULT_TABLE_NAME.to_string(),
        verbose: false,
    }
}

#[test]
fn test_cli_structure() {
    // This test ensures the CLI structure is valid
    let args = CliArgs {
        file: String::from("test.csv"),
        query: "SELECT * FROM data".to_string(),
        table_name: "data".to_string(),
        verbose: false,
    };

    assert_eq!(args.table_name, "data");
    assert_eq!(args.query, "SELECT * FROM data");
}

#[test]
fn default_table_name_is_data() {
    assert_eq!(DEFAULT_TABLE_NAME, "data");
}

#[test]
fn validate_accepts_existing_csv_and_json() {
    assert_eq!(args_for("data/people.csv").validate_with(true), Ok(()));
    assert_eq!(args_for("people.json").validate_with(true), Ok(()));
    assert_eq!(args_for("PEOPLE.CSV").validate_with(true), Ok(()));
    assert_eq!(args_for("people.Json").validate_with(true), Ok(()));
}

#[test]
fn validate_reports_missing_file_first() {
    assert_eq!(
        args_for("nowhere/people.csv").validate_with(false),
        Err("File not found: nowhere/people.csv".to_string())
    );
    assert_eq!(
        args_for("people.txt").validate_with(false),
        Err("File not found: people.txt".to_string())
    );
    assert_eq!(args_for("").validate_with(false), Err("File not found: ".to_string()));
}

#[test]
fn validate_reports_missing_extension() {
    let expected = Err("File must have an extension (.csv or .json)".to_string());
    assert_eq!(args_for("people").validate_with(true), expected);
    assert_eq!(args_for(".csv").validate_with(true), expected);
    assert_eq!(args_for("dir.csv/people").validate_with(true), expected);
    assert_eq!(args_for("people.csv/..").validate_with(true), expected);
}

#[test]
fn validate_reports_unsupported_extension_as_written() {
    assert_eq!(
        args_for("people.TXT").validate_with(true),
        Err("Unsupported file extension: .TXT. Supported: .csv, .json".to_string())
    );
    assert_eq!(
        args_for("people.").validate_with(true),
        Err("Unsupported file extension: .. Supported: .csv, .json".to_string())
    );
    assert_eq!(
        args_for("people.csv.gz").validate_with(true),
        Err("Unsupported file extension: .gz. Supported: .csv, .json".to_string())
    );
}

#[test]
fn validate_probes_the_file_system() {
    assert_eq!(
        args_for("surely/not/there/people.csv").validate(),
        Err("File not found: surely/not/there/people.csv".to_string())
    );
    let file = tempfile::Builder::new().suffix(".csv").tempfile().unwrap();
    assert_eq!(args_for(file.path().to_str().unwrap()).validate(), Ok(()));
    let other = tempfile::Builder::new().suffix(".txt").tempfile().unwrap();
    assert_eq!(
        args_for(other.path().to_str().unwrap()).validate(),
        Err("Unsupported file extension: .txt. Supported: .csv, .json".to_string())
    );
}

#[test]
fn validation_agrees_with_resolution_on_samples() {
    let paths = ["a.csv", "a.json", "a.txt", "a", "", ".json", "a.JSON", "a.csv/", "a.csv/.."];
    for path in paths {
        for found in [true, false] {
            let validated = args_for(path).validate_with(found).is_ok();
            let resolved = sql_stream::resolver::resolve_with(path, found).is_ok();
            assert_eq!(validated, resolved);
        }
    }
}

#[test]
fn log_level_follows_verbosity() {
    let mut args = args_for("a.csv");
    assert_eq!(args.log_level(), "info");
    args.verbose = true;
    assert_eq!(args.log_level(), "debug");
}
