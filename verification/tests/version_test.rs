use rust_analyzer_downloader::io::{IoFailure, IoFailureKind};
use rust_analyzer_downloader::rust_analyzer::version::{
    get, parse_version, CommandOutput, Error, Version, PROGRAM, VERSION_FLAG,
};

fn version(date: &str, semantic: &str) -> Version {
    Version { date_version: date.to_string(), semantic_version: semantic.to_string() }
}

#[test]
fn test_parse_version() {
    let output = "rust-analyzer 0.4.1173-standalone (82ff74050 2022-08-17)";
    let version = parse_version(output).unwrap();
    assert_eq!(
        version,
        Version {
            date_version: "2022-08-17".to_string(),
            semantic_version: "0.4.1173-standalone".to_string()
        }
    );
}

#[test]
fn test_parse_version_no_semantic_version() {
    let output = "rust-analyzer";
    let version = parse_version(output);

    assert!(version.is_err());
    assert_eq!(
        version.unwrap_err().to_string(),
        "Failed to parse rust-analyzer version, Reason: no semantic version 'rust-analyzer'"
    );
}

#[test]
fn test_parse_version_no_date_version() {
    let output = "rust-analyzer 0.4.1173-standalone";
    let version = parse_version(output);
    assert!(version.is_err());
    assert_eq!(
        version.unwrap_err().to_string(),
        "Failed to parse rust-analyzer version, Reason: no date version 'rust-analyzer 0.4.1173-standalone'"
    );
}

#[test]
fn parse_version_reports_the_semantic_version_first() {
    assert!(matches!(
        parse_version(""),
        Err(Error::Parse(reason)) if reason == "no semantic version ''"
    ));
    assert!(matches!(
        parse_version("rust-analyzer "),
        Err(Error::Parse(reason)) if reason == "no semantic version 'rust-analyzer '"
    ));
    // Two spaces in a row leave nothing between them.
    assert!(matches!(
        parse_version("rust-analyzer  1.0 (abc 2022-08-17)"),
        Err(Error::Parse(reason)) if reason.starts_with("no semantic version")
    ));
}

#[test]
fn parse_version_needs_a_hash_before_the_date() {
    assert!(matches!(
        parse_version("rust-analyzer 1.0 (2022-08-17)"),
        Err(Error::Parse(reason)) if reason == "no date version 'rust-analyzer 1.0 (2022-08-17)'"
    ));
    assert!(matches!(
        parse_version("rust-analyzer 1.0 (abc )"),
        Err(Error::Parse(reason)) if reason.starts_with("no date version")
    ));
    assert!(matches!(
        parse_version("rust-analyzer 1.0 abc 2022-08-17"),
        Err(Error::Parse(reason)) if reason.starts_with("no date version")
    ));
}

#[test]
fn parse_version_looks_after_the_last_parenthesis() {
    assert_eq!(
        parse_version("rust-analyzer 1.0 (x) (abc 2022-08-17)").unwrap(),
        version("2022-08-17", "1.0")
    );
    assert_eq!(
        parse_version("rust-analyzer (1.0 (abc 2023-01-02) tail").unwrap(),
        version("2023-01-02", "(1.0")
    );
}

#[test]
fn parse_version_takes_the_rest_where_no_parenthesis_closes() {
    assert_eq!(
        parse_version("rust-analyzer 1.0 (abc 2022-08-17").unwrap(),
        version("2022-08-17", "1.0")
    );
    assert_eq!(
        parse_version("rust-analyzer 1.0 (abc 2022-08-17 more)").unwrap(),
        version("2022-08-17 more", "1.0")
    );
}

#[test]
fn parse_version_counts_characters_not_bytes() {
    assert_eq!(
        parse_version("r\u{e9}sum\u{e9} v\u{e9}rsion (h\u{e4}sh d\u{e4}te)").unwrap(),
        version("d\u{e4}te", "v\u{e9}rsion")
    );
}

#[test]
fn version_error_messages() {
    assert_eq!(
        Error::Command("rust-analyzer --version".to_string()).to_string(),
        "Failed to execute command: rust-analyzer --version"
    );
    assert_eq!(
        Error::Parse("why".to_string()).to_string(),
        "Failed to parse rust-analyzer version, Reason: why"
    );
    let failure = IoFailure::new(IoFailureKind::Other, "permission denied".to_string());
    assert!(!failure.is_not_found());
    assert_eq!(Error::Io(failure).to_string(), "permission denied");
    assert!(IoFailure::new(IoFailureKind::NotFound, String::new()).is_not_found());
}

#[test]
fn get_reads_the_first_line_only() {
    let stdout = b"rust-analyzer 0.4.1173-standalone (82ff74050 2022-08-17)\nsecond (x 1999-01-01)\n";
    let run = Ok(CommandOutput { success: true, stdout: stdout.to_vec() });
    assert_eq!(get(run).unwrap(), version("2022-08-17", "0.4.1173-standalone"));
}

#[test]
fn get_without_a_line_feed_reads_everything() {
    let run = Ok(CommandOutput { success: true, stdout: b"ra 1 (h 2020-02-02)".to_vec() });
    assert_eq!(get(run).unwrap(), version("2020-02-02", "1"));
}

#[test]
fn get_on_empty_output_is_a_parse_error() {
    let run = Ok(CommandOutput { success: true, stdout: Vec::new() });
    assert!(matches!(get(run), Err(Error::Parse(reason)) if reason == "no semantic version ''"));
    let run = Ok(CommandOutput { success: true, stdout: b"\nra 1 (h 2020-02-02)".to_vec() });
    assert!(matches!(get(run), Err(Error::Parse(_))));
}

#[test]
fn get_replaces_invalid_bytes() {
    let mut stdout = b"ra 1.\xff (h 2020-02-02)".to_vec();
    stdout.push(b'\n');
    let run = Ok(CommandOutput { success: true, stdout });
    assert_eq!(get(run).unwrap(), version("2020-02-02", "1.\u{fffd}"));
}

#[test]
fn get_reports_a_failed_command() {
    let run = Ok(CommandOutput {
        success: false,
        stdout: b"rust-analyzer 0.4.1173-standalone (82ff74050 2022-08-17)\n".to_vec(),
    });
    let error = get(run).unwrap_err();
    assert!(matches!(&error, Error::Command(command) if command == "rust-analyzer --version"));
    assert_eq!(error.to_string(), "Failed to execute command: rust-analyzer --version");
    assert_eq!(format!("{} {}", PROGRAM, VERSION_FLAG), "rust-analyzer --version");
}

#[test]
fn get_hands_on_a_command_that_could_not_run() {
    let run = Err(IoFailure::new(IoFailureKind::NotFound, "No such file or directory".to_string()));
    match get(run) {
        Err(Error::Io(failure)) => {
            assert!(failure.is_not_found());
            assert_eq!(failure.message, "No such file or directory");
        }
        other => panic!("unexpected {:?}", other),
    }
}
