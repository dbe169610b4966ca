use file_reader_writer::args::{help_text, Args, ParseOutcome};
use file_reader_writer::errors::RunError;
use file_reader_writer::writer::{apply_write, open_recovery, report, OpenErrorKind, OpenRecovery};

#[test]
fn overwrite_replaces_longer_prior_content() {
    let written = apply_write("a much longer prior text", "short", false, false);
    assert_eq!(written, "short");
}

#[test]
fn overwrite_twice_gives_same_content_as_once() {
    let once = apply_write("prior text", "same content", false, false);
    let twice = apply_write(&once, "same content", false, false);
    assert_eq!(twice, once);
}

#[test]
fn append_inserts_no_separator() {
    let written = apply_write("left", "right", true, false);
    assert_eq!(written, "leftright");
}

#[test]
fn append_to_empty_prior_gives_content_alone() {
    let written = apply_write("", "only content", true, false);
    assert_eq!(written, "only content");
}

#[test]
fn truncate_takes_precedence_over_append() {
    let argv: Vec<String> = vec![
        "file_reader_writer".into(),
        "notes.txt".into(),
        "fresh".into(),
        "--append".into(),
        "--truncate".into(),
    ];
    let args = match Args::from_env(argv).unwrap() {
        ParseOutcome::Run(args) => args,
        ParseOutcome::Help => panic!("no help flag was given"),
    };
    assert!(args.appendable());
    assert!(args.truncatable());
    let written = apply_write("old text", args.contents(), args.appendable(), args.truncatable());
    assert_eq!(written, "fresh");
}

#[test]
fn empty_content_on_empty_file_stays_empty() {
    let argv: Vec<String> = vec!["file_reader_writer".into(), "empty.txt".into()];
    let args = match Args::from_env(argv).unwrap() {
        ParseOutcome::Run(args) => args,
        ParseOutcome::Help => panic!("no help flag was given"),
    };
    let written = apply_write("", args.contents(), args.appendable(), args.truncatable());
    assert_eq!(written, "");
    assert_eq!(report("empty.txt", &written), "The contents of empty.txt is\n");
}

#[test]
fn empty_argument_list_requires_filepath() {
    let err = Args::from_env(Vec::new()).unwrap_err();
    assert_eq!(err, RunError::MissingFilepath);
}

#[test]
fn help_wins_over_missing_filepath() {
    let argv: Vec<String> = vec!["file_reader_writer".into(), "--help".into()];
    assert!(matches!(Args::from_env(argv).unwrap(), ParseOutcome::Help));

    let argv: Vec<String> = vec![
        "file_reader_writer".into(),
        "some_file.txt".into(),
        "contents".into(),
        "-h".into(),
        "--truncate".into(),
    ];
    assert!(matches!(Args::from_env(argv).unwrap(), ParseOutcome::Help));
}

#[test]
fn help_screen_shows_usage() {
    assert!(help_text().contains("Usage: "));
}

#[test]
fn unrecognized_flags_are_ignored() {
    let argv: Vec<String> = vec![
        "file_reader_writer".into(),
        "-x".into(),
        "notes.txt".into(),
        "body".into(),
        "--bogus".into(),
    ];
    let args = match Args::from_env(argv).unwrap() {
        ParseOutcome::Run(args) => args,
        ParseOutcome::Help => panic!("no help flag was given"),
    };
    assert_eq!(args.filepath().as_str(), "notes.txt");
    assert_eq!(args.contents().as_str(), "body");
    assert!(!args.appendable());
    assert!(!args.truncatable());
    assert!(args.print_contents());
}

#[test]
fn positional_args_beyond_contents_are_ignored() {
    let argv: Vec<String> = vec![
        "file_reader_writer".into(),
        "notes.txt".into(),
        "first".into(),
        "second".into(),
        "third".into(),
    ];
    let args = match Args::from_env(argv).unwrap() {
        ParseOutcome::Run(args) => args,
        ParseOutcome::Help => panic!("no help flag was given"),
    };
    assert_eq!(args.filepath().as_str(), "notes.txt");
    assert_eq!(args.contents().as_str(), "first");
}

#[test]
fn validate_filepath_keeps_configuration() {
    let argv: Vec<String> = vec![
        "file_reader_writer".into(),
        "notes.txt".into(),
        "body".into(),
        "-a".into(),
    ];
    let args = match Args::from_env(argv).unwrap() {
        ParseOutcome::Run(args) => args,
        ParseOutcome::Help => panic!("no help flag was given"),
    };
    let validated = args.validate_filepath(true).unwrap();
    assert_eq!(validated.filepath().as_str(), "notes.txt");
    assert_eq!(validated.contents().as_str(), "body");
    assert!(validated.appendable());
}

#[test]
fn open_recovery_creates_only_on_not_found() {
    assert_eq!(open_recovery(OpenErrorKind::NotFound), OpenRecovery::CreateNew);
    assert_eq!(
        open_recovery(OpenErrorKind::Other),
        OpenRecovery::Fail(RunError::OpenFailure)
    );
}

#[test]
fn error_messages_are_fixed() {
    assert_eq!(RunError::MissingFilepath.message(), "Filepath required");
    assert_eq!(RunError::InvalidFilepath.message(), "Filepath arg must be a file");
    assert_eq!(RunError::OpenFailure.message(), "Could not open file");
    assert_eq!(
        RunError::Io("permission denied".to_string()).message(),
        "permission denied"
    );
}

#[test]
fn default_configuration_overwrites_and_prints() {
    let args = Args::default();
    assert_eq!(args.filepath().as_str(), "");
    assert_eq!(args.contents().as_str(), "");
    assert!(!args.appendable());
    assert!(!args.truncatable());
    assert!(args.print_contents());
}

#[test]
fn report_names_file_and_carries_full_text() {
    assert_eq!(
        report("./tmp/my_file.txt", "line one\nline two"),
        "The contents of ./tmp/my_file.txt is\nline one\nline two"
    );
}
