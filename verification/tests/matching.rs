use contest::config::{Action, Pattern, VarSource};
use contest::config_file::{ActionType, FileAction, FileVar};
use contest::errors::UserError;
use contest::globs::Glob;
use contest::trigger::Trigger;

#[test]
fn pattern_matches() {
    let pattern = Pattern::TestFile { files: Glob::new("*.rs".to_string()).unwrap() };
    let trigger = Trigger::TestFile { file: "foo.rs".to_string() };
    assert!(pattern.matches_trigger(&trigger));
}

#[test]
fn mismatch() {
    let pattern = Pattern::TestAll;
    let trigger = Trigger::TestFile { file: "file".to_string() };
    assert!(!pattern.matches_trigger(&trigger));
}

#[test]
fn pattern_mismatching_file() {
    let pattern = Pattern::TestFile { files: Glob::new("*.rs".to_string()).unwrap() };
    let trigger = Trigger::TestFile { file: "mismatch.go".to_string() };
    assert!(!pattern.matches_trigger(&trigger));
}

#[test]
fn pattern_mismatching_type() {
    let pattern = Pattern::TestFile { files: Glob::new("*.rs".to_string()).unwrap() };
    assert!(!pattern.matches_trigger(&Trigger::TestAll));
}

#[test]
fn test_all_pattern() {
    let pattern = Pattern::TestAll;
    assert!(pattern.matches_trigger(&Trigger::TestAll));
    assert!(!pattern.matches_trigger(&Trigger::TestFile { file: "f".to_string() }));
}

#[test]
fn test_file_line_pattern_ignores_line() {
    let pattern = Pattern::TestFileLine { files: Glob::new("**/*.rs".to_string()).unwrap() };
    let t1 = Trigger::TestFileLine { file: "a/b.rs".to_string(), line: 1 };
    let t2 = Trigger::TestFileLine { file: "a/b.rs".to_string(), line: 99 };
    assert!(pattern.matches_trigger(&t1));
    assert!(pattern.matches_trigger(&t2));
    assert!(!pattern.matches_trigger(&Trigger::TestFile { file: "a/b.rs".to_string() }));
}

fn file_action(action_type: ActionType, files: Option<&str>, run: &str) -> FileAction {
    FileAction {
        action_type,
        files: files.map(|f| f.to_string()),
        run: run.to_string(),
        vars: None,
        comment: None,
    }
}

#[test]
fn action_valid() {
    let have = Action::try_from(file_action(ActionType::TestAll, None, "make test")).unwrap();
    assert!(matches!(have.pattern, Pattern::TestAll));
    assert_eq!(have.run, "make test");
    assert_eq!(have.vars.len(), 0);
}

#[test]
fn action_empty() {
    let have = Action::try_from(file_action(ActionType::TestAll, None, "make test")).unwrap();
    assert!(matches!(have.pattern, Pattern::TestAll));
    assert_eq!(have.run, "make test");
    assert!(have.vars.is_empty());
}

#[test]
fn action_with_content() {
    let mut give = file_action(ActionType::TestAll, None, "make test");
    give.vars = Some(vec![FileVar {
        name: "my_var".to_string(),
        source: VarSource::File,
        filter: "^fn (.*) \\{".to_string(),
    }]);
    let have = Action::try_from(give).unwrap();
    assert!(matches!(have.pattern, Pattern::TestAll));
    assert_eq!(have.run, "make test");
    assert_eq!(have.vars.len(), 1);
    assert_eq!(have.vars[0].name, "my_var");
    assert_eq!(have.vars[0].source, VarSource::File);
    assert_eq!(have.vars[0].filter.as_str(), "^fn (.*) \\{");
}

#[test]
fn action_valid_simple() {
    let have =
        Action::try_from(file_action(ActionType::TestFile, Some("**/*.rs"), "cargo test")).unwrap();
    assert_eq!(have.run, "cargo test");
    match have.pattern {
        Pattern::TestFile { files } => assert_eq!(files.as_str(), "**/*.rs"),
        _ => panic!("wrong pattern kind"),
    }
}

#[test]
fn action_valid_with_vars() {
    let mut give =
        file_action(ActionType::TestFile, Some("**/*.rs"), "cargo test {{ my_var }}");
    give.vars = Some(vec![FileVar {
        name: "my_var".to_string(),
        source: VarSource::File,
        filter: "^fn (.*) \\{".to_string(),
    }]);
    let have = Action::try_from(give).unwrap();
    assert_eq!(have.run, "cargo test {{ my_var }}");
    assert_eq!(have.vars.len(), 1);
    assert_eq!(have.vars[0].name, "my_var");
    assert_eq!(have.vars[0].filter.as_str(), "^fn (.*) \\{");
}

#[test]
fn action_empty_run() {
    let have = Action::try_from(file_action(ActionType::TestAll, None, ""));
    assert!(matches!(have, Err(UserError::RunCommandIsEmpty)));
}

#[test]
fn action_missing_files() {
    let have = Action::try_from(file_action(ActionType::TestFile, None, "make test"));
    assert!(matches!(have, Err(UserError::MissingFilesInPattern)));
}

#[test]
fn action_empty_files() {
    let have = Action::try_from(file_action(ActionType::TestFile, Some(""), "make test"));
    assert!(matches!(have, Err(UserError::FilesIsEmpty)));
}

#[test]
fn action_empty_files_for_line_pattern() {
    let have = Action::try_from(file_action(ActionType::TestFileLine, Some(""), "make test"));
    assert!(matches!(have, Err(UserError::FilesIsEmpty)));
}

#[test]
fn action_invalid_glob() {
    let have = Action::try_from(file_action(ActionType::TestFile, Some("[oops"), "make test"));
    match have {
        Err(UserError::ConfigInvalidGlob { pattern, err: _ }) => assert_eq!(pattern, "[oops"),
        _ => panic!("expected an invalid-glob error"),
    }
}

#[test]
fn action_invalid_var_regex() {
    let mut give = file_action(ActionType::TestFile, Some("*.rs"), "cargo test");
    give.vars = Some(vec![FileVar {
        name: "v".to_string(),
        source: VarSource::Line,
        filter: "(unclosed".to_string(),
    }]);
    match Action::try_from(give) {
        Err(UserError::InvalidRegex { regex, err: _ }) => assert_eq!(regex, "(unclosed"),
        _ => panic!("expected an invalid-regex error"),
    }
}

#[test]
fn var_to_domain() {
    let file_var = FileVar {
        name: "v".to_string(),
        source: VarSource::Line,
        filter: "(\\d+)".to_string(),
    };
    let have = file_var.to_domain().unwrap();
    assert_eq!(have.name, "v");
    assert_eq!(have.source, VarSource::Line);
    assert_eq!(have.filter.as_str(), "(\\d+)");
}
