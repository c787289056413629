use contest::config::{Action, Configuration, Pattern, Var, VarSource};
use contest::errors::UserError;
use contest::globs::Glob;
use contest::regexes::Filter;
use contest::resolve::ResolveProgress;
use contest::trigger::Trigger;

fn action(pattern: Pattern, run: &str, vars: Vec<Var>) -> Action {
    Action { pattern, run: run.to_string(), vars }
}

fn test_file_pattern(glob: &str) -> Pattern {
    Pattern::TestFile { files: Glob::new(glob.to_string()).unwrap() }
}

fn config(actions: Vec<Action>) -> Configuration {
    Configuration { actions, ..Configuration::default() }
}

fn expect_done(progress: ResolveProgress) -> String {
    match progress {
        ResolveProgress::Done(command) => command,
        ResolveProgress::Failed(err) => panic!("resolution failed: {:?}", err),
        ResolveProgress::NeedFile { path, .. } => panic!("unexpected file request: {}", path),
    }
}

fn expect_failed(progress: ResolveProgress) -> UserError {
    match progress {
        ResolveProgress::Failed(err) => err,
        _ => panic!("expected a failure"),
    }
}

#[test]
fn first_matching_action_wins() {
    let config = config(vec![
        action(test_file_pattern("*.rs"), "A", vec![]),
        action(test_file_pattern("*.rs"), "B", vec![]),
    ]);
    let trigger = Trigger::TestFile { file: "b.rs".to_string() };
    let have = expect_done(config.get_command(&trigger, &None));
    assert_eq!(have, "A");
}

#[test]
fn later_action_matches_when_earlier_reject() {
    let config = config(vec![
        action(test_file_pattern("*.go"), "A", vec![]),
        action(test_file_pattern("*.rs"), "B", vec![]),
    ]);
    let trigger = Trigger::TestFile { file: "b.rs".to_string() };
    let have = expect_done(config.get_command(&trigger, &None));
    assert_eq!(have, "B");
}

#[test]
fn no_matching_action_is_unknown_trigger() {
    let config = config(vec![action(test_file_pattern("*.go"), "A", vec![])]);
    let trigger = Trigger::TestFile { file: "b.rs".to_string() };
    let have = expect_failed(config.get_command(&trigger, &None));
    let want = UserError::UnknownTrigger { source: "test-file b.rs".to_string() };
    assert_eq!(have, want);
}

#[test]
fn repeat_without_recorded_command_fails() {
    let config = config(vec![]);
    let have = expect_failed(config.get_command(&Trigger::RepeatLastTest, &None));
    assert_eq!(have, UserError::NoCommandToRepeat);
}

#[test]
fn repeat_returns_recorded_command() {
    let config = config(vec![]);
    let last = Some("make test".to_string());
    let have = expect_done(config.get_command(&Trigger::RepeatLastTest, &last));
    assert_eq!(have, "make test");
}

#[test]
fn custom_command_is_returned_verbatim() {
    let config = config(vec![]);
    let trigger = Trigger::CustomCommand { run: "echo {{ x }}".to_string() };
    let have = expect_done(config.get_command(&trigger, &None));
    assert_eq!(have, "echo {{ x }}");
}

#[test]
fn end_to_end_file_line_template() {
    let config = config(vec![action(
        Pattern::TestFileLine { files: Glob::new("*.rs".to_string()).unwrap() },
        "cargo test {{file}}:{{line}}",
        vec![],
    )]);
    let fifo = contest::trigger::FifoTrigger {
        data: contest::trigger::FifoTriggerData {
            command: "test-file-line".to_string(),
            file: Some("foo.rs".to_string()),
            line: Some(12),
            run: None,
        },
        original_line: r#"{"command":"test-file-line","file":"foo.rs","line":12}"#.to_string(),
    };
    let trigger = Trigger::try_from_fifo(fifo).unwrap();
    let have = expect_done(config.get_command(&trigger, &None));
    assert_eq!(have, "cargo test foo.rs:12");
}

#[test]
fn file_var_filters_the_file_name() {
    let var = Var {
        name: "stem".to_string(),
        source: VarSource::File,
        filter: Filter::new("([a-z]+)\\.rs".to_string()).unwrap(),
    };
    let config = config(vec![action(test_file_pattern("*.rs"), "t {{stem}}", vec![var])]);
    let trigger = Trigger::TestFile { file: "foo.rs".to_string() };
    let have = expect_done(config.get_command(&trigger, &None));
    assert_eq!(have, "t foo");
}

#[test]
fn var_with_no_match_is_empty() {
    let var = Var {
        name: "stem".to_string(),
        source: VarSource::File,
        filter: Filter::new("([0-9]+)".to_string()).unwrap(),
    };
    let config = config(vec![action(test_file_pattern("*.rs"), "t {{stem}}.", vec![var])]);
    let trigger = Trigger::TestFile { file: "foo.rs".to_string() };
    let have = expect_done(config.get_command(&trigger, &None));
    assert_eq!(have, "t .");
}

#[test]
fn var_with_two_capture_groups_fails() {
    let var = Var {
        name: "v".to_string(),
        source: VarSource::File,
        filter: Filter::new("(f)(o)".to_string()).unwrap(),
    };
    let config = config(vec![action(test_file_pattern("*.rs"), "t {{v}}", vec![var])]);
    let trigger = Trigger::TestFile { file: "foo.rs".to_string() };
    let have = expect_failed(config.get_command(&trigger, &None));
    let want = UserError::TriggerTooManyCaptures {
        count: 3,
        regex: "(f)(o)".to_string(),
        line: "foo.rs".to_string(),
    };
    assert_eq!(have, want);
}

#[test]
fn line_var_without_line_fails() {
    let var = Var {
        name: "v".to_string(),
        source: VarSource::Line,
        filter: Filter::new("(\\d+)".to_string()).unwrap(),
    };
    let config = config(vec![action(test_file_pattern("*.rs"), "t {{v}}", vec![var])]);
    let trigger = Trigger::TestFile { file: "foo.rs".to_string() };
    let have = expect_failed(config.get_command(&trigger, &None));
    assert_eq!(have, UserError::LineNotAvailable);
}

#[test]
fn scan_var_requests_the_file_and_resumes() {
    let var = Var {
        name: "fn_name".to_string(),
        source: VarSource::CurrentOrAboveLineContent,
        filter: Filter::new("fn (\\w+)\\(".to_string()).unwrap(),
    };
    let config = config(vec![action(
        Pattern::TestFileLine { files: Glob::new("*.rs".to_string()).unwrap() },
        "cargo test {{fn_name}}",
        vec![var],
    )]);
    let trigger = Trigger::TestFileLine { file: "foo.rs".to_string(), line: 2 };
    let (path, state) = match config.get_command(&trigger, &None) {
        ResolveProgress::NeedFile { path, state } => (path, state),
        _ => panic!("expected a file request"),
    };
    assert_eq!(path, "foo.rs");
    let content = "fn alpha(){\nmore\ntext".to_string();
    let have = expect_done(config.resolve_continue(state, content));
    assert_eq!(have, "cargo test alpha");
}

#[test]
fn scan_var_not_found_names_the_place() {
    let var = Var {
        name: "fn_name".to_string(),
        source: VarSource::CurrentOrAboveLineContent,
        filter: Filter::new("fn (\\w+)\\(".to_string()).unwrap(),
    };
    let config = config(vec![action(
        Pattern::TestFileLine { files: Glob::new("*.rs".to_string()).unwrap() },
        "cargo test {{fn_name}}",
        vec![var],
    )]);
    let trigger = Trigger::TestFileLine { file: "foo.rs".to_string(), line: 0 };
    let state = match config.get_command(&trigger, &None) {
        ResolveProgress::NeedFile { state, .. } => state,
        _ => panic!("expected a file request"),
    };
    let have = expect_failed(config.resolve_continue(state, "fn a(){\n".to_string()));
    let want = UserError::TriggerRegexNotFound {
        regex: "fn (\\w+)\\(".to_string(),
        filename: "foo.rs".to_string(),
        line: 0,
    };
    assert_eq!(have, want);
}

#[test]
fn configuration_exact_match() {
    let config = config(vec![
        action(
            Pattern::TestFileLine { files: Glob::new("filename1".to_string()).unwrap() },
            "action1 command",
            vec![],
        ),
        action(
            Pattern::TestFileLine { files: Glob::new("filename2".to_string()).unwrap() },
            "action2 command",
            vec![],
        ),
        action(
            Pattern::TestFileLine { files: Glob::new("filename3".to_string()).unwrap() },
            "action3 command",
            vec![],
        ),
    ]);
    let trigger = Trigger::TestFileLine { file: "filename2".to_string(), line: 2 };
    let have = expect_done(config.get_command(&trigger, &None));
    assert_eq!(have, "action2 command");
}

#[test]
fn config_exact_match() {
    let config = config(vec![
        action(
            Pattern::TestFileLine { files: Glob::new("filename1".to_string()).unwrap() },
            "action1 command",
            vec![],
        ),
        action(
            Pattern::TestFileLine { files: Glob::new("filename2".to_string()).unwrap() },
            "action2 command",
            vec![],
        ),
    ]);
    let trigger = Trigger::TestFileLine { file: "filename2".to_string(), line: 12 };
    let have = expect_done(config.get_command(&trigger, &None));
    assert_eq!(have, "action2 command");
}

#[test]
fn data_exact_match() {
    let config = config(vec![
        action(
            Pattern::TestFileLine { files: Glob::new("filename2".to_string()).unwrap() },
            "action2 command",
            vec![],
        ),
    ]);
    let trigger = Trigger::TestFileLine { file: "filename2".to_string(), line: 2 };
    let have = expect_done(config.get_command(&trigger, &None));
    assert_eq!(have, "action2 command");
}

#[test]
fn configuration_no_match() {
    let config = config(vec![action(test_file_pattern("*.rs"), "action1 command", vec![])]);
    let trigger = Trigger::TestFile { file: "other_filename".to_string() };
    let have = config.get_command(&trigger, &None);
    assert!(matches!(have, ResolveProgress::Failed(_)));
}

#[test]
fn config_no_match() {
    let config = config(vec![action(test_file_pattern("*.rs"), "action1 command", vec![])]);
    let trigger = Trigger::TestFile { file: "other_filename".to_string() };
    let have = config.get_command(&trigger, &None);
    assert!(matches!(have, ResolveProgress::Failed(_)));
}

#[test]
fn data_no_match() {
    let config = config(vec![action(test_file_pattern("*.rs"), "action1 command", vec![])]);
    let trigger = Trigger::TestFile { file: "other_filename".to_string() };
    let have = config.get_command(&trigger, &None);
    assert!(matches!(have, ResolveProgress::Failed(_)));
}

#[test]
fn no_actions() {
    let config = config(vec![]);
    let have = config.get_command(&Trigger::TestAll, &None);
    assert!(matches!(have, ResolveProgress::Failed(_)));
}

#[test]
fn config_test_all() {
    let config = config(vec![]);
    let have = config.get_command(&Trigger::TestAll, &None);
    assert!(matches!(have, ResolveProgress::Failed(_)));
}

#[test]
fn data_test_all() {
    let config = config(vec![]);
    let have = config.get_command(&Trigger::TestAll, &None);
    assert!(matches!(have, ResolveProgress::Failed(_)));
}

#[test]
fn simple() {
    let file_config = contest::config_file::FileConfiguration {
        actions: vec![contest::config_file::FileAction {
            action_type: contest::config_file::ActionType::TestFile,
            files: Some("*.rs".to_string()),
            run: "make test".to_string(),
            vars: None,
            comment: None,
        }],
        options: None,
    };
    let have = Configuration::try_from(file_config).unwrap();
    assert_eq!(have.actions.len(), 1);
    assert_eq!(have.actions[0].run, "make test");
    match &have.actions[0].pattern {
        Pattern::TestFile { files } => assert_eq!(files.as_str(), "*.rs"),
        _ => panic!("wrong pattern kind"),
    }
    assert_eq!(have.options, contest::config::Options::default());
}

#[test]
fn calculate_line_var() {
    let var = Var {
        name: "v".to_string(),
        source: VarSource::Line,
        filter: Filter::new("(\\d+)".to_string()).unwrap(),
    };
    let mut values = contest::template::VarValues::new();
    values.insert("line".to_string(), "12".to_string());
    match var.calculate_var(&values) {
        Ok(contest::resolve::VarCalculation::Value(v)) => assert_eq!(v, "12"),
        _ => panic!("expected a value"),
    }
}

#[test]
fn calculate_scan_var_rejects_bad_line() {
    let var = Var {
        name: "v".to_string(),
        source: VarSource::CurrentOrAboveLineContent,
        filter: Filter::new("(\\d+)".to_string()).unwrap(),
    };
    let mut values = contest::template::VarValues::new();
    values.insert("file".to_string(), "foo.rs".to_string());
    values.insert("line".to_string(), "twelve".to_string());
    match var.calculate_var(&values) {
        Err(UserError::LineIsNotANumber { line }) => assert_eq!(line, "twelve"),
        _ => panic!("expected a line error"),
    }
}

#[test]
fn file_var_without_file_fails() {
    let var = Var {
        name: "v".to_string(),
        source: VarSource::File,
        filter: Filter::new("(.*)".to_string()).unwrap(),
    };
    let config = config(vec![action(Pattern::TestAll, "t {{v}}", vec![var])]);
    let have = expect_failed(config.get_command(&Trigger::TestAll, &None));
    assert_eq!(have, UserError::FileNameNotAvailable);
}
