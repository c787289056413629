use contest::args::{parse, Command};

#[test]
fn no_args() {
    let give = vec!["tertestrial".into()];
    let have = parse(give);
    assert_eq!(have, Ok(Command::Normal));
}

#[test]
fn args_valid() {
    let give = vec![
        "tertestrial".into(),
        "run".into(),
        r#"{"command": "testFile", "file": "src/probes/link_broken.rs" }"#.into(),
    ];
    let want = Ok(Command::Run(
        r#"{"command": "testFile", "file": "src/probes/link_broken.rs" }"#.into(),
    ));
    assert_eq!(parse(give), want);
}

#[test]
fn long() {
    let give = vec!["origins".into(), "debug".into()];
    assert_eq!(parse(give), Ok(Command::Debug));
}

#[test]
fn short() {
    let give = vec!["origins".into(), "d".into()];
    assert_eq!(parse(give), Ok(Command::Debug));
}

#[test]
fn setup_subcommand() {
    let give = vec!["contest".into(), "setup".into()];
    assert_eq!(parse(give), Ok(Command::Setup));
}
