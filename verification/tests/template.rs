use contest::template::{replace, replace_all, substitute, VarValues};

#[test]
fn tight_placeholder() {
    let have = replace("hello {{world}}", "world", "universe").unwrap();
    assert_eq!(have, "hello universe");
}

#[test]
fn loose_placeholder() {
    let have = replace("hello {{ world }}", "world", "universe").unwrap();
    assert_eq!(have, "hello universe");
}

#[test]
fn multiple_placeholders() {
    let have = replace("{{ hello }} {{ hello }}", "hello", "bye").unwrap();
    assert_eq!(have, "bye bye");
}

#[test]
fn replace_tight_placeholder() {
    let have = replace("hello {{world}}", "world", "universe").unwrap();
    assert_eq!(have, "hello universe");
}

#[test]
fn replace_loose_placeholder() {
    let have = replace("hello {{ world }}", "world", "universe").unwrap();
    assert_eq!(have, "hello universe");
}

#[test]
fn replace_multiple_placeholders() {
    let have = replace("{{ hello }} {{ hello }}", "hello", "bye").unwrap();
    assert_eq!(have, "bye bye");
}

#[test]
fn config_tight_placeholder() {
    let have = replace("hello {{world}}", "world", "universe").unwrap();
    assert_eq!(have, "hello universe");
}

#[test]
fn config_loose_placeholder() {
    let have = replace("hello {{ world }}", "world", "universe").unwrap();
    assert_eq!(have, "hello universe");
}

#[test]
fn config_multiple_placeholders() {
    let have = replace("{{ hello }} {{ hello }}", "hello", "bye").unwrap();
    assert_eq!(have, "bye bye");
}

#[test]
fn data_tight_placeholder() {
    let have = replace("hello {{world}}", "world", "universe").unwrap();
    assert_eq!(have, "hello universe");
}

#[test]
fn data_loose_placeholder() {
    let have = replace("hello {{ world }}", "world", "universe").unwrap();
    assert_eq!(have, "hello universe");
}

#[test]
fn data_multiple_placeholders() {
    let have = replace("{{ hello }} {{ hello }}", "hello", "bye").unwrap();
    assert_eq!(have, "bye bye");
}

#[test]
fn no_placeholders() {
    let replacements = VarValues::new();
    let give = "a skeleton walks into a {{ foo }}";
    let have = replace_all(give, &replacements).unwrap();
    let want = "a skeleton walks into a {{ foo }}";
    assert_eq!(have, want);
}

#[test]
fn replace_all_no_match() {
    let mut replacements = VarValues::new();
    replacements.insert("foo".to_string(), "bar".to_string());
    let give = "a skeleton walks into a {{ other }}";
    let have = replace_all(give, &replacements).unwrap();
    let want = "a skeleton walks into a {{ other }}";
    assert_eq!(have, want);
}

#[test]
fn normal() {
    let mut replacements = VarValues::new();
    replacements.insert("foo".to_string(), "bar".to_string());
    let give = "a skeleton walks into a {{ foo }}";
    let have = replace_all(give, &replacements).unwrap();
    let want = "a skeleton walks into a bar";
    assert_eq!(have, want);
}

#[test]
fn unknown_placeholder_left_intact() {
    let mut values = VarValues::new();
    values.insert("file".to_string(), "x.rs".to_string());
    let once = substitute("echo {{file}} {{missing}}", &values);
    assert_eq!(once, "echo x.rs {{missing}}");
    let twice = substitute(once.as_str(), &values);
    assert_eq!(twice, "echo x.rs {{missing}}");
}

#[test]
fn later_insert_overwrites() {
    let mut values = VarValues::new();
    values.insert("name".to_string(), "first".to_string());
    values.insert("name".to_string(), "second".to_string());
    assert_eq!(substitute("{{name}}", &values), "second");
}

#[test]
fn inserted_text_is_not_resubstituted() {
    let mut values = VarValues::new();
    values.insert("a".to_string(), "{{b}}".to_string());
    values.insert("b".to_string(), "x".to_string());
    assert_eq!(substitute("{{a}}", &values), "{{b}}");
}

#[test]
fn second_pass_can_resolve_a_newly_formed_placeholder() {
    let mut values = VarValues::new();
    values.insert("a".to_string(), "a".to_string());
    let once = substitute("{{ {{a}} }}", &values);
    assert_eq!(once, "{{ a }}");
    let twice = substitute(once.as_str(), &values);
    assert_eq!(twice, "a");
}
