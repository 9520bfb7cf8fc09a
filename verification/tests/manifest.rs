use dister::manifest::{
    child, is_valid_name, parse_document, project_name, read_project_name, ManifestError, Node,
};

fn table(entries: Vec<(&str, Node)>) -> Node {
    Node::Table(entries.into_iter().map(|(key, value)| (key.to_string(), value)).collect())
}

fn text(value: &str) -> Node {
    Node::Text(value.to_string())
}

#[test]
fn reads_the_package_name() {
    let manifest = "[package]\nname = \"demo\"\nversion = \"0.1.0\"\n";
    assert_eq!(read_project_name(Some(manifest)), Ok("demo".to_string()));
}

#[test]
fn missing_package_table_is_a_missing_field() {
    let manifest = "[dependencies]\ntoml = \"0.5\"\n";
    assert_eq!(read_project_name(Some(manifest)), Err(ManifestError::MissingField));
}

#[test]
fn malformed_text_is_a_parse_error() {
    assert_eq!(read_project_name(Some("[package\nname = ")), Err(ManifestError::ParseError));
    assert_eq!(read_project_name(Some("name = = 3")), Err(ManifestError::ParseError));
}

#[test]
fn absent_file_is_not_found() {
    assert_eq!(read_project_name(None), Err(ManifestError::NotFound));
}

#[test]
fn empty_manifest_is_a_missing_field() {
    assert_eq!(read_project_name(Some("")), Err(ManifestError::MissingField));
}

#[test]
fn missing_name_is_a_missing_field() {
    let manifest = "[package]\nversion = \"0.1.0\"\n";
    assert_eq!(read_project_name(Some(manifest)), Err(ManifestError::MissingField));
}

#[test]
fn name_that_is_no_string_is_a_missing_field() {
    assert_eq!(read_project_name(Some("[package]\nname = 5\n")), Err(ManifestError::MissingField));
    assert_eq!(
        read_project_name(Some("[package]\nname = [\"demo\"]\n")),
        Err(ManifestError::MissingField)
    );
    assert_eq!(read_project_name(Some("package = \"demo\"\n")), Err(ManifestError::MissingField));
}

#[test]
fn empty_name_is_rejected() {
    assert_eq!(read_project_name(Some("[package]\nname = \"\"\n")), Err(ManifestError::MissingField));
}

#[test]
fn name_of_several_lines_is_rejected() {
    let manifest = "[package]\nname = \"\"\"demo\nmore\"\"\"\n";
    assert_eq!(read_project_name(Some(manifest)), Err(ManifestError::MissingField));
    let escaped = "[package]\nname = \"demo\\nmore\"\n";
    assert_eq!(read_project_name(Some(escaped)), Err(ManifestError::MissingField));
}

#[test]
fn name_with_space_or_separator_is_rejected() {
    assert_eq!(
        read_project_name(Some("[package]\nname = \"my app\"\n")),
        Err(ManifestError::MissingField)
    );
    assert_eq!(
        read_project_name(Some("[package]\nname = \"../app\"\n")),
        Err(ManifestError::MissingField)
    );
    assert_eq!(
        read_project_name(Some("[package]\nname = 'a\\b'\n")),
        Err(ManifestError::MissingField)
    );
}

#[test]
fn name_is_taken_letter_for_letter() {
    let manifest = "[package]\nname = \"my-App_2\"\n";
    assert_eq!(read_project_name(Some(manifest)), Ok("my-App_2".to_string()));
    let inline = "package = { name = \"demo\" }\n";
    assert_eq!(read_project_name(Some(inline)), Ok("demo".to_string()));
    let dotted = "package.name = \"demo\"\n";
    assert_eq!(read_project_name(Some(dotted)), Ok("demo".to_string()));
}

#[test]
fn parser_hands_over_every_kind_of_value() {
    let manifest = "title = \"x\"\ncount = 3\nratio = 1.5\nflag = true\nwhen = 1979-05-27T07:32:00Z\nlist = [1, 2]\n[section]\nkey = \"v\"\n";
    let document = parse_document(manifest).unwrap();
    assert_eq!(child(&document, "title"), Some(&text("x")));
    assert_eq!(child(&document, "count"), Some(&Node::Integer(3)));
    assert_eq!(child(&document, "ratio"), Some(&Node::Float));
    assert_eq!(child(&document, "flag"), Some(&Node::Boolean(true)));
    assert_eq!(child(&document, "when"), Some(&Node::Datetime));
    assert_eq!(
        child(&document, "list"),
        Some(&Node::Array(vec![Node::Integer(1), Node::Integer(2)]))
    );
    assert_eq!(child(&document, "section"), Some(&table(vec![("key", text("v"))])));
    assert_eq!(child(&document, "absent"), None);
}

#[test]
fn parser_rejects_what_is_no_toml() {
    assert_eq!(parse_document("= 1"), Err(ManifestError::ParseError));
    assert_eq!(parse_document("a = 1\na = 2\n"), Err(ManifestError::ParseError));
}

#[test]
fn project_name_of_a_document() {
    let document = table(vec![
        ("dependencies", table(vec![])),
        ("package", table(vec![("version", text("1")), ("name", text("demo"))])),
    ]);
    assert_eq!(project_name(&document), Ok("demo".to_string()));
}

#[test]
fn project_name_needs_a_table_and_a_text() {
    assert_eq!(project_name(&text("demo")), Err(ManifestError::MissingField));
    assert_eq!(project_name(&table(vec![])), Err(ManifestError::MissingField));
    assert_eq!(
        project_name(&table(vec![("package", text("demo"))])),
        Err(ManifestError::MissingField)
    );
    assert_eq!(
        project_name(&table(vec![("package", table(vec![("name", Node::Integer(1))]))])),
        Err(ManifestError::MissingField)
    );
    assert_eq!(
        project_name(&table(vec![("package", table(vec![("name", text(""))]))])),
        Err(ManifestError::MissingField)
    );
}

#[test]
fn child_takes_the_first_entry_under_a_key() {
    let node = table(vec![("a", Node::Integer(1)), ("b", Node::Integer(2)), ("a", Node::Integer(3))]);
    assert_eq!(child(&node, "a"), Some(&Node::Integer(1)));
    assert_eq!(child(&node, "b"), Some(&Node::Integer(2)));
    assert_eq!(child(&node, "c"), None);
    assert_eq!(child(&Node::Array(vec![Node::Integer(1)]), "a"), None);
}

#[test]
fn valid_names() {
    assert!(is_valid_name("demo"));
    assert!(is_valid_name("my-app_2"));
    assert!(is_valid_name(".."));
    assert!(!is_valid_name(""));
    assert!(!is_valid_name("a b"));
    assert!(!is_valid_name("a\tb"));
    assert!(!is_valid_name("a\nb"));
    assert!(!is_valid_name("a\rb"));
    assert!(!is_valid_name("a\u{a0}b"));
    assert!(!is_valid_name("a\u{2003}b"));
    assert!(!is_valid_name("a\u{3000}"));
    assert!(!is_valid_name("a/b"));
    assert!(!is_valid_name("a\\b"));
}

#[test]
fn valid_name_agrees_with_the_white_space_of_char() {
    let mut code: u32 = 0;
    while code <= 0x10ffff {
        if let Some(c) = char::from_u32(code) {
            let name = format!("a{}b", c);
            assert_eq!(is_valid_name(&name), !(c.is_whitespace() || c == '/' || c == '\\'));
        }
        code += if code < 0x3100 { 1 } else { 0x101 };
    }
}
