use dister::html::{render, PLACEHOLDER, TEMPLATE};

const APP_PAGE: &str = "
<html>
  <head>
  <meta charset=\"utf-8\">
  <meta http-equiv=\"Content-Type\" content=\"text/html; charset=utf-8\">
  <meta name=\"viewport\" content=\"width=device-width, initial-scale=1.0\">
  </head>
  <body>
    <script src=\"./app.js\"></script>
    <script type=\"module\">
      import init from \"./app.js\";

      init();
    </script>
  </body>
</html>
";

#[test]
fn page_of_app() {
    assert_eq!(render("app"), APP_PAGE);
}

#[test]
fn page_has_one_script_tag_for_the_glue_script() {
    let page = render("app");
    assert_eq!(page.matches("<script src=\"./app.js\"></script>").count(), 1);
    assert_eq!(page.matches("<script src=").count(), 1);
    assert_eq!(page.matches("\"./app.js\"").count(), 2);
}

#[test]
fn page_starts_the_module_without_arguments() {
    let page = render("app");
    assert_eq!(page.matches("<script type=\"module\">").count(), 1);
    assert!(page.contains("import init from \"./app.js\";"));
    assert_eq!(page.matches("init();").count(), 1);
    let module = page.find("<script type=\"module\">").unwrap();
    let import = page.find("import init from").unwrap();
    let call = page.find("init();").unwrap();
    assert!(module < import && import < call);
}

#[test]
fn page_keeps_no_placeholder() {
    assert!(!render("app").contains(PLACEHOLDER));
    assert!(!render("app").contains('{'));
}

#[test]
fn template_holds_the_placeholder_twice() {
    assert_eq!(PLACEHOLDER, "{{crate}}");
    assert_eq!(TEMPLATE.chars().count(), 362);
    assert_eq!(TEMPLATE.matches(PLACEHOLDER).count(), 2);
    assert_eq!(TEMPLATE.find(PLACEHOLDER), Some(223));
    assert_eq!(TEMPLATE.rfind(PLACEHOLDER), Some(300));
    assert_eq!(TEMPLATE.matches('{').count(), 4);
}

#[test]
fn page_is_the_template_around_the_name() {
    for name in ["app", "", "my-app_2", "{{crate}}", "<b>", "é"] {
        let expected =
            format!("{}{}{}{}{}", &TEMPLATE[..223], name, &TEMPLATE[232..300], name, &TEMPLATE[309..]);
        assert_eq!(render(name), expected);
    }
}

#[test]
fn page_does_not_escape_the_name() {
    let page = render("a\"><b>");
    assert!(page.contains("<script src=\"./a\"><b>.js\"></script>"));
}
