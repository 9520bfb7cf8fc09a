//! The page that loads the generated glue script.

use crate::text::{lemma_replaced_keeps_plain, occurs_at, replaced, substitute};
use vstd::prelude::*;

verus! {

/// The loader page, with [`PLACEHOLDER`] where the project's name goes.
pub const TEMPLATE: &'static str = r#"
<html>
  <head>
  <meta charset="utf-8">
  <meta http-equiv="Content-Type" content="text/html; charset=utf-8">
  <meta name="viewport" content="width=device-width, initial-scale=1.0">
  </head>
  <body>
    <script src="./{{crate}}.js"></script>
    <script type="module">
      import init from "./{{crate}}.js";

      init();
    </script>
  </body>
</html>
"#;

/// The token in [`TEMPLATE`] that stands for the project's name.
pub const PLACEHOLDER: &'static str = "{{crate}}";

/// The loader page of the project `name`: the template with the name put
/// in for every placeholder, letter for letter.
pub open spec fn rendered(name: Seq<char>) -> Seq<char> {
    replaced(TEMPLATE@, PLACEHOLDER@, name)
}

/// The loader page of the project.  The name is not escaped: one that
/// holds characters special to HTML spoils the page.
pub fn render(project_name: &str) -> (page: String)
    ensures
        page@ == rendered(project_name@),
{
    substitute(TEMPLATE, PLACEHOLDER, project_name)
}

/// Where the first placeholder stands in the template.
pub open spec fn first_slot() -> int {
    223
}

/// Where the second placeholder stands in the template.
pub open spec fn second_slot() -> int {
    300
}

/// The template before its first placeholder.
pub open spec fn head() -> Seq<char> {
    TEMPLATE@.subrange(0, first_slot())
}

/// The template between its two placeholders.
pub open spec fn middle() -> Seq<char> {
    TEMPLATE@.subrange(first_slot() + PLACEHOLDER@.len(), second_slot())
}

/// The template after its second placeholder.
pub open spec fn tail() -> Seq<char> {
    TEMPLATE@.skip(second_slot() + PLACEHOLDER@.len())
}

/// The template holds the placeholder at its two slots, and the
/// placeholder's first character nowhere else.
pub proof fn lemma_template_shape()
    ensures
        TEMPLATE@.len() == 362,
        PLACEHOLDER@.len() == 9,
        occurs_at(TEMPLATE@, PLACEHOLDER@, first_slot()),
        occurs_at(TEMPLATE@, PLACEHOLDER@, second_slot()),
        forall|j: int|
            0 <= j < TEMPLATE@.len() && !(first_slot() <= j < first_slot() + 9) && !(second_slot()
                <= j < second_slot() + 9) ==> TEMPLATE@[j] != PLACEHOLDER@[0],
{
    reveal_strlit(
        r#"
<html>
  <head>
  <meta charset="utf-8">
  <meta http-equiv="Content-Type" content="text/html; charset=utf-8">
  <meta name="viewport" content="width=device-width, initial-scale=1.0">
  </head>
  <body>
    <script src="./{{crate}}.js"></script>
    <script type="module">
      import init from "./{{crate}}.js";

      init();
    </script>
  </body>
</html>
"#,
    );
    reveal_strlit("{{crate}}");
    assert(TEMPLATE@.subrange(223, 232) == PLACEHOLDER@);
    assert(TEMPLATE@.subrange(300, 309) == PLACEHOLDER@);
}

/// The page of a project is the template with the project's name at the
/// two slots: the name goes in as it is, and the rest of the template
/// stays as it is, whatever the name holds.
pub proof fn lemma_page_holds_name_twice(name: Seq<char>)
    ensures
        rendered(name) == head() + name + middle() + name + tail(),
{
    lemma_template_shape();
    let page = TEMPLATE@;
    let token = PLACEHOLDER@;
    let after_first = page.skip(232);
    let after_second = page.skip(309);
    lemma_replaced_keeps_plain(page, token, name, 223);
    assert(page.skip(223).subrange(0, 9) == page.subrange(223, 232));
    assert(page.skip(223).skip(9) == after_first);
    lemma_replaced_keeps_plain(after_first, token, name, 68);
    assert(after_first.take(68) == middle());
    assert(after_first.skip(68) == page.skip(300));
    assert(page.skip(300).subrange(0, 9) == page.subrange(300, 309));
    assert(page.skip(300).skip(9) == after_second);
    lemma_replaced_keeps_plain(after_second, token, name, 53);
    assert(after_second.take(53) == after_second);
    assert(after_second.skip(53).len() == 0);
}

} // verus!
