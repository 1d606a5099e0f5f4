use serde_json::Map as JsonMap;
use vstd::prelude::*;
use crate::build_root::{DOCKERFILE, DOCKERFILE_NATIVE, INIT_SH};
use crate::image::BUILD_REPORT;

verus! {

/// The values a template is rendered with, by kind: text, flags, lists of
/// text, and maps from text to text.
pub struct TemplateData {
    pub texts: Vec<(String, String)>,
    pub flags: Vec<(String, bool)>,
    pub lists: Vec<(String, Vec<String>)>,
    pub maps: Vec<(String, Vec<(String, String)>)>,
}

/// A text entry as characters.
pub open spec fn text_view(e: (String, String)) -> (Seq<char>, Seq<char>) {
    (e.0@, e.1@)
}

/// A list entry as characters.
pub open spec fn list_view(e: (String, Vec<String>)) -> (Seq<char>, Seq<Seq<char>>) {
    (e.0@, e.1@.map_values(|s: String| s@))
}

/// A map entry as characters.
pub open spec fn map_view(e: (String, Vec<(String, String)>)) -> (
    Seq<char>,
    Seq<(Seq<char>, Seq<char>)>,
) {
    (e.0@, e.1@.map_values(|p: (String, String)| text_view(p)))
}

impl TemplateData {
    pub open spec fn texts_view(&self) -> Seq<(Seq<char>, Seq<char>)> {
        self.texts@.map_values(|e: (String, String)| text_view(e))
    }

    pub open spec fn flags_view(&self) -> Seq<(Seq<char>, bool)> {
        self.flags@.map_values(|e: (String, bool)| (e.0@, e.1))
    }

    pub open spec fn lists_view(&self) -> Seq<(Seq<char>, Seq<Seq<char>>)> {
        self.lists@.map_values(|e: (String, Vec<String>)| list_view(e))
    }

    pub open spec fn maps_view(&self) -> Seq<(Seq<char>, Seq<(Seq<char>, Seq<char>)>)> {
        self.maps@.map_values(|e: (String, Vec<(String, String)>)| map_view(e))
    }
}

/// What rendering a template with the given text, flag, list and map entries
/// yields: the rendered text, or nothing when rendering fails.
pub uninterp spec fn rendered(
    template: Seq<char>,
    texts: Seq<(Seq<char>, Seq<char>)>,
    flags: Seq<(Seq<char>, bool)>,
    lists: Seq<(Seq<char>, Seq<Seq<char>>)>,
    maps: Seq<(Seq<char>, Seq<(Seq<char>, Seq<char>)>)>,
) -> Option<Seq<char>>;

/// The templates this library renders. None of them uses partials, so
/// rendering them cannot recurse without bound.
pub open spec fn is_library_template(template: Seq<char>) -> bool {
    template == BUILD_REPORT@ || template == INIT_SH@ || template == DOCKERFILE@ || template
        == DOCKERFILE_NATIVE@
}

/// handlebars' rendering error, carried from the renderer to be mapped to
/// this library's error.
#[verifier::external_type_specification]
#[verifier::external_body]
pub struct ExRenderError(handlebars::RenderError);

/// Relies on handlebars::Handlebars::render_template with a fresh registry
/// (HTML escaping for double-brace expressions): the outcome depends on the
/// template and the data alone. The data is handed over as a JSON object.
/// Only the library's own templates are rendered: a template whose inline
/// partial includes itself would never return.
#[verifier::external_body]
pub(crate) fn render_template(template: &str, data: &TemplateData) -> (r: Result<
    String,
    handlebars::RenderError,
>)
    requires
        is_library_template(template@),
    ensures
        r is Ok <==> rendered(
            template@,
            data.texts_view(),
            data.flags_view(),
            data.lists_view(),
            data.maps_view(),
        ) is Some,
        r is Ok ==> r->Ok_0@ == rendered(
            template@,
            data.texts_view(),
            data.flags_view(),
            data.lists_view(),
            data.maps_view(),
        )->0,
{
    let mut m = JsonMap::new();
    for (k, v) in &data.texts {
        m.insert(k.clone(), v.as_str().into());
    }
    for (k, v) in &data.flags {
        m.insert(k.clone(), (*v).into());
    }
    for (k, v) in &data.lists {
        m.insert(k.clone(), v.clone().into());
    }
    for (k, v) in &data.maps {
        m.insert(k.clone(), v.iter().map(|(a, b)| (a.clone(), b.as_str().into())).collect::<JsonMap<_, _>>().into());
    }
    handlebars::Handlebars::new().render_template(template, &m)
}

/// The lowercase hexadecimal digits.
pub open spec fn hex_digits() -> Seq<char> {
    seq!['0', '1', '2', '3', '4', '5', '6', '7', '8', '9', 'a', 'b', 'c', 'd', 'e', 'f']
}

/// One character inside a JSON string: quote and backslash escaped, the
/// control characters with a short escape written so, the other control
/// characters as `\u00XX`, and every other character as it is.
pub open spec fn json_escaped_char(c: char) -> Seq<char> {
    let n = c as u32;
    if c == '"' {
        seq!['\\', '"']
    } else if c == '\\' {
        seq!['\\', '\\']
    } else if n == 8 {
        seq!['\\', 'b']
    } else if n == 9 {
        seq!['\\', 't']
    } else if n == 10 {
        seq!['\\', 'n']
    } else if n == 12 {
        seq!['\\', 'f']
    } else if n == 13 {
        seq!['\\', 'r']
    } else if n < 32 {
        seq!['\\', 'u', '0', '0', hex_digits()[(n / 16) as int], hex_digits()[(n % 16) as int]]
    } else {
        seq![c]
    }
}

/// The characters of a string, each escaped for a JSON string.
pub open spec fn json_escaped(s: Seq<char>) -> Seq<char>
    decreases s.len(),
{
    if s.len() == 0 {
        Seq::empty()
    } else {
        json_escaped(s.drop_last()) + json_escaped_char(s.last())
    }
}

/// A string written as a JSON string literal.
pub open spec fn json_quoted(s: Seq<char>) -> Seq<char> {
    seq!['"'] + json_escaped(s) + seq!['"']
}

/// Relies on serde_json's compact serialisation of a JSON string value
/// (`Value::from(&str)` then `Display`): a quote, each character escaped as
/// its escape table gives, and a quote.
#[verifier::external_body]
pub(crate) fn json_string(s: &str) -> (r: String)
    ensures
        r@ == json_quoted(s@),
{
    serde_json::Value::from(s).to_string()
}

} // verus!
