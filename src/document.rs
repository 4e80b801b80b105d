use vstd::prelude::*;

verus! {

/// What the loader reads of a TOML document.
#[derive(Debug)]
pub enum Document {
    /// The document is a table: each top-level key with the type name of its
    /// value, in the order in which the table walks them.
    Table(Vec<(String, String)>),
    /// The document is a value of another type, by type name.
    Value(String),
    /// The text is not TOML: the parser's message.
    Invalid(String),
}

pub enum DocumentView {
    Table(Seq<(Seq<char>, Seq<char>)>),
    Value(Seq<char>),
    Invalid(Seq<char>),
}

impl View for Document {
    type V = DocumentView;

    open spec fn view(&self) -> DocumentView {
        match self {
            Document::Table(entries) => DocumentView::Table(
                entries@.map_values(|e: (String, String)| (e.0@, e.1@)),
            ),
            Document::Value(t) => DocumentView::Value(t@),
            Document::Invalid(m) => DocumentView::Invalid(m@),
        }
    }
}

/// What `toml::Value`'s `FromStr` gives for a text, read as a `DocumentView`.
pub uninterp spec fn toml_document(src: Seq<char>) -> DocumentView;

/// Relies on `toml::Value`'s `FromStr` to parse the text, on `Value::type_str`
/// to name each value's type, and on the parser error's `Display` for its
/// message; all three depend on the text alone.
#[verifier::external_body]
pub(crate) fn read_document(src: &str) -> (r: Document)
    ensures
        r@ == toml_document(src@),
{
    match src.parse::<toml::Value>() {
        Ok(toml::Value::Table(t)) => Document::Table(
            t.iter().map(|(k, v)| (k.clone(), v.type_str().to_string())).collect(),
        ),
        Ok(v) => Document::Value(v.type_str().to_string()),
        Err(e) => Document::Invalid(e.to_string()),
    }
}

} // verus!
