//! The `toml` crate as the library sees it: a parser from text to a table, and
//! a table that is asked for the string bound to a key.

use vstd::prelude::*;

verus! {

/// The entries of a table: each key with the string bound to it, or with
/// `None` where it is bound to a value of another kind.
pub type Entries = Map<Seq<char>, Option<Seq<char>>>;

/// What a table holds under one key.
#[derive(Debug, Clone, PartialEq, Eq)]
pub enum Field {
    /// The table has no such key.
    Absent,
    /// The key is bound to this string.
    Text(String),
    /// The key is bound to a value that is not a string.
    Other,
}

/// Mathematical model of [`Field`].
pub enum FieldView {
    Absent,
    Text(Seq<char>),
    Other,
}

impl View for Field {
    type V = FieldView;

    open spec fn view(&self) -> FieldView {
        match self {
            Field::Absent => FieldView::Absent,
            Field::Text(text) => FieldView::Text(text@),
            Field::Other => FieldView::Other,
        }
    }
}

/// What `entries` hold under `key`.
pub open spec fn entry_at(entries: Entries, key: Seq<char>) -> FieldView {
    if !entries.contains_key(key) {
        FieldView::Absent
    } else {
        match entries[key] {
            Some(text) => FieldView::Text(text),
            None => FieldView::Other,
        }
    }
}

/// `toml::map::Map`, the type behind `toml::Table`. Nothing inside it is
/// visible to the verifier.
#[verifier::external_type_specification]
#[verifier::external_body]
#[verifier::reject_recursive_types(K)]
#[verifier::reject_recursive_types(V)]
pub struct ExTomlMap<K, V>(toml::map::Map<K, V>);

/// `toml::Value`, the values that a table holds.
#[verifier::external_type_specification]
#[verifier::external_body]
pub struct ExTomlValue(toml::Value);

/// `toml::de::Error`, the error of the parser.
#[verifier::external_type_specification]
#[verifier::external_body]
pub struct ExTomlError(toml::de::Error);

/// What `toml::from_str` makes of a document when asked for a table: the
/// entries of the top-level table, or the message of the error it reports.
pub uninterp spec fn toml_document(text: Seq<char>) -> Result<Entries, Seq<char>>;

/// The entries of a table, in the same form.
pub uninterp spec fn table_entries(table: toml::Table) -> Entries;

/// The message that an error displays.
pub uninterp spec fn error_text(error: toml::de::Error) -> Seq<char>;

/// Calls `toml::from_str` for a `toml::Table`. The contract only names the
/// outcome: the parser is a function of the text, so the table or the error
/// that comes back is the one `toml_document` gives for that text.
#[verifier::external_body]
pub(crate) fn parse_document(text: &str) -> (parsed: Result<toml::Table, toml::de::Error>)
    ensures
        (match parsed {
            Ok(table) => toml_document(text@) == Ok::<Entries, Seq<char>>(table_entries(table)),
            Err(error) => toml_document(text@) == Err::<Entries, Seq<char>>(error_text(error)),
        }),
{
    toml::from_str::<toml::Table>(text)
}

/// Calls `toml::map::Map::get` and tells a string value from the other kinds:
/// the result is what `table_entries` has under the key.
#[verifier::external_body]
pub(crate) fn lookup(table: &toml::Table, key: &str) -> (found: Field)
    ensures
        found@ == entry_at(table_entries(*table), key@),
{
    match table.get(key) {
        None => Field::Absent,
        Some(toml::Value::String(text)) => Field::Text(text.clone()),
        Some(_) => Field::Other,
    }
}

/// Calls `to_string` on a `toml::de::Error`: the message it displays.
#[verifier::external_body]
pub(crate) fn describe(error: &toml::de::Error) -> (message: String)
    ensures
        message@ == error_text(*error),
{
    error.to_string()
}

} // verus!
