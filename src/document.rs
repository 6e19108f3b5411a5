//! Reading a TOML document as a table of top-level entries.
//!
//! The parsing itself is done by the `toml` crate; this module states what
//! the library relies on from it and reduces each value to the kinds that the
//! configuration needs.

use vstd::prelude::*;

verus! {

#[verifier::external_type_specification]
#[verifier::external_body]
#[verifier::reject_recursive_types(K)]
#[verifier::reject_recursive_types(V)]
pub struct ExTomlMap<K, V>(toml::map::Map<K, V>);

#[verifier::external_type_specification]
#[verifier::external_body]
pub struct ExTomlValue(toml::Value);

#[verifier::external_type_specification]
#[verifier::external_body]
pub struct ExTomlError(toml::de::Error);

/// A top-level value of a document, reduced to what the configuration reads.
#[derive(Debug)]
pub enum Entry {
    /// A TOML string.
    Text(String),
    /// A TOML boolean.
    Flag(bool),
    /// Any other TOML value: a number, a date, an array or a table.
    Other,
}

/// The mathematical value of an [`Entry`].
pub enum EntryView {
    Text(Seq<char>),
    Flag(bool),
    Other,
}

impl View for Entry {
    type V = EntryView;

    open spec fn view(&self) -> EntryView {
        match self {
            Entry::Text(s) => EntryView::Text(s@),
            Entry::Flag(b) => EntryView::Flag(*b),
            Entry::Other => EntryView::Other,
        }
    }
}

/// The top-level entries that a TOML text holds, keyed by name, or `None`
/// where the text is not a TOML document.
pub uninterp spec fn toml_entries(text: Seq<char>) -> Option<Map<Seq<char>, EntryView>>;

/// The entries of a parsed table, keyed by name.
pub uninterp spec fn table_entries(table: toml::Table) -> Map<Seq<char>, EntryView>;

/// Relies on `toml::from_str` into `toml::Table`: it succeeds exactly on the
/// texts that are TOML documents, and the table holds the document's
/// top-level entries.
#[verifier::external_body]
pub(crate) fn parse_table(text: &str) -> (r: Result<toml::Table, toml::de::Error>)
    ensures
        match r {
            Ok(t) => toml_entries(text@) == Some(table_entries(t)),
            Err(_) => toml_entries(text@) is None,
        },
{
    toml::from_str::<toml::Table>(text)
}

/// Relies on `toml::map::Map::get`: the value stored under `key`, if any,
/// told apart by the variants of `toml::Value`.
#[verifier::external_body]
pub(crate) fn lookup(table: &toml::Table, key: &str) -> (r: Option<Entry>)
    ensures
        match r {
            Some(e) => table_entries(*table).contains_key(key@) && table_entries(*table)[key@]
                == e@,
            None => !table_entries(*table).contains_key(key@),
        },
{
    match table.get(key) {
        None => None,
        Some(toml::Value::String(s)) => Some(Entry::Text(s.clone())),
        Some(toml::Value::Boolean(b)) => Some(Entry::Flag(*b)),
        Some(_) => Some(Entry::Other),
    }
}

/// Relies on the `Display` impl of `toml::de::Error`: a description of why
/// the text was refused.
#[verifier::external_body]
pub(crate) fn error_text(e: &toml::de::Error) -> (r: String) {
    e.to_string()
}

} // verus!
