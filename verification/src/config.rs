//! Reading the key-binding table, a TOML document, through the `toml` crate.
//!
//! What this file says of the `toml` crate is believed, not proved: it
//! states what the crate does, in terms that the verified code can build on.

use vstd::prelude::*;
use crate::input::{nesting_marks, MAX_NESTING_MARKS};

verus! {

/// A parsed TOML value, held as the `toml` crate made it.
#[verifier::external_type_specification]
#[verifier::external_body]
pub struct ExTomlValue(toml::Value);

/// The error with which `toml` turns a text down.
#[verifier::external_type_specification]
#[verifier::external_body]
pub struct ExTomlError(toml::de::Error);

/// One entry of a TOML table: the entry's key, and the entry's value if that
/// value is a TOML string.
#[derive(Debug)]
pub struct Binding {
    pub name: String,
    pub key: Option<String>,
}

/// A `Binding` as a mathematical value.
pub struct BindingSpec {
    pub name: Seq<char>,
    pub key: Option<Seq<char>>,
}

impl View for Binding {
    type V = BindingSpec;

    open spec fn view(&self) -> BindingSpec {
        BindingSpec {
            name: self.name@,
            key: match self.key {
                Some(k) => Some(k@),
                None => None,
            },
        }
    }
}

/// The value that `toml::from_str` reads from `text`, if it accepts it.
pub uninterp spec fn toml_document(text: Seq<char>) -> Option<toml::Value>;

/// What `toml::Value::get` finds in `value` under the string index `key`.
pub uninterp spec fn toml_member(value: toml::Value, key: Seq<char>) -> Option<toml::Value>;

/// The entries of `value`, in the order in which its table is walked, if
/// `value` is a table.
pub uninterp spec fn toml_entries(value: toml::Value) -> Option<Seq<BindingSpec>>;

/// Calls `toml::from_str` to read `text` as a `toml::Value`. The outcome
/// depends on `text` alone: it is the document named `toml_document(text)`,
/// or an error where there is none.
///
/// The parser calls itself once for each level of nesting, of arrays, of
/// inline tables and of dotted names alike, and a text nested deeply enough
/// exhausts the stack. Each level takes a nesting mark in the text, so a
/// text with few of them is shallow; the texts with many are left out.
#[verifier::external_body]
pub(crate) fn parse_document(text: &str) -> (r: Result<toml::Value, toml::de::Error>)
    requires
        nesting_marks(text@) <= MAX_NESTING_MARKS,
    ensures
        match r {
            Ok(doc) => toml_document(text@) == Some(doc),
            Err(_) => toml_document(text@).is_none(),
        },
{
    toml::from_str::<toml::Value>(text)
}

/// Calls `toml::Value::get` with a string index: the value under `key` if
/// `value` is a table that has one, else nothing.
#[verifier::external_body]
pub(crate) fn member<'a>(value: &'a toml::Value, key: &str) -> (r: Option<&'a toml::Value>)
    ensures
        match r {
            Some(found) => toml_member(*value, key@) == Some(*found),
            None => toml_member(*value, key@).is_none(),
        },
{
    value.get(key)
}

/// Whether the string `a` comes before the string `b` and differs from it,
/// in the order of strings: character by character, by code point, a string
/// coming after each of its own beginnings.
pub open spec fn precedes(a: Seq<char>, b: Seq<char>) -> bool
    decreases a.len(),
{
    if b.len() == 0 {
        false
    } else if a.len() == 0 {
        true
    } else if a[0] != b[0] {
        (a[0] as u32) < (b[0] as u32)
    } else {
        precedes(a.drop_first(), b.drop_first())
    }
}

/// The names of `table` stand in the order of strings, none of them twice.
pub open spec fn ascending(table: Seq<BindingSpec>) -> bool {
    forall|i: int, j: int|
        0 <= i < j < table.len() ==> precedes((#[trigger] table[i]).name, (#[trigger] table[j]).name)
}

/// Calls `toml::Value::as_table` and walks the table with `Map::iter`,
/// copying each key and, through `toml::Value::as_str`, each value that is a
/// string. Nothing is handed out unless `value` is a table. The table is a
/// `BTreeMap` keyed by `String`, which is walked in the order of its keys.
#[verifier::external_body]
pub(crate) fn entries(value: &toml::Value) -> (r: Option<Vec<Binding>>)
    ensures
        match r {
            Some(list) => toml_entries(*value) == Some(list@.map_values(|b: Binding| b@))
                && ascending(list@.map_values(|b: Binding| b@)),
            None => toml_entries(*value).is_none(),
        },
{
    value.as_table().map(
        |table|
            table.iter().map(
                |(name, bound)|
                    Binding { name: name.clone(), key: bound.as_str().map(str::to_owned) },
            ).collect(),
    )
}

} // verus!
