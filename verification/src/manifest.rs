//! Reading string settings out of TOML manifests such as `Vapor.toml`.
//!
//! Parsing is done by the `toml` crate; the library only asks it for the
//! string stored under a key of a table.

use vstd::prelude::*;

verus! {

/// The `toml` crate's parse error.
#[verifier::external_type_specification]
#[verifier::external_body]
pub struct ExTomlError(toml::de::Error);

/// What the `toml` crate reads from `text` under `table.key`: `None` when
/// `text` is not a valid TOML document; otherwise the string stored there, or
/// `None` inside when the table or key is missing or does not hold a string.
pub uninterp spec fn toml_lookup(text: Seq<char>, table: Seq<char>, key: Seq<char>) -> Option<
    Option<Seq<char>>,
>;

/// Parse `text` with `toml::Value`'s `FromStr` and read the string at
/// `table.key` through `toml::Value::get` and `toml::Value::as_str`. The
/// contract claims only that the outcome is the one named by [`toml_lookup`]
/// for these arguments: an error exactly when the document does not parse,
/// and otherwise the string found there, if any. What TOML accepts is left to
/// the `toml` crate and not stated.
#[verifier::external_body]
fn toml_string_at(text: &str, table: &str, key: &str) -> (found: Result<Option<String>, toml::de::Error>)
    ensures
        match toml_lookup(text@, table@, key@) {
            None => found is Err,
            Some(value) => found matches Ok(v) && v.deep_view() == value,
        },
{
    let document = text.parse::<toml::Value>()?;
    Ok(
        document.get(table).and_then(|section| section.get(key)).and_then(toml::Value::as_str).map(
            |value| value.to_owned(),
        ),
    )
}

/// The text of a `toml` parse error, through its `Display` impl. Nothing is
/// claimed about the text.
#[verifier::external_body]
fn toml_error_message(error: &toml::de::Error) -> String {
    error.to_string()
}

/// Read the string at `table.key` of the TOML document `text`; the error is
/// the parser's explanation when `text` is not valid TOML.
pub fn manifest_string(text: &str, table: &str, key: &str) -> (found: Result<Option<String>, String>)
    ensures
        match toml_lookup(text@, table@, key@) {
            None => found is Err,
            Some(value) => found matches Ok(v) && v.deep_view() == value,
        },
{
    match toml_string_at(text, table, key) {
        Ok(value) => Ok(value),
        Err(error) => Err(toml_error_message(&error)),
    }
}

} // verus!
