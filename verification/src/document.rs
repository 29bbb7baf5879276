//! TOML documents, as the `toml` crate reads, holds and writes them.
//!
//! The library leaves TOML to that crate. A value of it is opaque here; what
//! it holds is spoken of through a model, [`Toml`], and the functions of this
//! file say in terms of that model what the functions of the crate do.
//! Nothing in this file is proved: the contracts state what the crate's
//! documentation and source say.
//!
//! The model of a table is a map without an order. That is all there is to a
//! table as long as the crate is built without its feature `preserve_order`,
//! as it is here: it then keeps the keys of a table sorted, and the text of
//! a document follows from its entries.

use vstd::prelude::*;

verus! {

/// `toml::Value`, a TOML value. Nothing is known of it but what the
/// functions below say.
#[verifier::external_type_specification]
#[verifier::external_body]
pub struct ExValue(toml::Value);

/// `toml::map::Map`, of which `toml::Table` is the case with `String` keys
/// and `toml::Value` values. Nothing is known of it but what the functions
/// below say.
#[verifier::external_type_specification]
#[verifier::external_body]
#[verifier::reject_recursive_types(K)]
#[verifier::reject_recursive_types(V)]
pub struct ExMap<K, V>(toml::map::Map<K, V>);

/// `toml::de::Error`, what the crate says of a text that is no document.
#[verifier::external_type_specification]
#[verifier::external_body]
pub struct ExParseError(toml::de::Error);

/// `toml::ser::Error`, what the crate says of a table that it cannot write.
#[verifier::external_type_specification]
#[verifier::external_body]
pub struct ExWriteError(toml::ser::Error);

/// What a TOML value holds.
pub enum Toml {
    String(Seq<char>),
    Integer(int),
    /// A float, by the bits of its IEEE 754 form.
    Float(u64),
    Boolean(bool),
    /// A date or a time, by its text.
    Datetime(Seq<char>),
    Array(Seq<Toml>),
    Table(Map<Seq<char>, Toml>),
}

/// The entries of a table: each key with what its value holds.
pub type Entries = Map<Seq<char>, Toml>;

/// What `value` holds.
pub uninterp spec fn value_model(value: toml::Value) -> Toml;

/// The entries of `table`: each key with what its value holds.
pub uninterp spec fn table_model(table: toml::map::Map<String, toml::Value>) -> Entries;

/// The entries of the document that `text` is, if it is a TOML document.
pub uninterp spec fn toml_document(text: Seq<char>) -> Option<Entries>;

/// The text of the document with the entries `entries`, if it can be written.
pub uninterp spec fn toml_text(entries: Entries) -> Option<Seq<char>>;

/// `text` written as a TOML string, in quotes and with what needs escaping
/// escaped.
pub uninterp spec fn toml_quoted(text: Seq<char>) -> Seq<char>;

/// What `table` has under `key`, if anything.
pub open spec fn entry(table: Entries, key: Seq<char>) -> Option<Toml> {
    if table.contains_key(key) {
        Some(table[key])
    } else {
        None
    }
}

/// What `value` has under `key`, if it is a table and has anything there.
pub open spec fn member(value: Toml, key: Seq<char>) -> Option<Toml> {
    match value {
        Toml::Table(entries) => entry(entries, key),
        _ => None,
    }
}

/// Parses a document with `str::parse::<toml::Table>`. Assumed: whether the
/// text is a document, and which, depends on the text only.
#[verifier::external_body]
pub(crate) fn parse_document(text: &str) -> (parsed: Result<toml::Table, toml::de::Error>)
    ensures
        match parsed {
            Ok(table) => toml_document(text@) == Some(table_model(table)),
            Err(_) => toml_document(text@) is None,
        },
{
    text.parse::<toml::Table>()
}

/// Writes a document with `toml::to_string`. Assumed: whether the table can
/// be written, and the text, depend on its entries only.
#[verifier::external_body]
pub(crate) fn write_document(table: &toml::Table) -> (written: Result<String, toml::ser::Error>)
    ensures
        match written {
            Ok(text) => toml_text(table_model(*table)) == Some(text@),
            Err(_) => toml_text(table_model(*table)) is None,
        },
{
    toml::to_string(table)
}

/// Writes a text as a TOML string, by `to_string` on a `toml::Value::String`.
/// Assumed: the outcome depends on the text only.
#[verifier::external_body]
pub(crate) fn quote(text: &str) -> (quoted: String)
    ensures
        quoted@ == toml_quoted(text@),
{
    toml::Value::String(text.to_owned()).to_string()
}

/// Calls `Map::get`: the value under `key`, if the table has the key.
#[verifier::external_body]
pub(crate) fn table_get<'a>(table: &'a toml::Table, key: &str) -> (found: Option<&'a toml::Value>)
    ensures
        match found {
            Some(value) => entry(table_model(*table), key@) == Some(value_model(*value)),
            None => entry(table_model(*table), key@) is None,
        },
{
    table.get(key)
}

/// Calls `Map::keys`: every key of the table once, in the order in which the
/// table holds them.
#[verifier::external_body]
pub(crate) fn table_keys(table: &toml::Table) -> (keys: Vec<String>)
    ensures
        keys.deep_view().no_duplicates(),
        keys.deep_view().to_set() == table_model(*table).dom(),
{
    table.keys().cloned().collect()
}

/// Calls `Map::new`: a table without entries.
#[verifier::external_body]
pub(crate) fn new_table() -> (table: toml::Table)
    ensures
        table_model(table) == Entries::empty(),
{
    toml::Table::new()
}

/// Calls `Map::insert`: afterwards the table has `value` under `key`, and its
/// other entries as before.
#[verifier::external_body]
pub(crate) fn table_insert(table: &mut toml::Table, key: String, value: toml::Value)
    ensures
        table_model(*final(table)) == table_model(*old(table)).insert(key@, value_model(value)),
{
    table.insert(key, value);
}

/// Calls `clone` on a table: a table with the same entries.
#[verifier::external_body]
pub(crate) fn clone_table(table: &toml::Table) -> (copy: toml::Table)
    ensures
        table_model(copy) == table_model(*table),
{
    table.clone()
}

/// Calls `clone` on a value: a value that holds the same.
#[verifier::external_body]
pub(crate) fn clone_value(value: &toml::Value) -> (copy: toml::Value)
    ensures
        value_model(copy) == value_model(*value),
{
    value.clone()
}

/// Calls `Value::as_str`: the text of the value, if it is a string.
#[verifier::external_body]
pub(crate) fn value_as_str<'a>(value: &'a toml::Value) -> (text: Option<&'a str>)
    ensures
        match text {
            Some(text) => value_model(*value) == Toml::String(text@),
            None => !(value_model(*value) is String),
        },
{
    value.as_str()
}

/// Calls `Value::as_table`: the table of the value, if it is a table.
#[verifier::external_body]
pub(crate) fn value_as_table<'a>(value: &'a toml::Value) -> (table: Option<&'a toml::Table>)
    ensures
        match table {
            Some(table) => value_model(*value) == Toml::Table(table_model(*table)),
            None => !(value_model(*value) is Table),
        },
{
    value.as_table()
}

/// Calls `Value::from` on a `String`: a string value with that text.
#[verifier::external_body]
pub(crate) fn string_value(text: String) -> (value: toml::Value)
    ensures
        value_model(value) == Toml::String(text@),
{
    toml::Value::from(text)
}

/// Calls `Value::from` on a table: a table value with the entries of that
/// table.
#[verifier::external_body]
pub(crate) fn table_value(table: toml::Table) -> (value: toml::Value)
    ensures
        value_model(value) == Toml::Table(table_model(table)),
{
    toml::Value::from(table)
}

} // verus!
