//! What this library takes from toml_edit: parsing front matter, reading
//! and writing its `date` and `updated` keys, and writing it back out with
//! its layout kept.
use vstd::prelude::*;

use crate::date::{CalendarDate, FieldValue};

verus! {

#[verifier::external_type_specification]
#[verifier::external_body]
pub struct ExDocument(toml_edit::Document);

#[verifier::external_type_specification]
#[verifier::external_body]
pub struct ExTomlError(toml_edit::TomlError);

/// The top-level keys of a document, each with what it holds: a date, or
/// a value of another kind.
pub uninterp spec fn toml_fields(doc: toml_edit::Document) -> Map<Seq<char>, FieldValue>;

/// The top-level keys of the document that `text` parses to; `None` where
/// `text` is not valid TOML.
pub uninterp spec fn toml_parse(text: Seq<char>) -> Option<Map<Seq<char>, FieldValue>>;

/// The text toml_edit writes out for a document.
pub uninterp spec fn toml_text(doc: toml_edit::Document) -> Seq<char>;

/// What `key` holds among `fields`, `Absent` where it is not there.
pub open spec fn field_in(fields: Map<Seq<char>, FieldValue>, key: Seq<char>) -> FieldValue {
    if fields.contains_key(key) {
        fields[key]
    } else {
        FieldValue::Absent
    }
}

/// Relies on `<toml_edit::Document as FromStr>::from_str`: it fails exactly
/// on text that is not valid TOML, and otherwise yields the document that
/// `text` describes.
#[verifier::external_body]
pub(crate) fn parse_document(text: &str) -> (r: Result<toml_edit::Document, toml_edit::TomlError>)
    ensures
        r is Ok <==> toml_parse(text@) is Some,
        r matches Ok(doc) ==> toml_fields(doc) == toml_parse(text@)->0,
{
    text.parse::<toml_edit::Document>()
}

/// Relies on `toml_edit::Table::get` and `toml_edit::Item::as_datetime`:
/// a key is absent, holds a datetime with a date part, or holds something
/// else.
#[verifier::external_body]
pub(crate) fn field_value(doc: &toml_edit::Document, key: &str) -> (r: FieldValue)
    ensures
        r == field_in(toml_fields(*doc), key@),
{
    match doc.get(key) {
        None => FieldValue::Absent,
        Some(item) => match item.as_datetime().and_then(|dt| dt.date) {
            Some(d) => FieldValue::Date(CalendarDate { year: d.year, month: d.month, day: d.day }),
            None => FieldValue::InvalidType,
        },
    }
}

/// Relies on `IndexMut<&str>` for `toml_edit::Document`: afterwards `key`
/// holds a datetime with this date and neither time nor offset, and the
/// other keys are as they were.
#[verifier::external_body]
pub(crate) fn set_date(doc: &mut toml_edit::Document, key: &str, date: CalendarDate)
    ensures
        toml_fields(*final(doc)) == toml_fields(*old(doc)).insert(key@, FieldValue::Date(date)),
{
    doc[key] = toml_edit::value(toml_edit::Datetime {
        date: Some(toml_edit::Date { year: date.year, month: date.month, day: date.day }),
        time: None,
        offset: None,
    });
}

/// Relies on `toml_edit::Table::remove`: `key` leaves the document, and
/// the other keys are as they were.
#[verifier::external_body]
pub(crate) fn remove_field(doc: &mut toml_edit::Document, key: &str)
    ensures
        toml_fields(*final(doc)) == toml_fields(*old(doc)).remove(key@),
{
    doc.remove(key);
}

/// Relies on `Display` for `toml_edit::Document`, which writes the document
/// out.
#[verifier::external_body]
pub(crate) fn document_text(doc: &toml_edit::Document) -> (r: String)
    ensures
        r@ == toml_text(*doc),
{
    doc.to_string()
}

} // verus!
