//! Reading fields out of stored documents.

use vstd::prelude::*;
use mongodb::bson::Document;
use crate::error::{SharedTierListError, ValueAccessError};

verus! {

/// A stored document of `bson`.
#[verifier::external_type_specification]
#[verifier::external_body]
pub struct ExDocument(Document);

/// The names of all fields of a document.
pub uninterp spec fn document_fields(doc: Document) -> Set<Seq<char>>;

/// The fields of a document that hold a string, with their text.
pub uninterp spec fn document_strings(doc: Document) -> Map<Seq<char>, Seq<char>>;

/// What reading the string field `field_name` of a document gives: its text
/// where the field holds a string, else why it could not be read.
pub open spec fn string_field(
    fields: Set<Seq<char>>,
    strings: Map<Seq<char>, Seq<char>>,
    field_name: Seq<char>,
) -> Result<Seq<char>, SharedTierListError> {
    if !fields.contains(field_name) {
        Err(SharedTierListError::MongoValueAccess(ValueAccessError::NotPresent))
    } else if !strings.contains_key(field_name) {
        Err(SharedTierListError::MongoValueAccess(ValueAccessError::UnexpectedType))
    } else {
        Ok(strings[field_name])
    }
}

/// The text of a result that holds a string.
pub open spec fn text_or_error(r: Result<String, SharedTierListError>) -> Result<
    Seq<char>,
    SharedTierListError,
> {
    match r {
        Ok(s) => Ok(s@),
        Err(e) => Err(e),
    }
}

/// Reads the string field `field_name` of `doc`.
pub fn get_string_field(doc: &Document, field_name: &str) -> (r: Result<String, SharedTierListError>)
    ensures
        text_or_error(r) == string_field(
            document_fields(*doc),
            document_strings(*doc),
            field_name@,
        ),
{
    match document_get_str(doc, field_name) {
        Ok(text) => Ok(text),
        Err(e) => Err(SharedTierListError::MongoValueAccess(e)),
    }
}

/// `bson::Document::get_str`.
///
/// Trusted: the call gives the text of the field where the document has a
/// field of that name holding a string; it reports the field as not present
/// where the document has none of that name, and as of an unexpected type
/// where it holds anything else.
#[verifier::external_body]
fn document_get_str(doc: &Document, field_name: &str) -> (r: Result<String, ValueAccessError>)
    ensures
        match r {
            Ok(text) => document_fields(*doc).contains(field_name@) && document_strings(
                *doc,
            ).contains_key(field_name@) && text@ == document_strings(*doc)[field_name@],
            Err(ValueAccessError::NotPresent) => !document_fields(*doc).contains(field_name@),
            Err(ValueAccessError::UnexpectedType) => document_fields(*doc).contains(field_name@)
                && !document_strings(*doc).contains_key(field_name@),
        },
{
    match doc.get_str(field_name) {
        Ok(text) => Ok(text.to_string()),
        Err(mongodb::bson::document::ValueAccessError::NotPresent) => Err(
            ValueAccessError::NotPresent,
        ),
        Err(_) => Err(ValueAccessError::UnexpectedType),
    }
}

} // verus!
