//! What reading and writing a playlist can fail with.

use crate::validation::{PlaylistError, PlaylistErrorView};
use vstd::prelude::*;

verus! {

#[verifier::external_type_specification]
#[verifier::external_body]
pub struct ExZipError(zip::result::ZipError);

#[verifier::external_type_specification]
#[verifier::external_body]
pub struct ExIoError(std::io::Error);

/// A JSON document that is not laid out as the format asks.
#[derive(Debug, Clone, Copy, PartialEq, Eq)]
pub enum SchemaError {
    /// The document, or an item of a list of objects, is no object.
    NotAnObject,
    /// A member that the format requires is absent.
    MissingField { field: &'static str },
    /// A member holds a value of the wrong kind.
    InvalidField { field: &'static str },
}

/// The mathematical content of a [`SchemaError`].
pub enum SchemaErrorView {
    NotAnObject,
    MissingField { field: Seq<char> },
    InvalidField { field: Seq<char> },
}

impl View for SchemaError {
    type V = SchemaErrorView;

    open spec fn view(&self) -> SchemaErrorView {
        match self {
            SchemaError::NotAnObject => SchemaErrorView::NotAnObject,
            SchemaError::MissingField { field } => SchemaErrorView::MissingField { field: field@ },
            SchemaError::InvalidField { field } => SchemaErrorView::InvalidField { field: field@ },
        }
    }
}

/// Why a playlist could not be read or written.
#[derive(Debug)]
pub enum BlistError {
    /// The container is no archive, or an entry of it is missing or damaged.
    Zip(zip::result::ZipError),
    /// The manifest is no JSON text.
    Json(serde_json::Error),
    /// The storage underneath failed.
    IO(std::io::Error),
    /// The manifest is JSON, but not laid out as the format asks.
    Schema(SchemaError),
    /// The playlist breaks a rule.
    Validation(PlaylistError),
}

/// The mathematical content of a [`BlistError`]: its kind, and for the kinds
/// that this library decides itself, the details.
pub enum BlistErrorView {
    Zip,
    Json,
    IO,
    Schema(SchemaErrorView),
    Validation(PlaylistErrorView),
}

impl View for BlistError {
    type V = BlistErrorView;

    open spec fn view(&self) -> BlistErrorView {
        match self {
            BlistError::Zip(_) => BlistErrorView::Zip,
            BlistError::Json(_) => BlistErrorView::Json,
            BlistError::IO(_) => BlistErrorView::IO,
            BlistError::Schema(error) => BlistErrorView::Schema(error@),
            BlistError::Validation(error) => BlistErrorView::Validation(error@),
        }
    }
}

} // verus!
