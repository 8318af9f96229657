//! What can go wrong between a raw template and a receipt.

use vstd::prelude::*;
use crate::model::Invalid;
use crate::template::fields::FieldName;
use crate::template::grammar::Stuck;

verus! {

/// Why a template was not compiled or a receipt was not built.
#[derive(Debug, PartialEq, Eq)]
pub enum Error {
    /// The text of a field could not be read. The grammar reads every text,
    /// so compiling never returns this.
    Parse(FieldName, Stuck),
    /// A placeholder names a function that the table does not hold.
    UnknownFunction(String),
    /// A field has placeholders and the build has no values for the field.
    MissingFieldValues(FieldName),
    /// A field has a variable and the build has no value for it.
    MissingValue(FieldName, String),
    /// The rendered text of a field is not a value of the field's type.
    Validation(FieldName, Invalid),
    /// The pattern of a placeholder of this field was refused by the regex
    /// engine; the text is the placeholder's name.
    Pattern(FieldName, String),
}

/// An error as a mathematical value.
pub enum ErrorView {
    Parse(FieldName, Stuck),
    UnknownFunction(Seq<char>),
    MissingFieldValues(FieldName),
    MissingValue(FieldName, Seq<char>),
    Validation(FieldName, Invalid),
    Pattern(FieldName, Seq<char>),
}

impl View for Error {
    type V = ErrorView;

    open spec fn view(&self) -> ErrorView {
        match self {
            Error::Parse(field, stuck) => ErrorView::Parse(*field, *stuck),
            Error::UnknownFunction(name) => ErrorView::UnknownFunction(name@),
            Error::MissingFieldValues(field) => ErrorView::MissingFieldValues(*field),
            Error::MissingValue(field, name) => ErrorView::MissingValue(*field, name@),
            Error::Validation(field, fault) => ErrorView::Validation(*field, *fault),
            Error::Pattern(field, name) => ErrorView::Pattern(*field, name@),
        }
    }
}

} // verus!
