//! The closed set of failures that extraction and record assembly can report.

use vstd::prelude::*;

verus! {

/// Why a record could not be built from the fields it was given.
#[derive(Debug)]
#[non_exhaustive]
pub enum BuilderError {
    /// A required field was never supplied; holds the field's name.
    UninitializedField(String),
    /// A supplied value was refused; holds the reason.
    ValidationError(String),
}

/// Mathematical model of a [`BuilderError`].
pub enum BuilderErrorView {
    UninitializedField(Seq<char>),
    ValidationError(Seq<char>),
}

impl View for BuilderError {
    type V = BuilderErrorView;

    open spec fn view(&self) -> BuilderErrorView {
        match self {
            BuilderError::UninitializedField(field) => BuilderErrorView::UninitializedField(field@),
            BuilderError::ValidationError(reason) => BuilderErrorView::ValidationError(reason@),
        }
    }
}

impl BuilderError {
    /// The message of this failure, as a reader is shown it.
    pub open spec fn message_text(self) -> Seq<char> {
        match self {
            BuilderError::UninitializedField(field) => "Uninitialized field "@ + field@,
            BuilderError::ValidationError(reason) => "Validation error! Reason : "@ + reason@,
        }
    }

    /// Writes the message of this failure.
    pub fn message(&self) -> (text: String)
        ensures
            text@ == self.message_text(),
    {
        match self {
            BuilderError::UninitializedField(field) => String::from_str(
                "Uninitialized field ",
            ).concat(field.as_str()),
            BuilderError::ValidationError(reason) => String::from_str(
                "Validation error! Reason : ",
            ).concat(reason.as_str()),
        }
    }
}

/// Every way in which reading a page can fail.
#[derive(Debug)]
pub enum Error {
    /// A selector pattern is not valid CSS.
    SelectorCompileError { pattern: String, cause: String },
    /// No element matches the described selector.
    ElementNotFound(String),
    /// The element is there, the attribute is not.
    AttributeNotFound { name: String, element: String },
    /// The element is there and holds no text.
    TextContentNotFound,
    /// The raw text does not convert to the target scalar type.
    ValueParseError { raw: String, target: String },
    /// A record was finalised before all of its required fields were set.
    IncompleteRecord(BuilderError),
}

/// Mathematical model of an [`Error`].
pub enum ErrorView {
    SelectorCompileError { pattern: Seq<char>, cause: Seq<char> },
    ElementNotFound(Seq<char>),
    AttributeNotFound { name: Seq<char>, element: Seq<char> },
    TextContentNotFound,
    ValueParseError { raw: Seq<char>, target: Seq<char> },
    IncompleteRecord(BuilderErrorView),
}

impl View for Error {
    type V = ErrorView;

    open spec fn view(&self) -> ErrorView {
        match self {
            Error::SelectorCompileError { pattern, cause } => ErrorView::SelectorCompileError {
                pattern: pattern@,
                cause: cause@,
            },
            Error::ElementNotFound(selector) => ErrorView::ElementNotFound(selector@),
            Error::AttributeNotFound { name, element } => ErrorView::AttributeNotFound {
                name: name@,
                element: element@,
            },
            Error::TextContentNotFound => ErrorView::TextContentNotFound,
            Error::ValueParseError { raw, target } => ErrorView::ValueParseError {
                raw: raw@,
                target: target@,
            },
            Error::IncompleteRecord(inner) => ErrorView::IncompleteRecord(inner@),
        }
    }
}

impl Error {
    /// The message of this failure, as a reader is shown it.
    pub open spec fn message_text(self) -> Seq<char> {
        match self {
            Error::SelectorCompileError { pattern, cause } => "Selector '"@ + pattern@
                + "' does not compile: "@ + cause@,
            Error::ElementNotFound(selector) => "Element '"@ + selector@
                + "' not found on the page"@,
            Error::AttributeNotFound { name, element } => "Attribute '"@ + name@
                + "' not found on the element "@ + element@,
            Error::TextContentNotFound => "Text content is not found"@,
            Error::ValueParseError { raw, target } => "'"@ + raw@ + "' is not a value of type "@
                + target@,
            Error::IncompleteRecord(inner) => inner.message_text(),
        }
    }

    /// Writes the message of this failure.
    pub fn message(&self) -> (text: String)
        ensures
            text@ == self.message_text(),
    {
        match self {
            Error::SelectorCompileError { pattern, cause } => String::from_str(
                "Selector '",
            ).concat(pattern.as_str()).concat("' does not compile: ").concat(cause.as_str()),
            Error::ElementNotFound(selector) => String::from_str("Element '").concat(
                selector.as_str(),
            ).concat("' not found on the page"),
            Error::AttributeNotFound { name, element } => String::from_str("Attribute '").concat(
                name.as_str(),
            ).concat("' not found on the element ").concat(element.as_str()),
            Error::TextContentNotFound => String::from_str("Text content is not found"),
            Error::ValueParseError { raw, target } => String::from_str("'").concat(
                raw.as_str(),
            ).concat("' is not a value of type ").concat(target.as_str()),
            Error::IncompleteRecord(inner) => inner.message(),
        }
    }
}

/// The result of every fallible operation of this crate.
pub type RawKumaResult<T> = Result<T, Error>;

/// The model of a result whose success value has a model.
pub open spec fn result_view<T: View>(r: RawKumaResult<T>) -> Result<T::V, ErrorView> {
    match r {
        Ok(value) => Ok(value@),
        Err(error) => Err(error@),
    }
}

/// The model of a result whose success value is its own model.
pub open spec fn result_plain<T>(r: RawKumaResult<T>) -> Result<T, ErrorView> {
    match r {
        Ok(value) => Ok(value),
        Err(error) => Err(error@),
    }
}

/// Builds the error for an element that no selector match produced.
pub fn element_not_found(selector: &str) -> (e: Error)
    ensures
        e@ == ErrorView::ElementNotFound(selector@),
{
    Error::ElementNotFound(String::from_str(selector))
}

/// Builds the error for an attribute that an element does not carry.
pub fn attribute_not_found(name: &str, element: &str) -> (e: Error)
    ensures
        e@ == (ErrorView::AttributeNotFound { name: name@, element: element@ }),
{
    Error::AttributeNotFound { name: String::from_str(name), element: String::from_str(element) }
}

/// Builds the error for raw text that is not a value of the target type.
pub fn value_parse_error(raw: &str, target: &str) -> (e: Error)
    ensures
        e@ == (ErrorView::ValueParseError { raw: raw@, target: target@ }),
{
    Error::ValueParseError { raw: String::from_str(raw), target: String::from_str(target) }
}

/// Turns the outcome of a builder into the outcome of an extraction: a
/// record that was left incomplete is reported as such.
pub fn finished<T>(built: Result<T, BuilderError>) -> (r: RawKumaResult<T>)
    ensures
        match built {
            Ok(value) => r == Ok::<T, Error>(value),
            Err(error) => r is Err && r->Err_0@ == ErrorView::IncompleteRecord(error@),
        },
{
    match built {
        Ok(value) => Ok(value),
        Err(error) => Err(Error::IncompleteRecord(error)),
    }
}

} // verus!
