//! The ways a conversion fails.

use vstd::prelude::*;

verus! {

/// Why a value could not be converted.
#[derive(Debug)]
pub enum SqlError {
    /// The buffer is not a well-formed array value. Carries the message of the
    /// parser that refused it.
    Format(String),
    /// The array declares more than one dimension.
    TooManyDimensions,
    /// A SQL NULL stood where the element type has no value for it.
    WasNull,
    /// An element's bytes are not a value of the element type.
    InvalidValue,
    /// The sequence is too long for an array value.
    TooLong,
    /// The value cannot be written as the type that was asked for.
    WrongType,
}

/// An error as contracts speak of it: the message as a sequence of characters.
pub enum ErrorView {
    Format(Seq<char>),
    TooManyDimensions,
    WasNull,
    InvalidValue,
    TooLong,
    WrongType,
}

impl View for SqlError {
    type V = ErrorView;

    open spec fn view(&self) -> ErrorView {
        match self {
            SqlError::Format(msg) => ErrorView::Format(msg@),
            SqlError::TooManyDimensions => ErrorView::TooManyDimensions,
            SqlError::WasNull => ErrorView::WasNull,
            SqlError::InvalidValue => ErrorView::InvalidValue,
            SqlError::TooLong => ErrorView::TooLong,
            SqlError::WrongType => ErrorView::WrongType,
        }
    }
}

/// A result with its error taken by its view.
pub open spec fn outcome<T>(r: Result<T, SqlError>) -> Result<T, ErrorView> {
    match r {
        Ok(v) => Ok(v),
        Err(e) => Err(e@),
    }
}

/// The message that describes an error.
pub open spec fn message_spec(e: ErrorView) -> Seq<char> {
    match e {
        ErrorView::Format(msg) => msg,
        ErrorView::TooManyDimensions => "array contains too many dimensions"@,
        ErrorView::WasNull => "a Postgres value was `NULL`"@,
        ErrorView::InvalidValue => "invalid buffer size"@,
        ErrorView::TooLong => "value too large to transmit"@,
        ErrorView::WrongType => "cannot convert to the Postgres type"@,
    }
}

impl SqlError {
    /// The message that describes the error: the parser's own for a format
    /// error, and a fixed one for each other error.
    pub fn message(&self) -> (msg: String)
        ensures
            msg@ == message_spec(self@),
    {
        match self {
            SqlError::Format(msg) => msg.clone(),
            SqlError::TooManyDimensions => "array contains too many dimensions".to_owned(),
            SqlError::WasNull => "a Postgres value was `NULL`".to_owned(),
            SqlError::InvalidValue => "invalid buffer size".to_owned(),
            SqlError::TooLong => "value too large to transmit".to_owned(),
            SqlError::WrongType => "cannot convert to the Postgres type".to_owned(),
        }
    }
}

} // verus!
