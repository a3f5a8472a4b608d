//! Errors of header assembly and value retrieval.
use vstd::prelude::*;

verus! {

/// Why an object could not be assembled or a value not retrieved.
#[derive(Debug, PartialEq, Eq)]
pub enum Error {
    /// No field with the requested tag is in the object.
    NoSuchDataElement,
    /// The dictionary knows no attribute of the requested name.
    NoSuchAttributeName,
    /// Pixel data assembly is not available.
    UnsupportedPixelData,
    /// The header or value bytes are malformed.
    Decode(String),
    /// The backing source failed.
    Io(String),
}

impl Clone for Error {
    fn clone(&self) -> (r: Self)
        ensures
            r == *self,
    {
        match self {
            Error::NoSuchDataElement => Error::NoSuchDataElement,
            Error::NoSuchAttributeName => Error::NoSuchAttributeName,
            Error::UnsupportedPixelData => Error::UnsupportedPixelData,
            Error::Decode(m) => Error::Decode(m.clone()),
            Error::Io(m) => Error::Io(m.clone()),
        }
    }
}

/// The result of an operation of this library.
pub type Result<T> = core::result::Result<T, Error>;

} // verus!
