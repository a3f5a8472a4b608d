//! A lazily materialised DICOM object.
//!
//! Field headers produced by a parser are assembled into an index keyed by
//! tag. The value of a field is read and decoded only when it is first asked
//! for, through an element source that owns the backing stream, and is then
//! cached for the lifetime of the object.
pub mod dictionary;
pub mod element;
pub mod error;
pub mod header;
pub mod lemmas;
pub mod object;
pub mod value;

pub use dictionary::{DataDictionary, DictionaryEntry};
pub use element::{ElementState, LazyDataElement};
pub use error::{Error, Result};
pub use header::{DicomElementMarker, ReadRequest, Tag, ValueExtent, UNDEFINED_LENGTH, VR};
pub use object::{DicomObject, ElementSource, LazyDicomObject};
pub use value::{DicomValue, ValueModel};
