//! Decoded values, as handed back by an element source.
use vstd::prelude::*;
use crate::header::Tag;

verus! {

/// A decoded field value. Its shape is chosen by the decoder that produced
/// it; the object only caches and hands it out.
#[derive(Debug, PartialEq, Eq)]
pub enum DicomValue {
    /// Text, after the text codec.
    Text(String),
    /// Unsigned integers.
    Unsigned(Vec<u64>),
    /// Signed integers.
    Signed(Vec<i64>),
    /// Attribute tags.
    Tags(Vec<Tag>),
    /// Raw bytes (binary blobs, encapsulated fragments, floating-point data).
    Bytes(Vec<u8>),
    /// A field with no value.
    Empty,
}

/// The mathematical content of a `DicomValue`.
pub enum ValueModel {
    Text(Seq<char>),
    Unsigned(Seq<u64>),
    Signed(Seq<i64>),
    Tags(Seq<Tag>),
    Bytes(Seq<u8>),
    Empty,
}

impl View for DicomValue {
    type V = ValueModel;

    open spec fn view(&self) -> ValueModel {
        match self {
            DicomValue::Text(s) => ValueModel::Text(s@),
            DicomValue::Unsigned(v) => ValueModel::Unsigned(v@),
            DicomValue::Signed(v) => ValueModel::Signed(v@),
            DicomValue::Tags(v) => ValueModel::Tags(v@),
            DicomValue::Bytes(v) => ValueModel::Bytes(v@),
            DicomValue::Empty => ValueModel::Empty,
        }
    }
}

impl Clone for DicomValue {
    fn clone(&self) -> (r: Self)
        ensures
            r@ == self@,
    {
        match self {
            DicomValue::Text(s) => DicomValue::Text(s.clone()),
            DicomValue::Unsigned(v) => {
                let c = v.clone();
                assert(c@ =~= v@);
                DicomValue::Unsigned(c)
            },
            DicomValue::Signed(v) => {
                let c = v.clone();
                assert(c@ =~= v@);
                DicomValue::Signed(c)
            },
            DicomValue::Tags(v) => {
                let c = v.clone();
                assert(c@ =~= v@);
                DicomValue::Tags(c)
            },
            DicomValue::Bytes(v) => {
                let c = v.clone();
                assert(c@ =~= v@);
                DicomValue::Bytes(c)
            },
            DicomValue::Empty => DicomValue::Empty,
        }
    }
}

/// The content of an optional value.
pub open spec fn option_model(v: Option<DicomValue>) -> Option<ValueModel> {
    match v {
        Some(x) => Some(x@),
        None => None,
    }
}

} // verus!
