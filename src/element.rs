//! Lazy data elements: a field header and the value cached for it, once read.
use vstd::prelude::*;
use crate::header::{DicomElementMarker, Tag, VR};
use crate::value::{option_model, DicomValue, ValueModel};

verus! {

/// The state of one field of an object: its header, and its decoded value
/// once it has been read.
pub struct ElementState {
    pub marker: DicomElementMarker,
    pub value: Option<ValueModel>,
}

/// A data element that holds its value only after the first read. It does
/// not know where its value comes from and cannot read it by itself.
#[derive(Debug)]
pub struct LazyDataElement {
    marker: DicomElementMarker,
    value: Option<DicomValue>,
}

impl View for LazyDataElement {
    type V = ElementState;

    closed spec fn view(&self) -> ElementState {
        ElementState { marker: self.marker, value: option_model(self.value) }
    }
}

impl LazyDataElement {
    /// The header this element was made from.
    pub closed spec fn spec_marker(&self) -> DicomElementMarker {
        self.marker
    }

    /// The cached value.
    pub closed spec fn spec_value(&self) -> Option<DicomValue> {
        self.value
    }

    /// A new element for the given header, with no value read yet.
    pub fn new(marker: DicomElementMarker) -> (r: LazyDataElement)
        ensures
            r.spec_marker() == marker,
            r.spec_value().is_none(),
            r@ == (ElementState { marker, value: None }),
    {
        LazyDataElement { marker, value: None }
    }

    /// The header the element was made from.
    pub fn marker(&self) -> (r: DicomElementMarker)
        ensures
            r == self@.marker,
    {
        self.marker
    }

    /// The element's tag.
    pub fn tag(&self) -> (r: Tag)
        ensures
            r == self@.marker.tag,
    {
        self.marker.tag
    }

    /// The element's value representation.
    pub fn vr(&self) -> (r: VR)
        ensures
            r == self@.marker.vr,
    {
        self.marker.vr
    }

    /// The declared length of the value, which is `UNDEFINED_LENGTH` for
    /// a field closed by a delimiter.
    pub fn len(&self) -> (r: u32)
        ensures
            r == self@.marker.len,
    {
        self.marker.len
    }

    /// The cached value; it is present only once the value has been read.
    pub fn value(&self) -> (r: &Option<DicomValue>)
        ensures
            *r == self.spec_value(),
            option_model(*r) == self@.value,
    {
        &self.value
    }

    /// Mutable access to the cached value.
    pub fn value_mut(&mut self) -> (r: &mut Option<DicomValue>)
        ensures
            *r == old(self).spec_value(),
            final(self).spec_marker() == old(self).spec_marker(),
            final(self).spec_value() == *final(r),
    {
        &mut self.value
    }

    /// Stores a value read for this element.
    pub fn set_value(&mut self, value: DicomValue) -> (r: ())
        ensures
            final(self).spec_marker() == old(self).spec_marker(),
            final(self).spec_value() == Some(value),
            final(self)@ == (ElementState { marker: old(self)@.marker, value: Some(value@) }),
    {
        self.value = Some(value);
    }
}

} // verus!
