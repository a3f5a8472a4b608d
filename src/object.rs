//! The lazy object: an index of field headers, assembled once from the
//! parser's header stream, whose values are read on first request and
//! cached.
use vstd::prelude::*;
use std::collections::HashMap;
use crate::dictionary::DataDictionary;
use crate::element::{ElementState, LazyDataElement};
use crate::error::{Error, Result};
use vstd::set_lib::lemma_map_size;
use crate::header::{lemma_key_injective, lemma_key_round_trip, tag_of_key, DicomElementMarker, ReadRequest, Tag};
use crate::value::{DicomValue, ValueModel};

verus! {

broadcast use vstd::std_specs::hash::group_hash_axioms;

/// The owner of the backing stream, which reads and decodes field values.
pub trait ElementSource {
    /// Seeks to `request.pos`, reads the value's extent and decodes it as
    /// `request.vr`, applying the text codec when `request.text` holds.
    fn read_value(&mut self, request: &ReadRequest) -> Result<DicomValue>;
}

/// A DICOM object seen as a dictionary of elements indexed by tag.
pub trait DicomObject {
    type Element;

    /// Retrieves an element by its tag.
    fn element(&mut self, tag: Tag) -> Result<Self::Element>;

    /// Retrieves an element by its attribute name.
    fn element_by_name(&mut self, name: &str) -> Result<Self::Element>;

    /// Retrieves the object's pixel data.
    fn pixel_data(&mut self) -> Result<()>;
}

/// The index built from a sequence of headers: each tag maps to the last
/// header that carries it.
pub open spec fn index_of(headers: Seq<DicomElementMarker>) -> Map<Tag, DicomElementMarker>
    decreases headers.len(),
{
    if headers.len() == 0 {
        Map::empty()
    } else {
        index_of(headers.drop_last()).insert(headers.last().tag, headers.last())
    }
}

/// The state of a freshly assembled object: every header of the index,
/// none of them read.
pub open spec fn unread(index: Map<Tag, DicomElementMarker>) -> Map<Tag, ElementState> {
    index.map_values(|m: DicomElementMarker| ElementState { marker: m, value: None })
}

/// Whether every item of a header stream is a header.
pub open spec fn all_headers(items: Seq<Result<DicomElementMarker>>) -> bool {
    forall|i: int| 0 <= i < items.len() ==> items[i] is Ok
}

/// The headers of a stream in which every item is one.
pub open spec fn headers_of(items: Seq<Result<DicomElementMarker>>) -> Seq<DicomElementMarker> {
    items.map_values(|r: Result<DicomElementMarker>| r->Ok_0)
}

/// Whether item `i` is the first error of a header stream.
pub open spec fn is_first_error(items: Seq<Result<DicomElementMarker>>, i: int) -> bool {
    &&& 0 <= i < items.len()
    &&& items[i] is Err
    &&& forall|j: int| 0 <= j < i ==> items[j] is Ok
}

/// The content of a retrieval result.
pub open spec fn result_model(r: Result<DicomValue>) -> core::result::Result<ValueModel, Error> {
    match r {
        Ok(v) => Ok(v@),
        Err(e) => Err(e),
    }
}

/// The fields by tag of an index keyed by `Tag::spec_key`.
pub open spec fn tag_view(m: Map<u32, LazyDataElement>) -> Map<Tag, ElementState> {
    Map::new(|t: Tag| m.contains_key(t.spec_key()), |t: Tag| m[t.spec_key()]@)
}

proof fn lemma_tag_view_insert(m: Map<u32, LazyDataElement>, tag: Tag, e: LazyDataElement)
    ensures
        tag_view(m.insert(tag.spec_key(), e)) == tag_view(m).insert(tag, e@),
{
    assert forall|t: Tag| #[trigger] tag_view(m.insert(tag.spec_key(), e)).contains_key(t)
        <==> tag_view(m).insert(tag, e@).contains_key(t) by {
        lemma_key_injective(t, tag);
    }
    assert forall|t: Tag| #[trigger] tag_view(m.insert(tag.spec_key(), e)).contains_key(t)
        implies tag_view(m.insert(tag.spec_key(), e))[t] == tag_view(m).insert(tag, e@)[t] by {
        lemma_key_injective(t, tag);
    }
    assert(tag_view(m.insert(tag.spec_key(), e)) =~= tag_view(m).insert(tag, e@));
}

/// Data type for a lazily loaded DICOM object.
pub struct LazyDicomObject<'d, S> {
    dict: &'d DataDictionary,
    source: S,
    entries: HashMap<u32, LazyDataElement>,
}

impl<'d, S: ElementSource> LazyDicomObject<'d, S> {
    /// The object's fields by tag.
    pub closed spec fn entries(&self) -> Map<Tag, ElementState> {
        tag_view(self.entries@)
    }

    /// The element source that the object owns.
    pub closed spec fn spec_source(&self) -> S {
        self.source
    }

    /// The dictionary that names are resolved through.
    pub closed spec fn spec_dict(&self) -> DataDictionary {
        *self.dict
    }

    /// What `from_iter` gives for a header stream: the first error of the
    /// stream if it has one; else an object whose fields are the index of
    /// the headers, none read, owning `source` and resolving names through
    /// `dict`.
    pub open spec fn assembly(
        items: Seq<Result<DicomElementMarker>>,
        source: S,
        dict: DataDictionary,
        r: Result<Self>,
    ) -> bool {
        match r {
            Ok(obj) => {
                &&& all_headers(items)
                &&& obj.entries() == unread(index_of(headers_of(items)))
                &&& obj.spec_source() == source
                &&& obj.spec_dict() == dict
            },
            Err(e) => exists|i: int|
                is_first_error(items, i) && items[i] == Err::<DicomElementMarker, Error>(e),
        }
    }

    /// What `element(tag)` does, from the object `pre` to the object `post`
    /// with the result `r`: an absent tag fails with `NoSuchDataElement`
    /// and changes nothing; a cached value is returned as it is without
    /// touching the source; otherwise the source is asked once for the
    /// field's read request, and a value it returns is cached.
    pub open spec fn element_step(pre: Self, tag: Tag, r: Result<DicomValue>, post: Self) -> bool {
        &&& post.spec_dict() == pre.spec_dict()
        &&& post.entries().dom() == pre.entries().dom()
        &&& if !pre.entries().contains_key(tag) {
            &&& r == Err::<DicomValue, Error>(Error::NoSuchDataElement)
            &&& post.entries() == pre.entries()
            &&& post.spec_source() == pre.spec_source()
        } else {
            match pre.entries()[tag].value {
                Some(v) => {
                    &&& result_model(r) == Ok::<ValueModel, Error>(v)
                    &&& post.entries() == pre.entries()
                    &&& post.spec_source() == pre.spec_source()
                },
                None => match r {
                    Ok(v) => post.entries() == pre.entries().insert(
                        tag,
                        ElementState { marker: pre.entries()[tag].marker, value: Some(v@) },
                    ),
                    Err(_) => post.entries() == pre.entries(),
                },
            }
        }
    }

    /// What `element_by_name(name)` does: an unknown name fails with
    /// `NoSuchAttributeName` and changes nothing; a known one is
    /// `element` of the tag it resolves to.
    pub open spec fn element_by_name_step(
        pre: Self,
        name: Seq<char>,
        r: Result<DicomValue>,
        post: Self,
    ) -> bool {
        match pre.spec_dict().tag_by_name(name) {
            None => {
                &&& r == Err::<DicomValue, Error>(Error::NoSuchAttributeName)
                &&& post.entries() == pre.entries()
                &&& post.spec_source() == pre.spec_source()
                &&& post.spec_dict() == pre.spec_dict()
            },
            Some(tag) => Self::element_step(pre, tag, r, post),
        }
    }
}

impl<'d, S: ElementSource> LazyDicomObject<'d, S> {
    /// Assembles an object from the parser's header stream and the source
    /// that owns the stream. The first error of the stream aborts the
    /// assembly and is returned; otherwise each tag maps to the last header
    /// that carries it, and no value has been read.
    pub fn from_iter(
        iter: Vec<Result<DicomElementMarker>>,
        source: S,
        dict: &'d DataDictionary,
    ) -> (r: Result<LazyDicomObject<'d, S>>)
        ensures
            Self::assembly(iter@, source, *dict, r),
    {
        let mut entries: HashMap<u32, LazyDataElement> = HashMap::new();
        let mut i: usize = 0;
        proof {
            assert(headers_of(iter@.take(0)) =~= Seq::<DicomElementMarker>::empty());
            assert(tag_view(entries@) =~= unread(index_of(headers_of(iter@.take(0)))));
        }
        while i < iter.len()
            invariant
                0 <= i <= iter@.len(),
                forall|j: int| 0 <= j < i ==> iter@[j] is Ok,
                tag_view(entries@) == unread(index_of(headers_of(iter@.take(i as int)))),
            decreases iter@.len() - i,
        {
            match &iter[i] {
                Ok(m) => {
                    let marker = *m;
                    let ghost before = entries@;
                    let fresh = LazyDataElement::new(marker);
                    let ghost fresh_view = fresh;
                    entries.insert(marker.tag.key(), fresh);
                    proof {
                        lemma_tag_view_insert(before, marker.tag, fresh_view);
                        let prev = headers_of(iter@.take(i as int));
                        let next = headers_of(iter@.take(i + 1));
                        assert(next.drop_last() =~= prev);
                        assert(next.last() == marker);
                        assert(unread(index_of(next)) =~= unread(index_of(prev)).insert(
                            marker.tag,
                            ElementState { marker, value: None },
                        ));
                    }
                },
                Err(e) => {
                    let err = e.clone();
                    assert(is_first_error(iter@, i as int));
                    return Err(err);
                },
            }
            i = i + 1;
        }
        proof {
            assert(iter@.take(i as int) =~= iter@);
        }
        Ok(LazyDicomObject { dict, source, entries })
    }
}

impl<'d, S: ElementSource> LazyDicomObject<'d, S> {
    /// The element with tag `tag`, with its header and its cache state.
    pub fn get(&self, tag: Tag) -> (r: Option<&LazyDataElement>)
        ensures
            match r {
                Some(e) => self.entries().contains_key(tag) && e@ == self.entries()[tag],
                None => !self.entries().contains_key(tag),
            },
    {
        self.entries.get(&tag.key())
    }

    /// The element source that the object owns.
    pub fn source(&self) -> (r: &S)
        ensures
            *r == self.spec_source(),
    {
        &self.source
    }

    /// The dictionary that names are resolved through.
    pub fn dictionary(&self) -> (r: &'d DataDictionary)
        ensures
            *r == self.spec_dict(),
    {
        self.dict
    }

    /// The number of fields.
    pub fn len(&self) -> (r: usize)
        ensures
            r == self.entries().dom().len(),
    {
        proof {
            let keys = self.entries@.dom();
            let f = |k: u32| tag_of_key(k);
            assert forall|a: u32, b: u32| keys.contains(a) && keys.contains(b) && #[trigger] f(a) == #[trigger] f(b)
                implies a == b by {
                lemma_key_round_trip(a, f(a));
                lemma_key_round_trip(b, f(b));
            }
            assert forall|t: Tag| #[trigger] self.entries().dom().contains(t) <==> keys.map(f).contains(t) by {
                lemma_key_round_trip(t.spec_key(), t);
                if keys.map(f).contains(t) {
                    let k = choose|k: u32| keys.contains(k) && f(k) == t;
                    lemma_key_round_trip(k, t);
                }
            }
            assert(keys.map(f) =~= self.entries().dom());
            lemma_map_size(keys, self.entries().dom(), f);
        }
        self.entries.len()
    }

    /// Whether the object has a field with tag `tag`.
    pub fn contains(&self, tag: Tag) -> (r: bool)
        ensures
            r == self.entries().contains_key(tag),
    {
        self.entries.contains_key(&tag.key())
    }

    /// Caches the outcome of reading the value of field `tag`, which has
    /// none cached yet, and returns it: a value is stored and handed back,
    /// an error leaves the field as it was and is handed back.
    pub fn cache_outcome(&mut self, tag: Tag, outcome: Result<DicomValue>) -> (r: Result<DicomValue>)
        requires
            old(self).entries().contains_key(tag),
            old(self).entries()[tag].value is None,
        ensures
            result_model(r) == result_model(outcome),
            final(self).spec_source() == old(self).spec_source(),
            final(self).spec_dict() == old(self).spec_dict(),
            final(self).entries().dom() == old(self).entries().dom(),
            match outcome {
                Ok(v) => final(self).entries() == old(self).entries().insert(
                    tag,
                    ElementState { marker: old(self).entries()[tag].marker, value: Some(v@) },
                ),
                Err(_) => final(self).entries() == old(self).entries(),
            },
    {
        match outcome {
            Ok(value) => {
                let key = tag.key();
                let ghost before = self.entries@;
                let removed = self.entries.remove(&key);
                match removed {
                    Some(mut e) => {
                        let copy = value.clone();
                        e.set_value(value);
                        let ghost stored = e;
                        self.entries.insert(key, e);
                        proof {
                            assert(self.entries@ == before.insert(key, stored));
                            lemma_tag_view_insert(before, tag, stored);
                            assert(self.entries().dom() =~= old(self).entries().dom());
                        }
                        Ok(copy)
                    },
                    None => Ok(value),
                }
            },
            Err(e) => Err(e),
        }
    }

    /// Retrieves the value of the field with tag `tag`, reading it through
    /// the source on the first request and from the cache afterwards.
    pub fn element(&mut self, tag: Tag) -> (r: Result<DicomValue>)
        ensures
            Self::element_step(*old(self), tag, r, *final(self)),
            old(self).entries().contains_key(tag) && old(self).entries()[tag].value is None
                ==> (match r {
                Ok(v) => final(self).entries()[tag].value == Some(v@),
                Err(_) => final(self).entries()[tag].value is None,
            }),
    {
        let request = match self.entries.get(&tag.key()) {
            None => {
                return Err(Error::NoSuchDataElement);
            },
            Some(e) => match e.value() {
                Some(v) => {
                    return Ok(v.clone());
                },
                None => e.marker().read_request(),
            },
        };
        let outcome = self.source.read_value(&request);
        self.cache_outcome(tag, outcome)
    }

    /// The tag that the dictionary gives for `name`.
    fn lookup_name(&self, name: &str) -> (r: Result<Tag>)
        ensures
            r == match self.spec_dict().tag_by_name(name@) {
                Some(t) => Ok::<Tag, Error>(t),
                None => Err::<Tag, Error>(Error::NoSuchAttributeName),
            },
    {
        match self.dict.get_by_name(name) {
            Some(e) => Ok(e.tag),
            None => Err(Error::NoSuchAttributeName),
        }
    }

    /// Retrieves the value of the field that the dictionary names `name`.
    pub fn element_by_name(&mut self, name: &str) -> (r: Result<DicomValue>)
        ensures
            Self::element_by_name_step(*old(self), name@, r, *final(self)),
    {
        match self.lookup_name(name) {
            Ok(tag) => self.element(tag),
            Err(e) => Err(e),
        }
    }
}

/// The tag of the pixel data field.
pub open spec fn pixel_data_tag() -> Tag {
    Tag(0x7FE0, 0x0010)
}

impl<'d, S: ElementSource> LazyDicomObject<'d, S> {
    /// Assembling the pixel payload is not available: without a pixel data
    /// field this fails with `NoSuchDataElement`, with one it fails with
    /// `UnsupportedPixelData`. The object is left as it was.
    pub fn pixel_data(&mut self) -> (r: Result<()>)
        ensures
            *final(self) == *old(self),
            r == if old(self).entries().contains_key(pixel_data_tag()) {
                Err::<(), Error>(Error::UnsupportedPixelData)
            } else {
                Err::<(), Error>(Error::NoSuchDataElement)
            },
    {
        if self.contains(Tag(0x7FE0, 0x0010)) {
            Err(Error::UnsupportedPixelData)
        } else {
            Err(Error::NoSuchDataElement)
        }
    }
}

impl<'d, S: ElementSource> DicomObject for LazyDicomObject<'d, S> {
    type Element = DicomValue;

    fn element(&mut self, tag: Tag) -> Result<DicomValue> {
        LazyDicomObject::element(self, tag)
    }

    fn element_by_name(&mut self, name: &str) -> Result<DicomValue> {
        LazyDicomObject::element_by_name(self, name)
    }

    fn pixel_data(&mut self) -> Result<()> {
        LazyDicomObject::pixel_data(self)
    }
}

} // verus!
