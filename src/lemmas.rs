//! Properties of assembly and retrieval, proved from the contracts of the
//! object's operations.
use vstd::prelude::*;
use crate::dictionary::DataDictionary;
use crate::error::{Error, Result};
use crate::header::{DicomElementMarker, Tag};
use crate::object::{
    all_headers, headers_of, index_of, is_first_error, result_model, unread, ElementSource,
    LazyDicomObject,
};
use crate::value::DicomValue;

verus! {

/// Every tag of a header sequence is a key of its index, and no other; the
/// entry of a tag is the last header that carries it.
pub proof fn lemma_index_of(hs: Seq<DicomElementMarker>)
    ensures
        forall|t: Tag|
            index_of(hs).contains_key(t) <==> exists|i: int| 0 <= i < hs.len() && #[trigger] hs[i].tag == t,
        forall|i: int|
            0 <= i < hs.len() && (forall|j: int| i < j < hs.len() ==> #[trigger] hs[j].tag != hs[i].tag)
                ==> index_of(hs)[#[trigger] hs[i].tag] == hs[i],
    decreases hs.len(),
{
    if hs.len() > 0 {
        let init = hs.drop_last();
        lemma_index_of(init);
        assert(index_of(hs) == index_of(init).insert(hs.last().tag, hs.last()));
        assert forall|t: Tag| index_of(hs).contains_key(t) implies exists|i: int|
            0 <= i < hs.len() && #[trigger] hs[i].tag == t by {
            if t != hs.last().tag {
                assert(index_of(init).contains_key(t));
                let i = choose|i: int| 0 <= i < init.len() && #[trigger] init[i].tag == t;
                assert(hs[i].tag == t);
            } else {
                assert(hs[hs.len() - 1].tag == t);
            }
        }
        assert forall|t: Tag| (exists|i: int| 0 <= i < hs.len() && #[trigger] hs[i].tag == t) implies index_of(hs).contains_key(t) by {
            let i = choose|i: int| 0 <= i < hs.len() && #[trigger] hs[i].tag == t;
            if i < hs.len() - 1 {
                assert(init[i].tag == t);
            }
        }
        assert forall|i: int|
            0 <= i < hs.len() && (forall|j: int| i < j < hs.len() ==> #[trigger] hs[j].tag != hs[i].tag)
                implies index_of(hs)[#[trigger] hs[i].tag] == hs[i] by {
            if i < hs.len() - 1 {
                assert(hs[hs.len() - 1].tag != hs[i].tag);
                assert(init[i] == hs[i]);
                assert forall|j: int| i < j < init.len() implies #[trigger] init[j].tag != init[i].tag by {
                    assert(init[j] == hs[j]);
                }
            }
        }
    }
}

/// An assembled object has exactly the distinct tags of its header stream,
/// each with the last header that carries it and no value read.
pub proof fn lemma_assembled_tags<'d, S: ElementSource>(
    items: Seq<Result<DicomElementMarker>>,
    source: S,
    dict: DataDictionary,
    obj: LazyDicomObject<'d, S>,
)
    requires
        LazyDicomObject::<'d, S>::assembly(items, source, dict, Ok(obj)),
    ensures
        forall|t: Tag|
            obj.entries().contains_key(t) <==> exists|i: int|
                0 <= i < items.len() && #[trigger] headers_of(items)[i].tag == t,
        forall|i: int|
            0 <= i < items.len() && (forall|j: int|
                i < j < items.len() ==> #[trigger] headers_of(items)[j].tag != headers_of(items)[i].tag)
                ==> obj.entries()[#[trigger] headers_of(items)[i].tag].marker == headers_of(items)[i]
                && obj.entries()[headers_of(items)[i].tag].value is None,
{
    lemma_index_of(headers_of(items));
}

/// A stream with an error gives no object: assembly fails with its first
/// error.
pub proof fn lemma_assembly_aborts<'d, S: ElementSource>(
    items: Seq<Result<DicomElementMarker>>,
    source: S,
    dict: DataDictionary,
    r: Result<LazyDicomObject<'d, S>>,
    i: int,
)
    requires
        LazyDicomObject::<'d, S>::assembly(items, source, dict, r),
        is_first_error(items, i),
    ensures
        r == Err::<LazyDicomObject<'d, S>, Error>(items[i]->Err_0),
{
    match r {
        Ok(_) => {
            assert(items[i] is Err);
        },
        Err(e) => {
            let k = choose|k: int| is_first_error(items, k) && items[k] == Err::<DicomElementMarker, Error>(e);
            if k < i {
                assert(items[k] is Ok);
            } else if i < k {
                assert(items[i] is Ok);
            }
        },
    }
}

/// Once `element(tag)` has returned a value, a second `element(tag)`
/// returns the same value, leaves the object's fields as they were and does
/// not touch the source.
pub proof fn lemma_element_idempotent<'d, S: ElementSource>(
    s0: LazyDicomObject<'d, S>,
    tag: Tag,
    r1: Result<DicomValue>,
    s1: LazyDicomObject<'d, S>,
    r2: Result<DicomValue>,
    s2: LazyDicomObject<'d, S>,
)
    requires
        LazyDicomObject::<'d, S>::element_step(s0, tag, r1, s1),
        LazyDicomObject::<'d, S>::element_step(s1, tag, r2, s2),
        r1 is Ok,
    ensures
        result_model(r2) == result_model(r1),
        s2.entries() == s1.entries(),
        s2.spec_source() == s1.spec_source(),
{
}

/// `element_by_name(name)` for a name that the dictionary resolves to `tag`
/// is `element(tag)`.
pub proof fn lemma_by_name_is_by_tag<'d, S: ElementSource>(
    pre: LazyDicomObject<'d, S>,
    name: Seq<char>,
    tag: Tag,
    r: Result<DicomValue>,
    post: LazyDicomObject<'d, S>,
)
    requires
        pre.spec_dict().tag_by_name(name) == Some(tag),
        LazyDicomObject::<'d, S>::element_by_name_step(pre, name, r, post),
    ensures
        LazyDicomObject::<'d, S>::element_step(pre, tag, r, post),
{
}

/// An absent tag fails with `NoSuchDataElement` and changes neither the
/// cached values nor the source.
pub proof fn lemma_unknown_tag<'d, S: ElementSource>(
    pre: LazyDicomObject<'d, S>,
    tag: Tag,
    r: Result<DicomValue>,
    post: LazyDicomObject<'d, S>,
)
    requires
        !pre.entries().contains_key(tag),
        LazyDicomObject::<'d, S>::element_step(pre, tag, r, post),
    ensures
        r == Err::<DicomValue, Error>(Error::NoSuchDataElement),
        post.entries() == pre.entries(),
        post.spec_source() == pre.spec_source(),
{
}

/// An unknown name fails with `NoSuchAttributeName` and changes neither the
/// cached values nor the source.
pub proof fn lemma_unknown_name<'d, S: ElementSource>(
    pre: LazyDicomObject<'d, S>,
    name: Seq<char>,
    r: Result<DicomValue>,
    post: LazyDicomObject<'d, S>,
)
    requires
        pre.spec_dict().tag_by_name(name) is None,
        LazyDicomObject::<'d, S>::element_by_name_step(pre, name, r, post),
    ensures
        r == Err::<DicomValue, Error>(Error::NoSuchAttributeName),
        post.entries() == pre.entries(),
        post.spec_source() == pre.spec_source(),
{
}

} // verus!
