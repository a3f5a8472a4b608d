//! The attribute dictionary: resolution of attribute names to tags.
use vstd::prelude::*;
use crate::header::{Tag, VR};

verus! {

/// One attribute of the dictionary.
#[derive(Debug, Clone)]
pub struct DictionaryEntry {
    pub tag: Tag,
    pub alias: String,
    pub vr: VR,
}

/// The tag of the first entry whose alias is `name`, if any.
pub open spec fn first_tag_named(entries: Seq<DictionaryEntry>, name: Seq<char>) -> Option<Tag>
    decreases entries.len(),
{
    if entries.len() == 0 {
        None
    } else if entries[0].alias@ == name {
        Some(entries[0].tag)
    } else {
        first_tag_named(entries.drop_first(), name)
    }
}

/// An immutable table of attributes, shared by reference by the objects
/// that resolve names through it.
pub struct DataDictionary {
    entries: Vec<DictionaryEntry>,
}

impl DataDictionary {
    /// The attributes in lookup order.
    pub closed spec fn spec_entries(&self) -> Seq<DictionaryEntry> {
        self.entries@
    }

    /// The tag that `name` resolves to: that of the first attribute with
    /// that alias.
    pub open spec fn tag_by_name(&self, name: Seq<char>) -> Option<Tag> {
        first_tag_named(self.spec_entries(), name)
    }

    pub fn new(entries: Vec<DictionaryEntry>) -> (r: DataDictionary)
        ensures
            r.spec_entries() == entries@,
    {
        DataDictionary { entries }
    }

    pub fn len(&self) -> (r: usize)
        ensures
            r == self.spec_entries().len(),
    {
        self.entries.len()
    }

    /// The first attribute whose alias is `name`.
    pub fn get_by_name(&self, name: &str) -> (r: Option<&DictionaryEntry>)
        ensures
            match r {
                Some(e) => self.tag_by_name(name@) == Some(e.tag) && e.alias@ == name@,
                None => self.tag_by_name(name@).is_none(),
            },
    {
        let wanted = name.to_owned();
        let mut i: usize = 0;
        assert(self.entries@.skip(0) =~= self.entries@);
        while i < self.entries.len()
            invariant
                0 <= i <= self.entries@.len(),
                wanted@ == name@,
                first_tag_named(self.entries@.skip(i as int), name@) == self.tag_by_name(name@),
            decreases self.entries@.len() - i,
        {
            let e = &self.entries[i];
            assert(self.entries@.skip(i as int)[0] == *e);
            assert(self.entries@.skip(i as int).drop_first() =~= self.entries@.skip(i + 1));
            if e.alias == wanted {
                return Some(e);
            }
            i = i + 1;
        }
        None
    }

    /// The first attribute with tag `tag`.
    pub fn get_by_tag(&self, tag: Tag) -> (r: Option<&DictionaryEntry>)
        ensures
            match r {
                Some(e) => exists|i: int|
                    0 <= i < self.spec_entries().len() && self.spec_entries()[i] == *e
                        && e.tag == tag && forall|j: int|
                        0 <= j < i ==> self.spec_entries()[j].tag != tag,
                None => forall|i: int|
                    0 <= i < self.spec_entries().len() ==> self.spec_entries()[i].tag != tag,
            },
    {
        let mut i: usize = 0;
        while i < self.entries.len()
            invariant
                0 <= i <= self.entries@.len(),
                forall|j: int| 0 <= j < i ==> self.entries@[j].tag != tag,
            decreases self.entries@.len() - i,
        {
            if self.entries[i].tag == tag {
                return Some(&self.entries[i]);
            }
            i = i + 1;
        }
        None
    }
}

} // verus!
