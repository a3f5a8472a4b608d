//! Field headers: tags, value representations and the facts recorded for
//! each field when the stream was parsed.
use vstd::prelude::*;

verus! {

/// The declared length that marks a field whose extent is given by
/// delimiter items rather than by a byte count.
pub const UNDEFINED_LENGTH: u32 = 0xFFFF_FFFF;

/// A data element tag: a `(group, element)` pair, ordered by group first.
#[derive(Debug, Clone, Copy, PartialEq, Eq, Structural, PartialOrd, Ord, Hash)]
pub struct Tag(pub u16, pub u16);

impl Tag {
    /// The 32-bit index key of the tag: the group in the high half and the
    /// element in the low half.
    pub open spec fn spec_key(self) -> u32 {
        (self.0 as int * 65536 + self.1 as int) as u32
    }

    pub fn group(&self) -> (r: u16)
        ensures
            r == self.0,
    {
        self.0
    }

    pub fn element(&self) -> (r: u16)
        ensures
            r == self.1,
    {
        self.1
    }

    /// The index key of the tag; distinct tags have distinct keys, and the
    /// keys are ordered as the tags are.
    pub fn key(&self) -> (r: u32)
        ensures
            r == self.spec_key(),
            r as int == self.0 as int * 65536 + self.1 as int,
    {
        (self.0 as u32) * 65536 + (self.1 as u32)
    }
}

/// Distinct tags have distinct index keys.
pub proof fn lemma_key_injective(a: Tag, b: Tag)
    ensures
        a.spec_key() == b.spec_key() <==> a == b,
{
}

/// The tag whose index key is `k`.
pub open spec fn tag_of_key(k: u32) -> Tag {
    Tag((k / 65536) as u16, (k % 65536) as u16)
}

/// Index keys and tags are in one-to-one correspondence.
pub proof fn lemma_key_round_trip(k: u32, t: Tag)
    ensures
        tag_of_key(k).spec_key() == k,
        tag_of_key(t.spec_key()) == t,
{
}

/// Value representation: the type of a field's value.
#[derive(Debug, Clone, Copy, PartialEq, Eq, Structural, Hash)]
pub enum VR {
    AE,
    AS,
    AT,
    CS,
    DA,
    DS,
    DT,
    FL,
    FD,
    IS,
    LO,
    LT,
    OB,
    OD,
    OF,
    OL,
    OW,
    PN,
    SH,
    SL,
    SQ,
    SS,
    ST,
    TM,
    UC,
    UI,
    UL,
    UN,
    UR,
    US,
    UT,
}

impl VR {
    /// Whether values of this representation are character strings, which
    /// are decoded through the text codec.
    pub open spec fn spec_is_text(self) -> bool {
        match self {
            VR::AE | VR::AS | VR::CS | VR::DA | VR::DS | VR::DT | VR::IS | VR::LO | VR::LT
            | VR::PN | VR::SH | VR::ST | VR::TM | VR::UC | VR::UI | VR::UR | VR::UT => true,
            _ => false,
        }
    }

    pub fn is_text(&self) -> (r: bool)
        ensures
            r == self.spec_is_text(),
    {
        match self {
            VR::AE | VR::AS | VR::CS | VR::DA | VR::DS | VR::DT | VR::IS | VR::LO | VR::LT
            | VR::PN | VR::SH | VR::ST | VR::TM | VR::UC | VR::UI | VR::UR | VR::UT => true,
            _ => false,
        }
    }
}

/// The facts recorded for one field when its header was parsed: its tag,
/// value representation, declared length and the byte position of its value
/// in the source.
#[derive(Debug, Clone, Copy, PartialEq, Eq, Structural)]
pub struct DicomElementMarker {
    pub tag: Tag,
    pub vr: VR,
    pub len: u32,
    pub pos: u64,
}

/// How far a field's value extends from its position.
#[derive(Debug, Clone, Copy, PartialEq, Eq, Structural)]
pub enum ValueExtent {
    /// Exactly this many bytes.
    Bytes(u32),
    /// Up to the delimiter item that closes the field.
    Delimited,
}

/// What the element source must do to materialise one field: seek to
/// `pos`, read the value's extent, decode it as `vr`, through the text codec
/// when `text` holds.
#[derive(Debug, Clone, Copy, PartialEq, Eq, Structural)]
pub struct ReadRequest {
    pub tag: Tag,
    pub vr: VR,
    pub pos: u64,
    pub extent: ValueExtent,
    pub text: bool,
}

impl DicomElementMarker {
    pub fn new(tag: Tag, vr: VR, len: u32, pos: u64) -> (r: DicomElementMarker)
        ensures
            r == (DicomElementMarker { tag, vr, len, pos }),
    {
        DicomElementMarker { tag, vr, len, pos }
    }

    pub fn tag(&self) -> (r: Tag)
        ensures
            r == self.tag,
    {
        self.tag
    }

    pub fn vr(&self) -> (r: VR)
        ensures
            r == self.vr,
    {
        self.vr
    }

    pub fn len(&self) -> (r: u32)
        ensures
            r == self.len,
    {
        self.len
    }

    pub fn pos(&self) -> (r: u64)
        ensures
            r == self.pos,
    {
        self.pos
    }

    /// Whether the declared length is the undefined-length sentinel.
    pub open spec fn spec_has_undefined_length(self) -> bool {
        self.len == UNDEFINED_LENGTH
    }

    pub fn has_undefined_length(&self) -> (r: bool)
        ensures
            r == self.spec_has_undefined_length(),
    {
        self.len == UNDEFINED_LENGTH
    }

    /// The read that materialises this field.
    pub open spec fn spec_read_request(self) -> ReadRequest {
        ReadRequest {
            tag: self.tag,
            vr: self.vr,
            pos: self.pos,
            extent: if self.spec_has_undefined_length() {
                ValueExtent::Delimited
            } else {
                ValueExtent::Bytes(self.len)
            },
            text: self.vr.spec_is_text(),
        }
    }

    /// The read that materialises this field: from the recorded position,
    /// either the declared number of bytes or, for the undefined-length
    /// sentinel, up to the closing delimiter; text representations go
    /// through the text codec.
    pub fn read_request(&self) -> (r: ReadRequest)
        ensures
            r == self.spec_read_request(),
    {
        let extent = if self.has_undefined_length() {
            ValueExtent::Delimited
        } else {
            ValueExtent::Bytes(self.len)
        };
        ReadRequest { tag: self.tag, vr: self.vr, pos: self.pos, extent, text: self.vr.is_text() }
    }
}

} // verus!
