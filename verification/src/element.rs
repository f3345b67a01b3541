//! The registry of scalar element types: which numeric types a matrix can
//! hold, the runtime tag of each, and how a dynamically typed element store
//! is viewed as a sequence of one of them.

use vstd::prelude::*;
use vstd::slice::slice_to_vec;

verus! {

/// Runtime tag of 8-bit unsigned elements.
pub const CV_8U: i32 = 0;

/// Runtime tag of 8-bit signed elements.
pub const CV_8S: i32 = 1;

/// Runtime tag of 16-bit unsigned elements.
pub const CV_16U: i32 = 2;

/// Runtime tag of 16-bit signed elements.
pub const CV_16S: i32 = 3;

/// Runtime tag of 32-bit signed elements.
pub const CV_32S: i32 = 4;

/// Runtime tag of 32-bit floating-point elements.
pub const CV_32F: i32 = 5;

/// Runtime tag of 64-bit floating-point elements.
pub const CV_64F: i32 = 6;

/// The numeric type of one matrix element.
#[derive(Debug, Clone, Copy, PartialEq, Eq, Structural)]
pub enum Depth {
    U8,
    S8,
    U16,
    S16,
    S32,
    F32,
    F64,
}

impl Depth {
    /// The integer tag a matrix reports for this depth.
    pub open spec fn spec_tag(self) -> i32 {
        match self {
            Depth::U8 => CV_8U,
            Depth::S8 => CV_8S,
            Depth::U16 => CV_16U,
            Depth::S16 => CV_16S,
            Depth::S32 => CV_32S,
            Depth::F32 => CV_32F,
            Depth::F64 => CV_64F,
        }
    }

    /// The depth that carries `tag`, if there is one.
    pub open spec fn spec_from_tag(tag: i32) -> Option<Depth> {
        if tag == CV_8U {
            Some(Depth::U8)
        } else if tag == CV_8S {
            Some(Depth::S8)
        } else if tag == CV_16U {
            Some(Depth::U16)
        } else if tag == CV_16S {
            Some(Depth::S16)
        } else if tag == CV_32S {
            Some(Depth::S32)
        } else if tag == CV_32F {
            Some(Depth::F32)
        } else if tag == CV_64F {
            Some(Depth::F64)
        } else {
            None
        }
    }

    /// The number of bytes one element of this depth occupies.
    pub open spec fn spec_byte_width(self) -> usize {
        match self {
            Depth::U8 | Depth::S8 => 1,
            Depth::U16 | Depth::S16 => 2,
            Depth::S32 | Depth::F32 => 4,
            Depth::F64 => 8,
        }
    }

    #[verifier::when_used_as_spec(spec_tag)]
    pub fn tag(self) -> (tag: i32)
        ensures
            tag == self.spec_tag(),
    {
        match self {
            Depth::U8 => CV_8U,
            Depth::S8 => CV_8S,
            Depth::U16 => CV_16U,
            Depth::S16 => CV_16S,
            Depth::S32 => CV_32S,
            Depth::F32 => CV_32F,
            Depth::F64 => CV_64F,
        }
    }

    pub fn from_tag(tag: i32) -> (depth: Option<Depth>)
        ensures
            depth == Self::spec_from_tag(tag),
    {
        if tag == CV_8U {
            Some(Depth::U8)
        } else if tag == CV_8S {
            Some(Depth::S8)
        } else if tag == CV_16U {
            Some(Depth::U16)
        } else if tag == CV_16S {
            Some(Depth::S16)
        } else if tag == CV_32S {
            Some(Depth::S32)
        } else if tag == CV_32F {
            Some(Depth::F32)
        } else if tag == CV_64F {
            Some(Depth::F64)
        } else {
            None
        }
    }

    #[verifier::when_used_as_spec(spec_byte_width)]
    pub fn byte_width(self) -> (width: usize)
        ensures
            width == self.spec_byte_width(),
    {
        match self {
            Depth::U8 | Depth::S8 => 1,
            Depth::U16 | Depth::S16 => 2,
            Depth::S32 | Depth::F32 => 4,
            Depth::F64 => 8,
        }
    }

    /// Tags and depths correspond one to one: a depth is found again from
    /// its tag, and a tag that names a depth is that depth's tag.
    pub proof fn lemma_tag_round_trip(depth: Depth, tag: i32)
        ensures
            Self::spec_from_tag(depth.spec_tag()) == Some(depth),
            Self::spec_from_tag(tag) matches Some(d) ==> d.spec_tag() == tag,
            Self::spec_from_tag(tag) is Some <==> CV_8U <= tag <= CV_64F,
    {
    }
}

/// A 32-bit floating-point element, held as its IEEE 754 bit pattern.
///
/// Conversion moves elements and never computes with them, so the bit
/// pattern is all that is kept; two elements are equal when their bits are.
#[derive(Debug, Clone, Copy, PartialEq, Eq, Structural)]
pub struct Float32 {
    pub bits: u32,
}

/// A 64-bit floating-point element, held as its IEEE 754 bit pattern.
#[derive(Debug, Clone, Copy, PartialEq, Eq, Structural)]
pub struct Float64 {
    pub bits: u64,
}

impl Float32 {
    pub fn from_bits(bits: u32) -> (x: Self)
        ensures
            x.bits == bits,
    {
        Float32 { bits }
    }

    pub fn to_bits(self) -> (bits: u32)
        ensures
            bits == self.bits,
    {
        self.bits
    }
}

impl Float64 {
    pub fn from_bits(bits: u64) -> (x: Self)
        ensures
            x.bits == bits,
    {
        Float64 { bits }
    }

    pub fn to_bits(self) -> (bits: u64)
        ensures
            bits == self.bits,
    {
        self.bits
    }
}

/// What an element store holds: a sequence of elements of one depth.
pub enum ElementsView {
    U8(Seq<u8>),
    S8(Seq<i8>),
    U16(Seq<u16>),
    S16(Seq<i16>),
    S32(Seq<i32>),
    F32(Seq<Float32>),
    F64(Seq<Float64>),
}

impl ElementsView {
    pub open spec fn depth(self) -> Depth {
        match self {
            ElementsView::U8(_) => Depth::U8,
            ElementsView::S8(_) => Depth::S8,
            ElementsView::U16(_) => Depth::U16,
            ElementsView::S16(_) => Depth::S16,
            ElementsView::S32(_) => Depth::S32,
            ElementsView::F32(_) => Depth::F32,
            ElementsView::F64(_) => Depth::F64,
        }
    }

    pub open spec fn len(self) -> nat {
        match self {
            ElementsView::U8(s) => s.len(),
            ElementsView::S8(s) => s.len(),
            ElementsView::U16(s) => s.len(),
            ElementsView::S16(s) => s.len(),
            ElementsView::S32(s) => s.len(),
            ElementsView::F32(s) => s.len(),
            ElementsView::F64(s) => s.len(),
        }
    }
}

/// The element store of a matrix: a flat run of elements of one depth,
/// known only at run time.
#[derive(Debug, PartialEq, Eq)]
pub enum Elements {
    U8(Vec<u8>),
    S8(Vec<i8>),
    U16(Vec<u16>),
    S16(Vec<i16>),
    S32(Vec<i32>),
    F32(Vec<Float32>),
    F64(Vec<Float64>),
}

impl View for Elements {
    type V = ElementsView;

    open spec fn view(&self) -> ElementsView {
        match self {
            Elements::U8(v) => ElementsView::U8(v@),
            Elements::S8(v) => ElementsView::S8(v@),
            Elements::U16(v) => ElementsView::U16(v@),
            Elements::S16(v) => ElementsView::S16(v@),
            Elements::S32(v) => ElementsView::S32(v@),
            Elements::F32(v) => ElementsView::F32(v@),
            Elements::F64(v) => ElementsView::F64(v@),
        }
    }
}

impl Clone for Elements {
    fn clone(&self) -> (copy: Self)
        ensures
            copy@ == self@,
    {
        match self {
            Elements::U8(v) => Elements::U8(slice_to_vec(v.as_slice())),
            Elements::S8(v) => Elements::S8(slice_to_vec(v.as_slice())),
            Elements::U16(v) => Elements::U16(slice_to_vec(v.as_slice())),
            Elements::S16(v) => Elements::S16(slice_to_vec(v.as_slice())),
            Elements::S32(v) => Elements::S32(slice_to_vec(v.as_slice())),
            Elements::F32(v) => Elements::F32(slice_to_vec(v.as_slice())),
            Elements::F64(v) => Elements::F64(slice_to_vec(v.as_slice())),
        }
    }
}

impl Elements {
    pub fn depth(&self) -> (depth: Depth)
        ensures
            depth == self@.depth(),
    {
        match self {
            Elements::U8(_) => Depth::U8,
            Elements::S8(_) => Depth::S8,
            Elements::U16(_) => Depth::U16,
            Elements::S16(_) => Depth::S16,
            Elements::S32(_) => Depth::S32,
            Elements::F32(_) => Depth::F32,
            Elements::F64(_) => Depth::F64,
        }
    }

    pub fn len(&self) -> (len: usize)
        ensures
            len == self@.len(),
    {
        match self {
            Elements::U8(v) => v.len(),
            Elements::S8(v) => v.len(),
            Elements::U16(v) => v.len(),
            Elements::S16(v) => v.len(),
            Elements::S32(v) => v.len(),
            Elements::F32(v) => v.len(),
            Elements::F64(v) => v.len(),
        }
    }
}

/// Whether `depth` is the depth of the element type `T`.
pub fn is_depth_of<T: OpenCvElement>(depth: Depth) -> (same: bool)
    ensures
        same == (depth == T::spec_depth()),
{
    depth == T::depth()
}

/// A scalar type that a matrix can hold.
///
/// Each such type has exactly one depth, and an element store of that depth,
/// and of no other, can be read as a sequence of the type.
pub trait OpenCvElement: Copy {
    /// The depth a matrix of this element type reports.
    spec fn spec_depth() -> Depth;

    /// The contents of an element store as elements of this type: `Some`
    /// exactly when the store is of this type's depth.
    spec fn spec_typed(elems: ElementsView) -> Option<Seq<Self>>;

    /// A store is typed exactly by its own depth, and typing keeps its length.
    proof fn lemma_typed(elems: ElementsView)
        ensures
            Self::spec_typed(elems) is Some <==> elems.depth() == Self::spec_depth(),
            Self::spec_typed(elems) matches Some(s) ==> s.len() == elems.len(),
    ;

    fn depth() -> (depth: Depth)
        ensures
            depth == Self::spec_depth(),
    ;

    /// The typed view of an element store, when the store is of this type.
    fn typed(elems: &Elements) -> (data: Option<&Vec<Self>>)
        ensures
            match data {
                Some(v) => Self::spec_typed(elems@) == Some(v@),
                None => Self::spec_typed(elems@) is None,
            },
    ;

    /// Wraps a run of elements of this type as a dynamically typed store.
    fn into_elements(data: Vec<Self>) -> (elems: Elements)
        ensures
            Self::spec_typed(elems@) == Some(data@),
    ;
}

impl OpenCvElement for u8 {
    open spec fn spec_depth() -> Depth {
        Depth::U8
    }

    open spec fn spec_typed(elems: ElementsView) -> Option<Seq<u8>> {
        match elems {
            ElementsView::U8(s) => Some(s),
            _ => None,
        }
    }

    proof fn lemma_typed(elems: ElementsView) {
    }

    fn depth() -> (depth: Depth) {
        Depth::U8
    }

    fn typed(elems: &Elements) -> (data: Option<&Vec<u8>>) {
        match elems {
            Elements::U8(v) => Some(v),
            _ => None,
        }
    }

    fn into_elements(data: Vec<u8>) -> (elems: Elements) {
        Elements::U8(data)
    }
}

impl OpenCvElement for i8 {
    open spec fn spec_depth() -> Depth {
        Depth::S8
    }

    open spec fn spec_typed(elems: ElementsView) -> Option<Seq<i8>> {
        match elems {
            ElementsView::S8(s) => Some(s),
            _ => None,
        }
    }

    proof fn lemma_typed(elems: ElementsView) {
    }

    fn depth() -> (depth: Depth) {
        Depth::S8
    }

    fn typed(elems: &Elements) -> (data: Option<&Vec<i8>>) {
        match elems {
            Elements::S8(v) => Some(v),
            _ => None,
        }
    }

    fn into_elements(data: Vec<i8>) -> (elems: Elements) {
        Elements::S8(data)
    }
}

impl OpenCvElement for u16 {
    open spec fn spec_depth() -> Depth {
        Depth::U16
    }

    open spec fn spec_typed(elems: ElementsView) -> Option<Seq<u16>> {
        match elems {
            ElementsView::U16(s) => Some(s),
            _ => None,
        }
    }

    proof fn lemma_typed(elems: ElementsView) {
    }

    fn depth() -> (depth: Depth) {
        Depth::U16
    }

    fn typed(elems: &Elements) -> (data: Option<&Vec<u16>>) {
        match elems {
            Elements::U16(v) => Some(v),
            _ => None,
        }
    }

    fn into_elements(data: Vec<u16>) -> (elems: Elements) {
        Elements::U16(data)
    }
}

impl OpenCvElement for i16 {
    open spec fn spec_depth() -> Depth {
        Depth::S16
    }

    open spec fn spec_typed(elems: ElementsView) -> Option<Seq<i16>> {
        match elems {
            ElementsView::S16(s) => Some(s),
            _ => None,
        }
    }

    proof fn lemma_typed(elems: ElementsView) {
    }

    fn depth() -> (depth: Depth) {
        Depth::S16
    }

    fn typed(elems: &Elements) -> (data: Option<&Vec<i16>>) {
        match elems {
            Elements::S16(v) => Some(v),
            _ => None,
        }
    }

    fn into_elements(data: Vec<i16>) -> (elems: Elements) {
        Elements::S16(data)
    }
}

impl OpenCvElement for i32 {
    open spec fn spec_depth() -> Depth {
        Depth::S32
    }

    open spec fn spec_typed(elems: ElementsView) -> Option<Seq<i32>> {
        match elems {
            ElementsView::S32(s) => Some(s),
            _ => None,
        }
    }

    proof fn lemma_typed(elems: ElementsView) {
    }

    fn depth() -> (depth: Depth) {
        Depth::S32
    }

    fn typed(elems: &Elements) -> (data: Option<&Vec<i32>>) {
        match elems {
            Elements::S32(v) => Some(v),
            _ => None,
        }
    }

    fn into_elements(data: Vec<i32>) -> (elems: Elements) {
        Elements::S32(data)
    }
}

impl OpenCvElement for Float32 {
    open spec fn spec_depth() -> Depth {
        Depth::F32
    }

    open spec fn spec_typed(elems: ElementsView) -> Option<Seq<Float32>> {
        match elems {
            ElementsView::F32(s) => Some(s),
            _ => None,
        }
    }

    proof fn lemma_typed(elems: ElementsView) {
    }

    fn depth() -> (depth: Depth) {
        Depth::F32
    }

    fn typed(elems: &Elements) -> (data: Option<&Vec<Float32>>) {
        match elems {
            Elements::F32(v) => Some(v),
            _ => None,
        }
    }

    fn into_elements(data: Vec<Float32>) -> (elems: Elements) {
        Elements::F32(data)
    }
}

impl OpenCvElement for Float64 {
    open spec fn spec_depth() -> Depth {
        Depth::F64
    }

    open spec fn spec_typed(elems: ElementsView) -> Option<Seq<Float64>> {
        match elems {
            ElementsView::F64(s) => Some(s),
            _ => None,
        }
    }

    proof fn lemma_typed(elems: ElementsView) {
    }

    fn depth() -> (depth: Depth) {
        Depth::F64
    }

    fn typed(elems: &Elements) -> (data: Option<&Vec<Float64>>) {
        match elems {
            Elements::F64(v) => Some(v),
            _ => None,
        }
    }

    fn into_elements(data: Vec<Float64>) -> (elems: Elements) {
        Elements::F64(data)
    }
}

} // verus!
