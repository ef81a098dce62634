use crate::felt::{reduce, Felt};
use vstd::prelude::*;

verus! {

/// A logical address: a segment index (negative for temporary segments) and an offset
/// in words.
#[derive(Clone, Copy, Debug, PartialEq, Eq, Structural)]
pub struct Relocatable {
    pub segment_index: isize,
    pub offset: usize,
}

/// A memory value: a field element or an address.
#[derive(Clone, Copy, Debug, PartialEq, Eq, Structural)]
pub enum MaybeRelocatable {
    RelocatableValue(Relocatable),
    Int(Felt),
}

/// The address `(segment, offset)`, for spec code that computes offsets as integers.
pub open spec fn addr(segment: int, offset: int) -> Relocatable {
    Relocatable { segment_index: segment as isize, offset: offset as usize }
}

/// The address `k` words after `p`.
pub open spec fn spec_add(p: Relocatable, k: int) -> Relocatable {
    Relocatable { segment_index: p.segment_index, offset: (p.offset + k) as usize }
}

/// The distance from `b` up to `a`, defined within one segment and upwards only.
pub open spec fn spec_sub(a: Relocatable, b: Relocatable) -> Result<usize, AddressSubError> {
    if a.segment_index != b.segment_index {
        Err(AddressSubError::DiffIndexSub)
    } else if a.offset < b.offset {
        Err(AddressSubError::CantSubOffset(a.offset, b.offset))
    } else {
        Ok((a.offset - b.offset) as usize)
    }
}

/// Moving an address on by `k` and measuring back to it gives `k`.
pub proof fn lemma_add_then_sub(p: Relocatable, k: usize)
    requires
        p.offset + k <= usize::MAX,
    ensures
        spec_sub(spec_add(p, k as int), p) == Ok::<usize, AddressSubError>(k),
{
}

/// Moving an address on by `k1` and then by `k2` is moving it on by `k1 + k2`.
pub proof fn lemma_add_twice(p: Relocatable, k1: usize, k2: usize)
    requires
        p.offset + k1 + k2 <= usize::MAX,
    ensures
        spec_add(spec_add(p, k1 as int), k2 as int) == spec_add(p, k1 + k2),
{
}

/// Whether `a` orders strictly after `b`: by segment first, then by offset.
pub open spec fn spec_gt(a: Relocatable, b: Relocatable) -> bool {
    a.segment_index > b.segment_index || (a.segment_index == b.segment_index && a.offset
        > b.offset)
}

/// Physical index of a segment: real segments keep theirs, temporary segment `-k` sits at
/// `k - 1`.
pub open spec fn spec_segment_slot(segment: int) -> int {
    if segment < 0 {
        -(segment + 1)
    } else {
        segment
    }
}

impl Relocatable {
    pub fn new(segment_index: isize, offset: usize) -> (r: Relocatable)
        ensures
            r.segment_index == segment_index,
            r.offset == offset,
    {
        Relocatable { segment_index, offset }
    }

    /// The address `n` words further on in the same segment.
    pub fn add_usize(&self, n: usize) -> (r: Relocatable)
        requires
            self.offset + n <= usize::MAX,
        ensures
            r == spec_add(*self, n as int),
    {
        Relocatable { segment_index: self.segment_index, offset: self.offset + n }
    }

    /// The distance from `other` up to `self`, both in one segment.
    pub fn sub(&self, other: &Relocatable) -> (r: Result<usize, AddressSubError>)
        ensures
            r == spec_sub(*self, *other),
    {
        if self.segment_index != other.segment_index {
            Err(AddressSubError::DiffIndexSub)
        } else if self.offset < other.offset {
            Err(AddressSubError::CantSubOffset(self.offset, other.offset))
        } else {
            Ok(self.offset - other.offset)
        }
    }

    /// Whether `self` orders strictly after `other`.
    pub fn gt(&self, other: &Relocatable) -> (r: bool)
        ensures
            r == spec_gt(*self, *other),
    {
        self.segment_index > other.segment_index || (self.segment_index == other.segment_index
            && self.offset > other.offset)
    }

    /// Physical slot of the segment, and the offset.
    pub fn to_indexes(&self) -> (r: (usize, usize))
        ensures
            r.0 == spec_segment_slot(self.segment_index as int),
            r.1 == self.offset,
    {
        if self.segment_index < 0 {
            ((-(self.segment_index + 1)) as usize, self.offset)
        } else {
            (self.segment_index as usize, self.offset)
        }
    }
}

/// Why the distance between two addresses is not defined.
#[derive(Clone, Copy, Debug, PartialEq, Eq, Structural)]
pub enum AddressSubError {
    DiffIndexSub,
    CantSubOffset(usize, usize),
}

/// Why two memory values cannot be added.
#[derive(Clone, Copy, Debug, PartialEq, Eq, Structural)]
pub enum ValueAddError {
    /// The offset would pass the largest word count.
    OffsetExceeded(Relocatable, Felt),
    /// Only an address plus a field element, or two field elements, can be added.
    NotAnOffset,
}

impl MaybeRelocatable {
    /// A field element is held as its canonical representative.
    pub open spec fn wf(&self) -> bool {
        match *self {
            MaybeRelocatable::Int(f) => f.wf(),
            MaybeRelocatable::RelocatableValue(_) => true,
        }
    }

    /// Field addition of two elements, or an address moved on by an element read as a word
    /// count.
    pub fn add(&self, other: &MaybeRelocatable) -> (r: Result<MaybeRelocatable, ValueAddError>)
        requires
            self.wf(),
            other.wf(),
        ensures
            match (*self, *other) {
                (MaybeRelocatable::Int(x), MaybeRelocatable::Int(y)) => r matches Ok(
                    MaybeRelocatable::Int(z),
                ) && z.wf() && z.value() == reduce(x.value() + y.value()),
                (MaybeRelocatable::RelocatableValue(p), MaybeRelocatable::Int(k)) => if p.offset
                    + k.value() <= usize::MAX {
                    r == Ok::<MaybeRelocatable, ValueAddError>(
                        MaybeRelocatable::RelocatableValue(spec_add(p, k.value())),
                    )
                } else {
                    r == Err::<MaybeRelocatable, ValueAddError>(
                        ValueAddError::OffsetExceeded(p, k),
                    )
                },
                _ => r == Err::<MaybeRelocatable, ValueAddError>(ValueAddError::NotAnOffset),
            },
    {
        match (self, other) {
            (MaybeRelocatable::Int(x), MaybeRelocatable::Int(y)) => Ok(MaybeRelocatable::Int(x.add(y))),
            (MaybeRelocatable::RelocatableValue(p), MaybeRelocatable::Int(k)) => {
                match k.to_usize() {
                    Some(n) => {
                        if p.offset > usize::MAX - n {
                            Err(ValueAddError::OffsetExceeded(*p, *k))
                        } else {
                            Ok(MaybeRelocatable::RelocatableValue(p.add_usize(n)))
                        }
                    },
                    None => Err(ValueAddError::OffsetExceeded(*p, *k)),
                }
            },
            _ => Err(ValueAddError::NotAnOffset),
        }
    }

    pub fn from_pair(segment_index: isize, offset: usize) -> (r: MaybeRelocatable)
        ensures
            r == MaybeRelocatable::RelocatableValue(Relocatable { segment_index, offset }),
    {
        MaybeRelocatable::RelocatableValue(Relocatable { segment_index, offset })
    }

    pub fn from_felt(f: Felt) -> (r: MaybeRelocatable)
        ensures
            r == MaybeRelocatable::Int(f),
    {
        MaybeRelocatable::Int(f)
    }
}

} // verus!
