use crate::errors::MemoryError;
use crate::relocatable::{addr, spec_segment_slot, MaybeRelocatable, Relocatable};
use vstd::prelude::*;

verus! {

/// Cells of a list of segments, as sequences.
pub open spec fn nested(v: Vec<Vec<Option<MaybeRelocatable>>>) -> Seq<Seq<Option<MaybeRelocatable>>> {
    v@.map_values(|s: Vec<Option<MaybeRelocatable>>| s@)
}

/// `s` with `v` written at `offset`, grown with holes first when it is too short.
pub open spec fn padded_write(s: Seq<Option<MaybeRelocatable>>, offset: int, v: MaybeRelocatable) -> Seq<
    Option<MaybeRelocatable>,
> {
    let p = if offset < s.len() {
        s
    } else {
        s + Seq::new((offset + 1 - s.len()) as nat, |_i: int| None::<MaybeRelocatable>)
    };
    p.update(offset, Some(v))
}

/// A segment is empty or its last cell holds a value.
pub open spec fn ends_populated(s: Seq<Option<MaybeRelocatable>>) -> bool {
    s.len() == 0 || s.last() is Some
}

/// Every segment of the list is empty or ends in a cell that holds a value.
pub open spec fn space_wf(sp: Seq<Seq<Option<MaybeRelocatable>>>) -> bool {
    forall|i: int| 0 <= i < sp.len() ==> ends_populated(#[trigger] sp[i])
}

/// One past the highest offset that holds a value, or zero when none does.
pub open spec fn high_water(s: Seq<Option<MaybeRelocatable>>) -> int
    decreases s.len(),
{
    if s.len() == 0 {
        0
    } else if s.last() is Some {
        s.len() as int
    } else {
        high_water(s.drop_last())
    }
}

/// The high-water mark is within the segment, the cell below it holds a value, and no
/// cell from it on does.
pub proof fn lemma_high_water(s: Seq<Option<MaybeRelocatable>>)
    ensures
        0 <= high_water(s) <= s.len(),
        high_water(s) > 0 ==> s[high_water(s) - 1] is Some,
        forall|j: int| high_water(s) <= j < s.len() ==> s[j] is None,
    decreases s.len(),
{
    if s.len() > 0 && s.last() is None {
        lemma_high_water(s.drop_last());
        assert forall|j: int| high_water(s) <= j < s.len() implies s[j] is None by {
            if j < s.len() - 1 {
                assert(s.drop_last()[j] == s[j]);
            }
        }
    }
}

/// A segment that ends in a value has its length as high-water mark.
pub proof fn lemma_high_water_of_wf(s: Seq<Option<MaybeRelocatable>>)
    requires
        ends_populated(s),
    ensures
        high_water(s) == s.len(),
{
}

/// A write-once insert into one list of segments; `at` is the address reported on conflict.
pub open spec fn space_insert(
    sp: Seq<Seq<Option<MaybeRelocatable>>>,
    slot: int,
    offset: int,
    v: MaybeRelocatable,
    at: MaybeRelocatable,
) -> Result<Seq<Seq<Option<MaybeRelocatable>>>, MemoryError> {
    if slot >= sp.len() {
        Err(MemoryError::UnallocatedSegment(slot as usize, sp.len() as usize))
    } else if offset < sp[slot].len() && sp[slot][offset] is Some {
        if sp[slot][offset]->Some_0 == v {
            Ok(sp)
        } else {
            Err(MemoryError::InconsistentMemory(at, sp[slot][offset]->Some_0, v))
        }
    } else {
        Ok(sp.update(slot, padded_write(sp[slot], offset, v)))
    }
}

/// The contents of memory: real segments, then temporary ones.
pub struct MemoryView {
    pub data: Seq<Seq<Option<MaybeRelocatable>>>,
    pub temp_data: Seq<Seq<Option<MaybeRelocatable>>>,
}

impl MemoryView {
    /// Every segment, real or temporary, is empty or ends in a cell that holds a value.
    pub open spec fn wf(self) -> bool {
        space_wf(self.data) && space_wf(self.temp_data)
    }

    /// The list of segments that a segment index points into.
    pub open spec fn space(self, segment: int) -> Seq<Seq<Option<MaybeRelocatable>>> {
        if segment < 0 {
            self.temp_data
        } else {
            self.data
        }
    }

    pub open spec fn with_space(self, segment: int, sp: Seq<Seq<Option<MaybeRelocatable>>>) -> MemoryView {
        if segment < 0 {
            MemoryView { data: self.data, temp_data: sp }
        } else {
            MemoryView { data: sp, temp_data: self.temp_data }
        }
    }

    pub open spec fn has_segment(self, segment: int) -> bool {
        spec_segment_slot(segment) < self.space(segment).len()
    }

    pub open spec fn segment(self, segment: int) -> Seq<Option<MaybeRelocatable>> {
        self.space(segment)[spec_segment_slot(segment)]
    }

    /// What the cell at `(segment, offset)` holds; `None` for a hole or a missing segment.
    pub open spec fn cell(self, segment: int, offset: int) -> Option<MaybeRelocatable> {
        if self.has_segment(segment) && 0 <= offset < self.segment(segment).len() {
            self.segment(segment)[offset]
        } else {
            None
        }
    }

    /// Writes `v` at `(segment, offset)` under the write-once rule.
    pub open spec fn insert(self, segment: int, offset: int, v: MaybeRelocatable) -> Result<
        MemoryView,
        MemoryError,
    > {
        match space_insert(
            self.space(segment),
            spec_segment_slot(segment),
            offset,
            v,
            MaybeRelocatable::RelocatableValue(addr(segment, offset)),
        ) {
            Ok(sp) => Ok(self.with_space(segment, sp)),
            Err(e) => Err(e),
        }
    }

    /// Writes `xs` one after the other from `(segment, offset)` on; stops at the first failed
    /// write and gives the memory as it stands then, with the failure.
    pub open spec fn load(self, segment: int, offset: int, xs: Seq<MaybeRelocatable>) -> (
        MemoryView,
        Option<MemoryError>,
    )
        decreases xs.len(),
    {
        if xs.len() == 0 {
            (self, None)
        } else {
            match self.insert(segment, offset, xs[0]) {
                Ok(m) => m.load(segment, offset + 1, xs.drop_first()),
                Err(e) => (self, Some(e)),
            }
        }
    }

    /// Every cell of the `n` cells from `(segment, offset)` on holds a value.
    pub open spec fn populated(self, segment: int, offset: int, n: int) -> bool {
        forall|i: int| 0 <= i < n ==> (#[trigger] self.cell(segment, offset + i)) is Some
    }

    /// The values of the `n` cells from `(segment, offset)` on.
    pub open spec fn values(self, segment: int, offset: int, n: int) -> Seq<MaybeRelocatable> {
        Seq::new(n as nat, |i: int| self.cell(segment, offset + i)->Some_0)
    }
}

/// Writing the value that a cell already holds succeeds and changes nothing; writing another
/// value there fails with `InconsistentMemory`, naming the address, the held value and the
/// new one.
pub proof fn lemma_write_once(
    m: MemoryView,
    segment: int,
    offset: int,
    v: MaybeRelocatable,
    w: MaybeRelocatable,
)
    requires
        0 <= offset,
        m.insert(segment, offset, v) is Ok,
    ensures
        ({
            let m1 = m.insert(segment, offset, v)->Ok_0;
            &&& m1.cell(segment, offset) == Some(v)
            &&& m1.insert(segment, offset, v) == Ok::<MemoryView, MemoryError>(m1)
            &&& w != v ==> m1.insert(segment, offset, w) == Err::<MemoryView, MemoryError>(
                MemoryError::InconsistentMemory(
                    MaybeRelocatable::RelocatableValue(addr(segment, offset)),
                    v,
                    w,
                ),
            )
        }),
{
    let m1 = m.insert(segment, offset, v)->Ok_0;
    let slot = spec_segment_slot(segment);
    assert(m1.space(segment)[slot][offset] == Some(v));
    assert(m1.with_space(segment, m1.space(segment)) == m1);
}

/// A successful write keeps every segment ending in a value.
pub proof fn lemma_insert_keeps_wf(m: MemoryView, segment: int, offset: int, v: MaybeRelocatable)
    requires
        m.wf(),
        0 <= offset,
        m.insert(segment, offset, v) is Ok,
    ensures
        m.insert(segment, offset, v)->Ok_0.wf(),
{
    let sp = m.space(segment);
    let slot = spec_segment_slot(segment);
    let s = sp[slot];
    let w = padded_write(s, offset, v);
    assert(ends_populated(w)) by {
        assert(ends_populated(s));
        if offset < s.len() {
            assert(w.len() == s.len());
            if offset == s.len() - 1 {
                assert(w.last() == Some(v));
            } else {
                assert(w.last() == s.last());
            }
        } else {
            assert(w.last() == Some(v));
        }
    }
    assert(space_wf(sp.update(slot, w))) by {
        assert forall|i: int| 0 <= i < sp.update(slot, w).len() implies ends_populated(
            #[trigger] sp.update(slot, w)[i],
        ) by {
            if i != slot {
                assert(ends_populated(sp[i]));
            }
        }
    }
}

/// A load keeps every segment ending in a value, also when it stops at a failed write.
pub proof fn lemma_load_keeps_wf(m: MemoryView, segment: int, offset: int, xs: Seq<MaybeRelocatable>)
    requires
        m.wf(),
        0 <= offset,
    ensures
        m.load(segment, offset, xs).0.wf(),
    decreases xs.len(),
{
    if xs.len() > 0 {
        if m.insert(segment, offset, xs[0]) is Ok {
            lemma_insert_keeps_wf(m, segment, offset, xs[0]);
            lemma_load_keeps_wf(
                m.insert(segment, offset, xs[0])->Ok_0,
                segment,
                offset + 1,
                xs.drop_first(),
            );
        }
    }
}

/// A successful write keeps every cell that already held a value.
pub proof fn lemma_insert_keeps(
    m: MemoryView,
    segment: int,
    offset: int,
    v: MaybeRelocatable,
    s2: int,
    o2: int,
)
    requires
        0 <= offset,
        m.insert(segment, offset, v) is Ok,
        m.cell(s2, o2) is Some,
    ensures
        m.insert(segment, offset, v)->Ok_0.cell(s2, o2) == m.cell(s2, o2),
{
}

/// A load that succeeds keeps every cell that already held a value.
pub proof fn lemma_load_keeps(
    m: MemoryView,
    segment: int,
    offset: int,
    xs: Seq<MaybeRelocatable>,
    s2: int,
    o2: int,
)
    requires
        0 <= offset,
        m.load(segment, offset, xs).1 is None,
        m.cell(s2, o2) is Some,
    ensures
        m.load(segment, offset, xs).0.cell(s2, o2) == m.cell(s2, o2),
    decreases xs.len(),
{
    if xs.len() > 0 {
        lemma_insert_keeps(m, segment, offset, xs[0], s2, o2);
        let m1 = m.insert(segment, offset, xs[0])->Ok_0;
        lemma_load_keeps(m1, segment, offset + 1, xs.drop_first(), s2, o2);
    }
}

/// After a load that succeeds, reading back as many cells from the same address gives the
/// loaded values.
pub proof fn lemma_load_then_read(m: MemoryView, segment: int, offset: int, xs: Seq<MaybeRelocatable>)
    requires
        0 <= offset,
        m.load(segment, offset, xs).1 is None,
    ensures
        m.load(segment, offset, xs).0.populated(segment, offset, xs.len() as int),
        m.load(segment, offset, xs).0.values(segment, offset, xs.len() as int) == xs,
    decreases xs.len(),
{
    if xs.len() > 0 {
        let m1 = m.insert(segment, offset, xs[0])->Ok_0;
        let rest = xs.drop_first();
        let m2 = m.load(segment, offset, xs).0;
        lemma_write_once(m, segment, offset, xs[0], xs[0]);
        lemma_load_then_read(m1, segment, offset + 1, rest);
        lemma_load_keeps(m1, segment, offset + 1, rest, segment, offset);
        assert forall|i: int| 0 <= i < xs.len() implies (#[trigger] m2.cell(segment, offset + i))
            == Some(xs[i]) by {
            if i > 0 {
                assert(m2.cell(segment, (offset + 1) + (i - 1)) is Some);
                assert(rest[i - 1] == xs[i]);
            }
        }
        assert(m2.values(segment, offset, xs.len() as int) =~= xs);
    }
}

/// The memory store: real and temporary segments of write-once cells.
pub struct Memory {
    pub data: Vec<Vec<Option<MaybeRelocatable>>>,
    pub temp_data: Vec<Vec<Option<MaybeRelocatable>>>,
}

impl View for Memory {
    type V = MemoryView;

    open spec fn view(&self) -> MemoryView {
        MemoryView { data: nested(self.data), temp_data: nested(self.temp_data) }
    }
}

/// Write-once insert into one list of segments.
fn insert_in_space(
    space: &mut Vec<Vec<Option<MaybeRelocatable>>>,
    slot: usize,
    offset: usize,
    v: MaybeRelocatable,
    at: MaybeRelocatable,
) -> (r: Result<(), MemoryError>)
    ensures
        match space_insert(nested(*old(space)), slot as int, offset as int, v, at) {
            Ok(sp) => r is Ok && nested(*final(space)) == sp,
            Err(e) => r == Err::<(), MemoryError>(e) && nested(*final(space)) == nested(*old(space)),
        },
{
    let ghost sp0 = nested(*space);
    if slot >= space.len() {
        return Err(MemoryError::UnallocatedSegment(slot, space.len()));
    }
    if offset < space[slot].len() {
        match space[slot][offset] {
            Some(w) => {
                if w == v {
                    return Ok(());
                } else {
                    return Err(MemoryError::InconsistentMemory(at, w, v));
                }
            },
            None => {},
        }
    }
    let mut seg: Vec<Option<MaybeRelocatable>> = Vec::new();
    std::mem::swap(&mut seg, &mut space[slot]);
    let ghost s0 = seg@;
    assert(s0 == sp0[slot as int]);
    while seg.len() <= offset
        invariant
            s0.len() <= seg@.len() <= offset + 1 || (s0.len() > offset && seg@ == s0),
            seg@.len() <= s0.len() ==> seg@ == s0,
            s0.len() <= seg@.len() ==> seg@ == s0 + Seq::new(
                (seg@.len() - s0.len()) as nat,
                |_i: int| None::<MaybeRelocatable>,
            ),
        decreases offset + 1 - seg@.len(),
    {
        seg.push(None);
        proof {
            assert(seg@ =~= s0 + Seq::new(
                (seg@.len() - s0.len()) as nat,
                |_i: int| None::<MaybeRelocatable>,
            ));
        }
    }
    seg.set(offset, Some(v));
    assert(seg@ =~= padded_write(s0, offset as int, v));
    std::mem::swap(&mut seg, &mut space[slot]);
    assert(nested(*space) =~= sp0.update(slot as int, padded_write(s0, offset as int, v)));
    Ok(())
}

impl Memory {
    pub fn new() -> (r: Memory)
        ensures
            r@.wf(),
            r@.data.len() == 0,
            r@.temp_data.len() == 0,
    {
        Memory { data: Vec::new(), temp_data: Vec::new() }
    }

    /// Writes `val` at the address `key` under the write-once rule.
    pub fn insert(&mut self, key: &MaybeRelocatable, val: &MaybeRelocatable) -> (r: Result<
        (),
        MemoryError,
    >)
        ensures
            old(self)@.wf() ==> final(self)@.wf(),
            match *key {
                MaybeRelocatable::Int(_) => r == Err::<(), MemoryError>(
                    MemoryError::AddressNotRelocatable,
                ) && final(self)@ == old(self)@,
                MaybeRelocatable::RelocatableValue(a) => match old(self)@.insert(
                    a.segment_index as int,
                    a.offset as int,
                    *val,
                ) {
                    Ok(m) => r is Ok && final(self)@ == m,
                    Err(e) => r == Err::<(), MemoryError>(e) && final(self)@ == old(self)@,
                },
            },
    {
        match key {
            MaybeRelocatable::Int(_) => Err(MemoryError::AddressNotRelocatable),
            MaybeRelocatable::RelocatableValue(a) => self.insert_at(a, *val),
        }
    }

    /// Writes `val` at the address `a` under the write-once rule.
    pub fn insert_at(&mut self, a: &Relocatable, val: MaybeRelocatable) -> (r: Result<(), MemoryError>)
        ensures
            old(self)@.wf() ==> final(self)@.wf(),
            match old(self)@.insert(a.segment_index as int, a.offset as int, val) {
                Ok(m) => r is Ok && final(self)@ == m,
                Err(e) => r == Err::<(), MemoryError>(e) && final(self)@ == old(self)@,
            },
    {
        proof {
            if old(self)@.wf() && old(self)@.insert(a.segment_index as int, a.offset as int, val) is Ok {
                lemma_insert_keeps_wf(old(self)@, a.segment_index as int, a.offset as int, val);
            }
        }
        let (slot, offset) = a.to_indexes();
        let at = MaybeRelocatable::RelocatableValue(*a);
        assert(at == MaybeRelocatable::RelocatableValue(
            addr(a.segment_index as int, a.offset as int),
        ));
        if a.segment_index < 0 {
            let r = insert_in_space(&mut self.temp_data, slot, offset, val, at);
            proof {
                if r is Ok {
                    assert(self@ =~= old(self)@.insert(
                        a.segment_index as int,
                        a.offset as int,
                        val,
                    )->Ok_0);
                } else {
                    assert(self@ =~= old(self)@);
                }
            }
            r
        } else {
            let r = insert_in_space(&mut self.data, slot, offset, val, at);
            proof {
                if r is Ok {
                    assert(self@ =~= old(self)@.insert(
                        a.segment_index as int,
                        a.offset as int,
                        val,
                    )->Ok_0);
                } else {
                    assert(self@ =~= old(self)@);
                }
            }
            r
        }
    }

    /// What the cell at `key` holds, `None` for a hole; fails on a field element or a
    /// segment that does not exist.
    pub fn get(&self, key: &MaybeRelocatable) -> (r: Result<Option<MaybeRelocatable>, MemoryError>)
        ensures
            match *key {
                MaybeRelocatable::Int(_) => r == Err::<Option<MaybeRelocatable>, MemoryError>(
                    MemoryError::AddressNotRelocatable,
                ),
                MaybeRelocatable::RelocatableValue(a) => if self@.has_segment(
                    a.segment_index as int,
                ) {
                    r == Ok::<Option<MaybeRelocatable>, MemoryError>(
                        self@.cell(a.segment_index as int, a.offset as int),
                    )
                } else {
                    r == Err::<Option<MaybeRelocatable>, MemoryError>(
                        MemoryError::UnallocatedSegment(
                            spec_segment_slot(a.segment_index as int) as usize,
                            self@.space(a.segment_index as int).len() as usize,
                        ),
                    )
                },
            },
    {
        match key {
            MaybeRelocatable::Int(_) => Err(MemoryError::AddressNotRelocatable),
            MaybeRelocatable::RelocatableValue(a) => {
                let (slot, offset) = a.to_indexes();
                let space = if a.segment_index < 0 {
                    &self.temp_data
                } else {
                    &self.data
                };
                if slot >= space.len() {
                    Err(MemoryError::UnallocatedSegment(slot, space.len()))
                } else if offset < space[slot].len() {
                    Ok(space[slot][offset])
                } else {
                    Ok(None)
                }
            },
        }
    }

    /// The values of the `size` cells from `start` on; fails when any of them is a hole.
    pub fn get_range(&self, start: &Relocatable, size: usize) -> (r: Result<
        Vec<MaybeRelocatable>,
        MemoryError,
    >)
        ensures
            match r {
                Ok(v) => self@.populated(start.segment_index as int, start.offset as int, size as int)
                    && v@ == self@.values(start.segment_index as int, start.offset as int, size as int),
                Err(e) => !self@.populated(
                    start.segment_index as int,
                    start.offset as int,
                    size as int,
                ) && e == MemoryError::GetRangeMemoryGap(*start, size),
            },
    {
        let ghost seg = start.segment_index as int;
        let ghost off = start.offset as int;
        let (slot, offset) = start.to_indexes();
        let space = if start.segment_index < 0 {
            &self.temp_data
        } else {
            &self.data
        };
        if slot >= space.len() {
            if size > 0 {
                assert(self@.cell(seg, off + 0) is None);
                return Err(MemoryError::GetRangeMemoryGap(*start, size));
            }
            let v: Vec<MaybeRelocatable> = Vec::new();
            assert(v@ =~= self@.values(seg, off, 0));
            return Ok(v);
        }
        let cells = &space[slot];
        assert(cells@ == self@.segment(seg));
        let mut out: Vec<MaybeRelocatable> = Vec::new();
        let mut i: usize = 0;
        while i < size
            invariant
                i <= size,
                slot < space@.len(),
                cells@ == self@.segment(seg),
                self@.has_segment(seg),
                slot == spec_segment_slot(seg),
                offset == off,
                seg == start.segment_index as int,
                off == start.offset as int,
                self@.populated(seg, off, i as int),
                out@ == self@.values(seg, off, i as int),
            decreases size - i,
        {
            if offset >= cells.len() || i >= cells.len() - offset {
                assert(self@.cell(seg, off + i) is None);
                assert(!self@.populated(seg, off, size as int));
                return Err(MemoryError::GetRangeMemoryGap(*start, size));
            }
            match cells[offset + i] {
                Some(x) => {
                    out.push(x);
                },
                None => {
                    assert(self@.cell(seg, off + i) is None);
                    return Err(MemoryError::GetRangeMemoryGap(*start, size));
                },
            }
            i = i + 1;
            assert(out@ =~= self@.values(seg, off, i as int));
        }
        Ok(out)
    }
}

} // verus!
