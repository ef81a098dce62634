use crate::errors::{MemoryError, VirtualMachineError};
use crate::memory::{
    high_water, lemma_high_water_of_wf, lemma_load_keeps_wf, padded_write, Memory, MemoryView,
};
use crate::relocatable::{addr, spec_segment_slot, MaybeRelocatable, Relocatable};
use std::collections::{HashMap, HashSet};
use vstd::prelude::*;

verus! {

broadcast use vstd::std_specs::hash::group_hash_axioms;

/// Observed length of every real segment.
pub open spec fn effective_sizes(m: MemoryView) -> Seq<usize> {
    Seq::new(m.data.len(), |i: int| m.data[i].len() as usize)
}

/// Filled cells for a sequence of values.
pub open spec fn filled(xs: Seq<MaybeRelocatable>) -> Seq<Option<MaybeRelocatable>> {
    xs.map_values(|x: MaybeRelocatable| Some(x))
}

/// `m` with one more real segment, which holds `xs`.
pub open spec fn with_new_segment(m: MemoryView, xs: Seq<MaybeRelocatable>) -> MemoryView {
    MemoryView { data: m.data.push(filled(xs)), temp_data: m.temp_data }
}

/// Loading values right at the end of a real segment appends them and cannot fail.
pub proof fn lemma_load_at_end(m: MemoryView, s: int, off: int, xs: Seq<MaybeRelocatable>)
    requires
        0 <= s < m.data.len(),
        m.data[s].len() == off,
    ensures
        m.load(s, off, xs) == (
            MemoryView { data: m.data.update(s, m.data[s] + filled(xs)), temp_data: m.temp_data },
            None::<MemoryError>,
        ),
    decreases xs.len(),
{
    if xs.len() == 0 {
        assert(m.data.update(s, m.data[s] + filled(xs)) =~= m.data);
    } else {
        let seg = m.data[s];
        assert(padded_write(seg, off, xs[0]) =~= seg.push(Some(xs[0])));
        let m1 = MemoryView { data: m.data.update(s, seg.push(Some(xs[0]))), temp_data: m.temp_data };
        assert(m.insert(s, off, xs[0]) == Ok::<MemoryView, MemoryError>(m1));
        lemma_load_at_end(m1, s, off + 1, xs.drop_first());
        assert(seg.push(Some(xs[0])) + filled(xs.drop_first()) =~= seg + filled(xs));
        assert(m1.data.update(s, seg.push(Some(xs[0])) + filled(xs.drop_first())) =~= m.data.update(
            s,
            seg + filled(xs),
        ));
    }
}

/// After a write at `offset` of a real segment, the segment's effective size exceeds
/// `offset`.
pub proof fn lemma_insert_grows_effective_size(
    m: MemoryView,
    segment: int,
    offset: int,
    v: MaybeRelocatable,
)
    requires
        0 <= segment,
        0 <= offset < usize::MAX,
        m.insert(segment, offset, v) is Ok,
        forall|i: int| 0 <= i < m.data.len() ==> (#[trigger] m.data[i]).len() <= usize::MAX,
    ensures
        effective_sizes(m.insert(segment, offset, v)->Ok_0)[segment] >= offset + 1,
{
    let m1 = m.insert(segment, offset, v)->Ok_0;
    assert(m1.data[segment].len() >= offset + 1);
    assert(m1.data[segment].len() <= usize::MAX);
}

/// An argument to place in memory: a value as it is, or a sequence to store in a segment.
pub enum Arg {
    Value(MaybeRelocatable),
    Values(Vec<MaybeRelocatable>),
    Relocatables(Vec<Relocatable>),
}

/// The values that an argument's sequence holds, if it is one.
pub open spec fn arg_values(arg: &Arg) -> Option<Seq<MaybeRelocatable>> {
    match *arg {
        Arg::Value(_) => None,
        Arg::Values(v) => Some(v@),
        Arg::Relocatables(v) => Some(
            v@.map_values(|r: Relocatable| MaybeRelocatable::RelocatableValue(r)),
        ),
    }
}

/// A typed argument: a value, an array of values, or a list of arguments whose results
/// make up an array.
pub enum CairoArg {
    Single(MaybeRelocatable),
    Array(Vec<MaybeRelocatable>),
    Composed(Vec<CairoArg>),
}

/// Memory and result after placing `arg`: a single value stays as it is; an array gets a
/// new segment; a composed argument places its children left to right, then gets a new
/// segment for their results.
pub open spec fn gen_cairo(m: MemoryView, arg: CairoArg) -> (MemoryView, MaybeRelocatable)
    decreases arg, 0int,
{
    match arg {
        CairoArg::Single(v) => (m, v),
        CairoArg::Array(vs) => (
            with_new_segment(m, vs@),
            MaybeRelocatable::RelocatableValue(addr(m.data.len() as int, 0)),
        ),
        CairoArg::Composed(cs) => {
            let (m2, vals) = gen_cairo_all(m, cs@, cs@.len() as int);
            (
                with_new_segment(m2, vals),
                MaybeRelocatable::RelocatableValue(addr(m2.data.len() as int, 0)),
            )
        },
    }
}

/// Memory and results after placing the first `k` arguments of `cs` in order.
pub open spec fn gen_cairo_all(m: MemoryView, cs: Seq<CairoArg>, k: int) -> (
    MemoryView,
    Seq<MaybeRelocatable>,
)
    decreases cs, k,
{
    if k <= 0 || k > cs.len() {
        (m, Seq::empty())
    } else {
        let (m1, vals) = gen_cairo_all(m, cs, k - 1);
        let (m2, v) = gen_cairo(m1, cs[k - 1]);
        (m2, vals.push(v))
    }
}

pub proof fn lemma_gen_cairo_grows(m: MemoryView, arg: CairoArg)
    ensures
        gen_cairo(m, arg).0.data.len() >= m.data.len(),
    decreases arg, 0int,
{
    match arg {
        CairoArg::Composed(cs) => {
            lemma_gen_cairo_all_grows(m, cs@, 0, cs@.len() as int);
        },
        _ => {},
    }
}

pub proof fn lemma_gen_cairo_all_grows(m: MemoryView, cs: Seq<CairoArg>, j: int, k: int)
    requires
        0 <= j <= k <= cs.len(),
    ensures
        gen_cairo_all(m, cs, j).0.data.len() <= gen_cairo_all(m, cs, k).0.data.len(),
    decreases cs, k,
{
    if j < k {
        lemma_gen_cairo_all_grows(m, cs, j, k - 1);
        lemma_gen_cairo_grows(gen_cairo_all(m, cs, k - 1).0, cs[k - 1]);
    }
}

/// The slot that an accessed address is counted under: its segment index, or `k - 1` for
/// temporary segment `-k`.
pub open spec fn slot_of(a: Relocatable) -> int {
    spec_segment_slot(a.segment_index as int)
}

/// Whether one of the first `k` accessed addresses is counted under slot `i`.
pub open spec fn is_touched(addrs: Seq<Relocatable>, i: int, k: int) -> bool {
    exists|j: int| 0 <= j < k && slot_of(#[trigger] addrs[j]) == i
}

/// The distinct offsets of the first `k` accessed addresses counted under slot `i`.
pub open spec fn touched_offsets(addrs: Seq<Relocatable>, i: int, k: int) -> Set<usize> {
    Set::new(
        |o: usize|
            exists|j: int| 0 <= j < k && slot_of(#[trigger] addrs[j]) == i && addrs[j].offset == o,
    )
}

/// The segments of a run, the memory that holds them, and what is known of their sizes.
pub struct MemorySegmentManager {
    /// Sizes declared by `finalize`, by segment index.
    pub segment_sizes: HashMap<usize, usize>,
    /// Snapshot of each real segment's length, once computed.
    pub segment_used_sizes: Option<Vec<usize>>,
    pub memory: Memory,
    /// For each segment, the `(offset, page_id)` pairs that make up its public memory.
    pub public_memory_offsets: HashMap<usize, Vec<(usize, usize)>>,
}

impl MemorySegmentManager {
    /// The effective sizes, once computed.
    pub open spec fn used(&self) -> Option<Seq<usize>> {
        match self.segment_used_sizes {
            Some(v) => Some(v@),
            None => None,
        }
    }

    /// The size of segment `i`: the declared one, else the effective one.
    pub open spec fn spec_segment_size(&self, i: int) -> Option<usize> {
        if 0 <= i <= usize::MAX && self.segment_sizes@.contains_key(i as usize) {
            Some(self.segment_sizes@[i as usize])
        } else {
            match self.used() {
                Some(u) => if 0 <= i < u.len() {
                    Some(u[i])
                } else {
                    None
                },
                None => None,
            }
        }
    }

    pub open spec fn size_or_zero(&self, i: int) -> int {
        match self.spec_segment_size(i) {
            Some(n) => n as int,
            None => 0,
        }
    }

    /// Total size of the segments below `n`.
    pub open spec fn size_sum(&self, n: int) -> int
        decreases n,
    {
        if n <= 0 {
            0
        } else {
            self.size_sum(n - 1) + self.size_or_zero(n - 1)
        }
    }

    pub proof fn lemma_size_sum_monotonic(&self, a: int, b: int)
        requires
            a <= b,
        ensures
            self.size_sum(a) <= self.size_sum(b),
        decreases b - a,
    {
        if a < b {
            self.lemma_size_sum_monotonic(a, b - 1);
        }
    }

    /// How many segments the relocation table covers: every real segment, and every one
    /// that has an effective size.
    pub open spec fn relocation_count(&self) -> int {
        let u = match self.used() {
            Some(u) => u.len() as int,
            None => 0,
        };
        if u > self.memory@.data.len() {
            u
        } else {
            self.memory@.data.len() as int
        }
    }

    /// Everything but the memory is as in `other`.
    pub open spec fn same_sizes(&self, other: &MemorySegmentManager) -> bool {
        &&& self.segment_sizes@ == other.segment_sizes@
        &&& self.used() == other.used()
        &&& self.public_memory_offsets@ == other.public_memory_offsets@
    }

    pub fn new() -> (r: MemorySegmentManager)
        ensures
            r.segment_sizes@ == Map::<usize, usize>::empty(),
            r.used() is None,
            r.memory@.wf(),
            r.memory@.data.len() == 0,
            r.memory@.temp_data.len() == 0,
            r.public_memory_offsets@ == Map::<usize, Vec<(usize, usize)>>::empty(),
    {
        MemorySegmentManager {
            segment_sizes: HashMap::new(),
            segment_used_sizes: None,
            public_memory_offsets: HashMap::new(),
            memory: Memory::new(),
        }
    }

    /// Number of real segments.
    pub fn num_segments(&self) -> (r: usize)
        ensures
            r == self.memory@.data.len(),
    {
        self.memory.data.len()
    }

    /// Number of temporary segments.
    pub fn num_temp_segments(&self) -> (r: usize)
        ensures
            r == self.memory@.temp_data.len(),
    {
        self.memory.temp_data.len()
    }

    /// Appends an empty real segment and returns its first address.
    pub fn add(&mut self) -> (r: Relocatable)
        requires
            old(self).memory@.data.len() < isize::MAX,
        ensures
            old(self).memory@.wf() ==> final(self).memory@.wf(),
            r.segment_index == old(self).memory@.data.len(),
            r.offset == 0,
            final(self).memory@.data == old(self).memory@.data.push(Seq::empty()),
            final(self).memory@.temp_data == old(self).memory@.temp_data,
            final(self).same_sizes(old(self)),
    {
        self.memory.data.push(Vec::new());
        proof {
            assert(self.memory@.data =~= old(self).memory@.data.push(Seq::empty()));
        }
        Relocatable { segment_index: (self.memory.data.len() - 1) as isize, offset: 0 }
    }

    /// Appends an empty temporary segment and returns its first address, whose segment
    /// index is minus the number of temporary segments.
    pub fn add_temporary_segment(&mut self) -> (r: Relocatable)
        requires
            old(self).memory@.temp_data.len() < isize::MAX,
        ensures
            old(self).memory@.wf() ==> final(self).memory@.wf(),
            r.segment_index == -(old(self).memory@.temp_data.len() + 1),
            r.offset == 0,
            final(self).memory@.temp_data == old(self).memory@.temp_data.push(Seq::empty()),
            final(self).memory@.data == old(self).memory@.data,
            final(self).same_sizes(old(self)),
    {
        self.memory.temp_data.push(Vec::new());
        proof {
            assert(self.memory@.temp_data =~= old(self).memory@.temp_data.push(Seq::empty()));
        }
        Relocatable { segment_index: -(self.memory.temp_data.len() as isize), offset: 0 }
    }

    /// Writes `data` at consecutive addresses from `ptr` on and returns the address after
    /// the last one. Stops at the first write that fails.
    pub fn load_data(&mut self, ptr: &MaybeRelocatable, data: &Vec<MaybeRelocatable>) -> (r: Result<
        MaybeRelocatable,
        MemoryError,
    >)
        requires
            ptr matches MaybeRelocatable::RelocatableValue(p) ==> p.offset + data@.len()
                <= usize::MAX,
        ensures
            old(self).memory@.wf() ==> final(self).memory@.wf(),
            final(self).same_sizes(old(self)),
            match *ptr {
                MaybeRelocatable::Int(_) => final(self).memory@ == old(self).memory@ && if data@.len()
                    == 0 {
                    r == Ok::<MaybeRelocatable, MemoryError>(*ptr)
                } else {
                    r == Err::<MaybeRelocatable, MemoryError>(MemoryError::AddressNotRelocatable)
                },
                MaybeRelocatable::RelocatableValue(p) => {
                    let (m, e) = old(self).memory@.load(
                        p.segment_index as int,
                        p.offset as int,
                        data@,
                    );
                    &&& final(self).memory@ == m
                    &&& match e {
                        None => r == Ok::<MaybeRelocatable, MemoryError>(
                            MaybeRelocatable::RelocatableValue(
                                Relocatable {
                                    segment_index: p.segment_index,
                                    offset: (p.offset + data@.len()) as usize,
                                },
                            ),
                        ),
                        Some(e) => r == Err::<MaybeRelocatable, MemoryError>(e),
                    }
                },
            },
    {
        match ptr {
            MaybeRelocatable::Int(_) => {
                if data.len() == 0 {
                    Ok(*ptr)
                } else {
                    Err(MemoryError::AddressNotRelocatable)
                }
            },
            MaybeRelocatable::RelocatableValue(p) => {
                proof {
                    if old(self).memory@.wf() {
                        lemma_load_keeps_wf(
                            old(self).memory@,
                            p.segment_index as int,
                            p.offset as int,
                            data@,
                        );
                    }
                }
                let ghost seg = p.segment_index as int;
                let mut i: usize = 0;
                assert(data@.skip(0) =~= data@);
                while i < data.len()
                    invariant
                        i <= data@.len(),
                        *ptr == MaybeRelocatable::RelocatableValue(*p),
                        old(self).memory@.wf() ==> self.memory@.wf(),
                        p.offset + data@.len() <= usize::MAX,
                        seg == p.segment_index as int,
                        self.same_sizes(old(self)),
                        old(self).memory@.load(seg, p.offset as int, data@) == self.memory@.load(
                            seg,
                            p.offset + i,
                            data@.skip(i as int),
                        ),
                    decreases data@.len() - i,
                {
                    let a = p.add_usize(i);
                    let ghost before = self.memory@;
                    let w = self.memory.insert_at(&a, data[i]);
                    proof {
                        assert(data@.skip(i as int)[0] == data@[i as int]);
                        assert(data@.skip(i as int).drop_first() =~= data@.skip(i + 1));
                    }
                    match w {
                        Ok(()) => {},
                        Err(e) => {
                            assert(self.memory@.load(seg, p.offset + i, data@.skip(i as int)) == (
                            before, Some(e)));
                            return Err(e);
                        },
                    }
                    i = i + 1;
                }
                proof {
                    assert(data@.skip(i as int) =~= Seq::<MaybeRelocatable>::empty());
                }
                Ok(MaybeRelocatable::RelocatableValue(p.add_usize(data.len())))
            },
        }
    }

    /// Records the length of every real segment, unless already recorded, and returns the
    /// recorded lengths. In well-formed memory a segment's length is one past its highest
    /// offset that holds a value, or zero.
    pub fn compute_effective_sizes(&mut self) -> (r: &Vec<usize>)
        ensures
            old(self).used() is None ==> final(self).used() == Some(
                effective_sizes(old(self).memory@),
            ),
            old(self).used() is Some ==> final(self).used() == old(self).used(),
            final(self).used() == Some(r@),
            old(self).used() is None && old(self).memory@.wf() ==> forall|i: int|
                0 <= i < r@.len() ==> r@[i] == high_water(#[trigger] old(self).memory@.data[i]),
            final(self).memory@ == old(self).memory@,
            final(self).segment_sizes@ == old(self).segment_sizes@,
            final(self).public_memory_offsets@ == old(self).public_memory_offsets@,
    {
        if self.segment_used_sizes.is_none() {
            let mut sizes: Vec<usize> = Vec::new();
            let mut i: usize = 0;
            while i < self.memory.data.len()
                invariant
                    i <= self.memory@.data.len(),
                    sizes@ == effective_sizes(self.memory@).take(i as int),
                decreases self.memory@.data.len() - i,
            {
                sizes.push(self.memory.data[i].len());
                i = i + 1;
                assert(sizes@ =~= effective_sizes(self.memory@).take(i as int));
            }
            assert(sizes@ =~= effective_sizes(self.memory@));
            proof {
                if self.memory@.wf() {
                    assert forall|i: int| 0 <= i < sizes@.len() implies sizes@[i] == high_water(
                        #[trigger] self.memory@.data[i],
                    ) by {
                        assert(self.memory.data@[i].len() == self.memory.data@[i]@.len());
                        lemma_high_water_of_wf(self.memory@.data[i]);
                    }
                }
            }
            self.segment_used_sizes = Some(sizes);
        }
        self.segment_used_sizes.as_ref().unwrap()
    }

    /// The effective size of segment `index`, once computed.
    pub fn get_segment_used_size(&self, index: usize) -> (r: Option<usize>)
        ensures
            r == match self.used() {
                Some(u) => if index < u.len() {
                    Some(u[index as int])
                } else {
                    None
                },
                None => None::<usize>,
            },
    {
        match &self.segment_used_sizes {
            Some(u) => if index < u.len() {
                Some(u[index])
            } else {
                None
            },
            None => None,
        }
    }

    /// The declared size of segment `index`, else its effective size.
    pub fn get_segment_size(&self, index: usize) -> (r: Option<usize>)
        ensures
            r == self.spec_segment_size(index as int),
    {
        match self.segment_sizes.get(&index) {
            Some(n) => Some(*n),
            None => self.get_segment_used_size(index),
        }
    }

    /// The first address of each real segment in the flat image: `1` for the first, then
    /// each one past the end of the one before. Covers every real segment, also one added
    /// after the effective sizes were computed, and fails on the first that has no size.
    pub fn relocate_segments(&self) -> (r: Result<Vec<usize>, MemoryError>)
        requires
            self.used() is Some ==> 1 + self.size_sum(self.relocation_count()) <= usize::MAX,
        ensures
            self.used() is None ==> r == Err::<Vec<usize>, MemoryError>(
                MemoryError::EffectiveSizesNotCalled,
            ),
            self.used() is Some ==> match r {
                Ok(t) => (forall|i: int|
                    0 <= i < self.relocation_count() ==> self.spec_segment_size(i) is Some)
                    && t@.len() == self.relocation_count() && forall|i: int|
                    0 <= i < self.relocation_count() ==> t@[i] == 1 + self.size_sum(i),
                Err(e) => exists|k: int|
                    0 <= k < self.relocation_count() && self.spec_segment_size(k) is None && (
                    forall|j: int| 0 <= j < k ==> self.spec_segment_size(j) is Some) && e
                        == MemoryError::SegmentNotFinalized(k as usize),
            },
    {
        match &self.segment_used_sizes {
            None => Err(MemoryError::EffectiveSizesNotCalled),
            Some(used) => {
                let n = if used.len() > self.memory.data.len() {
                    used.len()
                } else {
                    self.memory.data.len()
                };
                let mut table: Vec<usize> = Vec::new();
                let mut next: usize = 1;
                let mut i: usize = 0;
                while i < n
                    invariant
                        n == self.relocation_count(),
                        self.used() == Some(used@),
                        1 + self.size_sum(n as int) <= usize::MAX,
                        i <= n,
                        next == 1 + self.size_sum(i as int),
                        table@.len() == i,
                        forall|j: int| 0 <= j < i ==> self.spec_segment_size(j) is Some,
                        forall|j: int| 0 <= j < i ==> table@[j] == 1 + self.size_sum(j),
                    decreases n - i,
                {
                    let size = match self.get_segment_size(i) {
                        Some(size) => size,
                        None => {
                            return Err(MemoryError::SegmentNotFinalized(i));
                        },
                    };
                    proof {
                        self.lemma_size_sum_monotonic(i + 1, n as int);
                    }
                    table.push(next);
                    next = next + size;
                    i = i + 1;
                }
                Ok(table)
            },
        }
    }

    /// Whether `value` may stand in memory: a field element, or an address in a real
    /// segment below the number of effective sizes.
    pub fn is_valid_memory_value(&self, value: &MaybeRelocatable) -> (r: Result<bool, MemoryError>)
        ensures
            r == match self.used() {
                None => Err::<bool, MemoryError>(MemoryError::EffectiveSizesNotCalled),
                Some(u) => match *value {
                    MaybeRelocatable::Int(_) => Ok(true),
                    MaybeRelocatable::RelocatableValue(a) => if a.segment_index < 0 {
                        Err(MemoryError::AddressInTemporarySegment(a.segment_index))
                    } else {
                        Ok(a.segment_index < u.len())
                    },
                },
            },
    {
        match &self.segment_used_sizes {
            Some(used) => match value {
                MaybeRelocatable::Int(_) => Ok(true),
                MaybeRelocatable::RelocatableValue(a) => {
                    if a.segment_index < 0 {
                        Err(MemoryError::AddressInTemporarySegment(a.segment_index))
                    } else {
                        Ok((a.segment_index as usize) < used.len())
                    }
                },
            },
            None => Err(MemoryError::EffectiveSizesNotCalled),
        }
    }

    /// Records a declared size for segment `segment_index` and its public memory, each
    /// when given.
    pub fn finalize(
        &mut self,
        size: Option<usize>,
        segment_index: usize,
        public_memory: Option<&Vec<(usize, usize)>>,
    )
        ensures
            final(self).segment_sizes@ == match size {
                Some(n) => old(self).segment_sizes@.insert(segment_index, n),
                None => old(self).segment_sizes@,
            },
            match public_memory {
                Some(p) => final(self).public_memory_offsets@.dom()
                    == old(self).public_memory_offsets@.dom().insert(segment_index)
                    && final(self).public_memory_offsets@[segment_index]@ == p@ && forall|k: usize|
                    k != segment_index && old(self).public_memory_offsets@.contains_key(k)
                        ==> final(self).public_memory_offsets@[k]
                        == old(self).public_memory_offsets@[k],
                None => final(self).public_memory_offsets@ == old(self).public_memory_offsets@,
            },
            final(self).used() == old(self).used(),
            final(self).memory@ == old(self).memory@,
    {
        if let Some(size) = size {
            self.segment_sizes.insert(segment_index, size);
        }
        if let Some(public_memory) = public_memory {
            let mut copy: Vec<(usize, usize)> = Vec::new();
            let mut i: usize = 0;
            while i < public_memory.len()
                invariant
                    i <= public_memory@.len(),
                    copy@ == public_memory@.take(i as int),
                decreases public_memory@.len() - i,
            {
                let (offset, page) = public_memory[i];
                copy.push((offset, page));
                i = i + 1;
                assert(copy@ =~= public_memory@.take(i as int));
            }
            assert(copy@ =~= public_memory@);
            self.public_memory_offsets.insert(segment_index, copy);
        }
    }

    /// An accessed address has a sized segment and lies no further than its size.
    pub open spec fn access_ok(&self, a: Relocatable) -> bool {
        match self.spec_segment_size(slot_of(a)) {
            Some(n) => a.offset <= n,
            None => false,
        }
    }

    /// The failure that an accessed address that is not `access_ok` gives.
    pub open spec fn access_error(&self, a: Relocatable) -> MemoryError {
        match self.spec_segment_size(slot_of(a)) {
            Some(n) => MemoryError::AccessedAddressOffsetBiggerThanSegmentSize(
                Relocatable { segment_index: slot_of(a) as isize, offset: a.offset },
                n,
            ),
            None => MemoryError::SegmentNotFinalized(slot_of(a) as usize),
        }
    }

    /// How many segment slots the hole count looks at.
    pub open spec fn holes_bound(&self) -> int {
        let u = match self.used() {
            Some(u) => u.len() as int,
            None => 0,
        };
        if self.segment_sizes@.len() > u {
            self.segment_sizes@.len() as int
        } else {
            u
        }
    }

    /// Unaccessed cells of the touched segments below slot `n`: for each, its size less its
    /// distinct accessed offsets (never below zero).
    pub open spec fn holes_upto(&self, addrs: Seq<Relocatable>, n: int) -> int
        decreases n,
    {
        if n <= 0 {
            0
        } else {
            let i = n - 1;
            let missing = self.size_or_zero(i) - touched_offsets(addrs, i, addrs.len() as int).len();
            self.holes_upto(addrs, i) + if is_touched(addrs, i, addrs.len() as int) && missing > 0 {
                missing
            } else {
                0
            }
        }
    }

    pub proof fn lemma_holes_below_sizes(&self, addrs: Seq<Relocatable>, n: int)
        ensures
            0 <= self.holes_upto(addrs, n) <= self.size_sum(n),
        decreases n,
    {
        if n > 0 {
            self.lemma_holes_below_sizes(addrs, n - 1);
        }
    }

    /// Counts the cells of the accessed segments that no address in `accessed_addresses`
    /// touched. Fails on the first address whose segment has no size or that lies beyond
    /// it; an address exactly at the size passes. A segment whose distinct accessed offsets
    /// outnumber its size, which only that case allows, counts no holes.
    pub fn get_memory_holes(&self, accessed_addresses: &Vec<Relocatable>) -> (r: Result<
        usize,
        MemoryError,
    >)
        requires
            self.used() is Some ==> self.size_sum(self.holes_bound()) <= usize::MAX,
        ensures
            self.used() is None ==> r == Err::<usize, MemoryError>(
                MemoryError::MissingSegmentUsedSizes,
            ),
            self.used() is Some ==> match r {
                Ok(n) => (forall|k: int|
                    0 <= k < accessed_addresses@.len() ==> self.access_ok(
                        #[trigger] accessed_addresses@[k],
                    )) && n == self.holes_upto(accessed_addresses@, self.holes_bound()),
                Err(e) => exists|k: int|
                    0 <= k < accessed_addresses@.len() && !self.access_ok(
                        #[trigger] accessed_addresses@[k],
                    ) && (forall|j: int| 0 <= j < k ==> self.access_ok(accessed_addresses@[j]))
                        && e == self.access_error(accessed_addresses@[k]),
            },
    {
        let used = match &self.segment_used_sizes {
            None => {
                return Err(MemoryError::MissingSegmentUsedSizes);
            },
            Some(used) => used,
        };
        let ghost addrs = accessed_addresses@;
        let len = accessed_addresses.len();
        let mut k: usize = 0;
        while k < len
            invariant
                len == addrs.len(),
                addrs == accessed_addresses@,
                self.used() == Some(used@),
                k <= len,
                forall|j: int| 0 <= j < k ==> self.access_ok(#[trigger] addrs[j]),
            decreases len - k,
        {
            let a = accessed_addresses[k];
            let (index, offset) = a.to_indexes();
            match self.get_segment_size(index) {
                None => {
                    return Err(MemoryError::SegmentNotFinalized(index));
                },
                Some(size) => {
                    if offset > size {
                        return Err(
                            MemoryError::AccessedAddressOffsetBiggerThanSegmentSize(
                                Relocatable { segment_index: index as isize, offset },
                                size,
                            ),
                        );
                    }
                },
            }
            k = k + 1;
        }
        let max = if self.segment_sizes.len() > used.len() {
            self.segment_sizes.len()
        } else {
            used.len()
        };
        let mut total: usize = 0;
        let mut i: usize = 0;
        while i < max
            invariant
                len == addrs.len(),
                addrs == accessed_addresses@,
                self.used() == Some(used@),
                max == self.holes_bound(),
                self.size_sum(max as int) <= usize::MAX,
                i <= max,
                total == self.holes_upto(addrs, i as int),
                forall|j: int| 0 <= j < len ==> self.access_ok(#[trigger] addrs[j]),
            decreases max - i,
        {
            let mut offsets: HashSet<usize> = HashSet::new();
            let mut touched = false;
            let mut k: usize = 0;
            while k < len
                invariant
                    len == addrs.len(),
                    addrs == accessed_addresses@,
                    k <= len,
                    offsets@ == touched_offsets(addrs, i as int, k as int),
                    touched == is_touched(addrs, i as int, k as int),
                decreases len - k,
            {
                let (index, offset) = accessed_addresses[k].to_indexes();
                if index == i {
                    offsets.insert(offset);
                    touched = true;
                    assert(slot_of(addrs[k as int]) == i);
                }
                k = k + 1;
                assert(offsets@ =~= touched_offsets(addrs, i as int, k as int));
            }
            proof {
                self.lemma_holes_below_sizes(addrs, i + 1);
                self.lemma_size_sum_monotonic(i + 1, max as int);
            }
            if touched {
                let size = match self.get_segment_size(i) {
                    Some(n) => n,
                    None => 0,
                };
                let count = offsets.len();
                if count < size {
                    total = total + (size - count);
                }
            }
            i = i + 1;
        }
        Ok(total)
    }

    /// Writes the sequence that `arg` holds from `ptr` on, as `load_data` does; fails on a
    /// single value.
    pub fn write_arg(&mut self, ptr: Relocatable, arg: &Arg) -> (r: Result<MaybeRelocatable, MemoryError>)
        requires
            arg_values(arg) matches Some(xs) ==> ptr.offset + xs.len() <= usize::MAX,
        ensures
            old(self).memory@.wf() ==> final(self).memory@.wf(),
            final(self).same_sizes(old(self)),
            match arg_values(arg) {
                None => r == Err::<MaybeRelocatable, MemoryError>(MemoryError::WriteArg)
                    && final(self).memory@ == old(self).memory@,
                Some(xs) => {
                    let (m, e) = old(self).memory@.load(ptr.segment_index as int, ptr.offset as int, xs);
                    &&& final(self).memory@ == m
                    &&& match e {
                        None => r == Ok::<MaybeRelocatable, MemoryError>(
                            MaybeRelocatable::RelocatableValue(
                                Relocatable {
                                    segment_index: ptr.segment_index,
                                    offset: (ptr.offset + xs.len()) as usize,
                                },
                            ),
                        ),
                        Some(e) => r == Err::<MaybeRelocatable, MemoryError>(e),
                    }
                },
            },
    {
        let start = MaybeRelocatable::RelocatableValue(ptr);
        match arg {
            Arg::Value(_) => Err(MemoryError::WriteArg),
            Arg::Values(values) => self.load_data(&start, values),
            Arg::Relocatables(addrs) => {
                let mut values: Vec<MaybeRelocatable> = Vec::new();
                let mut i: usize = 0;
                while i < addrs.len()
                    invariant
                        i <= addrs@.len(),
                        values@ == addrs@.take(i as int).map_values(
                            |r: Relocatable| MaybeRelocatable::RelocatableValue(r),
                        ),
                    decreases addrs@.len() - i,
                {
                    values.push(MaybeRelocatable::RelocatableValue(addrs[i]));
                    i = i + 1;
                    assert(values@ =~= addrs@.take(i as int).map_values(
                        |r: Relocatable| MaybeRelocatable::RelocatableValue(r),
                    ));
                }
                assert(addrs@.take(i as int) =~= addrs@);
                self.load_data(&start, &values)
            },
        }
    }

    /// Returns a single value as it is; stores a sequence in a new segment and returns the
    /// segment's first address.
    pub fn gen_arg(&mut self, arg: &Arg) -> (r: Result<MaybeRelocatable, MemoryError>)
        requires
            old(self).memory@.data.len() < isize::MAX,
        ensures
            old(self).memory@.wf() ==> final(self).memory@.wf(),
            final(self).same_sizes(old(self)),
            match *arg {
                Arg::Value(v) => r == Ok::<MaybeRelocatable, MemoryError>(v) && final(self).memory@
                    == old(self).memory@,
                _ => r == Ok::<MaybeRelocatable, MemoryError>(
                    MaybeRelocatable::RelocatableValue(
                        Relocatable { segment_index: old(self).memory@.data.len() as isize, offset: 0 },
                    ),
                ) && final(self).memory@ == with_new_segment(
                    old(self).memory@,
                    arg_values(arg)->Some_0,
                ),
            },
    {
        match arg {
            Arg::Value(v) => Ok(*v),
            _ => {
                let base = self.add();
                proof {
                    match arg {
                        Arg::Values(v) => assert(v.len() == v@.len()),
                        Arg::Relocatables(v) => assert(v.len() == v@.len()),
                        _ => {},
                    }
                    lemma_load_at_end(self.memory@, base.segment_index as int, 0, arg_values(arg)->Some_0);
                    assert(self.memory@.data.update(
                        base.segment_index as int,
                        self.memory@.data[base.segment_index as int] + filled(arg_values(arg)->Some_0),
                    ) =~= old(self).memory@.data.push(filled(arg_values(arg)->Some_0)));
                }
                match self.write_arg(base, arg) {
                    Ok(_) => Ok(MaybeRelocatable::RelocatableValue(base)),
                    Err(e) => Err(e),
                }
            },
        }
    }

    /// Places a typed argument in memory: see `gen_cairo`. Never fails.
    pub fn gen_cairo_arg(&mut self, arg: &CairoArg) -> (r: Result<MaybeRelocatable, VirtualMachineError>)
        requires
            gen_cairo(old(self).memory@, *arg).0.data.len() < isize::MAX,
        ensures
            old(self).memory@.wf() ==> final(self).memory@.wf(),
            final(self).same_sizes(old(self)),
            r matches Ok(v) && (final(self).memory@, v) == gen_cairo(old(self).memory@, *arg),
        decreases arg,
    {
        match arg {
            CairoArg::Single(value) => {
                assert(gen_cairo(old(self).memory@, *arg) == (old(self).memory@, *value));
                assert(self.memory@ == old(self).memory@);
                Ok(*value)
            },
            CairoArg::Array(values) => {
                let base = self.add();
                proof {
                    assert(values.len() == values@.len());
                    lemma_load_at_end(self.memory@, base.segment_index as int, 0, values@);
                    assert(self.memory@.data.update(
                        base.segment_index as int,
                        self.memory@.data[base.segment_index as int] + filled(values@),
                    ) =~= old(self).memory@.data.push(filled(values@)));
                }
                match self.load_data(&MaybeRelocatable::RelocatableValue(base), values) {
                    Ok(_) => Ok(MaybeRelocatable::RelocatableValue(base)),
                    Err(e) => Err(VirtualMachineError::Memory(e)),
                }
            },
            CairoArg::Composed(cairo_args) => {
                let ghost m0 = self.memory@;
                let ghost n = cairo_args@.len() as int;
                let mut args: Vec<MaybeRelocatable> = Vec::new();
                let mut i: usize = 0;
                while i < cairo_args.len()
                    invariant
                        *arg == CairoArg::Composed(*cairo_args),
                        n == cairo_args@.len(),
                        i <= n,
                        gen_cairo(m0, *arg).0.data.len() < isize::MAX,
                        (self.memory@, args@) == gen_cairo_all(m0, cairo_args@, i as int),
                        self.same_sizes(old(self)),
                        old(self).memory@.wf() ==> self.memory@.wf(),
                    decreases n - i,
                {
                    proof {
                        lemma_gen_cairo_all_grows(m0, cairo_args@, i + 1, n);
                    }
                    let value = match self.gen_cairo_arg(&cairo_args[i]) {
                        Ok(v) => v,
                        Err(e) => {
                            return Err(e);
                        },
                    };
                    args.push(value);
                    i = i + 1;
                }
                let ghost m2 = self.memory@;
                let base = self.add();
                proof {
                    assert(args.len() == args@.len());
                    lemma_load_at_end(self.memory@, base.segment_index as int, 0, args@);
                    assert(self.memory@.data.update(
                        base.segment_index as int,
                        self.memory@.data[base.segment_index as int] + filled(args@),
                    ) =~= m2.data.push(filled(args@)));
                }
                match self.load_data(&MaybeRelocatable::RelocatableValue(base), &args) {
                    Ok(_) => Ok(MaybeRelocatable::RelocatableValue(base)),
                    Err(e) => Err(VirtualMachineError::Memory(e)),
                }
            },
        }
    }
}

impl Default for MemorySegmentManager {
    fn default() -> (r: MemorySegmentManager)
        ensures
            r.segment_sizes@ == Map::<usize, usize>::empty(),
            r.used() is None,
            r.memory@.wf(),
            r.memory@.data.len() == 0,
            r.memory@.temp_data.len() == 0,
            r.public_memory_offsets@ == Map::<usize, Vec<(usize, usize)>>::empty(),
    {
        MemorySegmentManager::new()
    }
}

} // verus!
