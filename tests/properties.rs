use cairo_memory::errors::MemoryError;
use cairo_memory::felt::{Felt, PRIME_HIGH_LIMB};
use cairo_memory::memory::Memory;
use cairo_memory::memory_segments::{Arg, CairoArg, MemorySegmentManager};
use cairo_memory::relocatable::{AddressSubError, MaybeRelocatable, Relocatable, ValueAddError};

fn felt_value(n: u64) -> MaybeRelocatable {
    MaybeRelocatable::Int(Felt::new(n))
}

fn ptr(s: isize, o: usize) -> MaybeRelocatable {
    MaybeRelocatable::from_pair(s, o)
}

#[test]
fn insert_same_value_twice_succeeds() {
    let mut segments = MemorySegmentManager::new();
    segments.add();
    assert_eq!(segments.memory.insert(&ptr(0, 2), &felt_value(9)), Ok(()));
    assert_eq!(segments.memory.insert(&ptr(0, 2), &felt_value(9)), Ok(()));
    assert_eq!(segments.memory.data[0], vec![None, None, Some(felt_value(9))]);
}

#[test]
fn insert_other_value_is_inconsistent() {
    let mut segments = MemorySegmentManager::new();
    segments.add();
    segments.memory.insert(&ptr(0, 0), &felt_value(1)).unwrap();
    assert_eq!(
        segments.memory.insert(&ptr(0, 0), &felt_value(2)),
        Err(MemoryError::InconsistentMemory(ptr(0, 0), felt_value(1), felt_value(2)))
    );
    assert_eq!(segments.memory.data[0], vec![Some(felt_value(1))]);
}

#[test]
fn insert_at_field_element_is_refused() {
    let mut memory = Memory::new();
    assert_eq!(
        memory.insert(&felt_value(0), &felt_value(1)),
        Err(MemoryError::AddressNotRelocatable)
    );
}

#[test]
fn insert_into_missing_segment_is_refused() {
    let mut memory = Memory::new();
    assert_eq!(
        memory.insert(&ptr(2, 0), &felt_value(1)),
        Err(MemoryError::UnallocatedSegment(2, 0))
    );
    assert_eq!(
        memory.insert(&ptr(-1, 0), &felt_value(1)),
        Err(MemoryError::UnallocatedSegment(0, 0))
    );
}

#[test]
fn temporary_segment_holds_values() {
    let mut segments = MemorySegmentManager::new();
    let t = segments.add_temporary_segment();
    segments
        .load_data(&MaybeRelocatable::RelocatableValue(t), &vec![felt_value(3), felt_value(4)])
        .unwrap();
    assert_eq!(segments.memory.temp_data[0], vec![Some(felt_value(3)), Some(felt_value(4))]);
    assert!(segments.memory.data.is_empty());
}

#[test]
fn load_then_get_range_round_trip() {
    let mut segments = MemorySegmentManager::new();
    segments.add();
    let xs = vec![felt_value(7), ptr(0, 0), felt_value(8)];
    let end = segments.load_data(&ptr(0, 4), &xs).unwrap();
    assert_eq!(end, ptr(0, 7));
    assert_eq!(segments.memory.get_range(&Relocatable::new(0, 4), 3), Ok(xs));
}

#[test]
fn get_range_over_hole_fails() {
    let mut segments = MemorySegmentManager::new();
    segments.add();
    segments.load_data(&ptr(0, 0), &vec![felt_value(1)]).unwrap();
    segments.load_data(&ptr(0, 2), &vec![felt_value(1)]).unwrap();
    assert_eq!(
        segments.memory.get_range(&Relocatable::new(0, 0), 3),
        Err(MemoryError::GetRangeMemoryGap(Relocatable::new(0, 0), 3))
    );
    assert_eq!(segments.memory.get_range(&Relocatable::new(0, 5), 0), Ok(vec![]));
}

#[test]
fn load_data_stops_at_conflict() {
    let mut segments = MemorySegmentManager::new();
    segments.add();
    segments.memory.insert(&ptr(0, 1), &felt_value(5)).unwrap();
    assert_eq!(
        segments.load_data(&ptr(0, 0), &vec![felt_value(1), felt_value(2), felt_value(3)]),
        Err(MemoryError::InconsistentMemory(ptr(0, 1), felt_value(5), felt_value(2)))
    );
    assert_eq!(segments.memory.data[0], vec![Some(felt_value(1)), Some(felt_value(5))]);
}

#[test]
fn load_data_at_field_element() {
    let mut segments = MemorySegmentManager::new();
    assert_eq!(segments.load_data(&felt_value(3), &vec![]), Ok(felt_value(3)));
    assert_eq!(
        segments.load_data(&felt_value(3), &vec![felt_value(1)]),
        Err(MemoryError::AddressNotRelocatable)
    );
}

#[test]
fn effective_size_covers_last_write_and_is_cached() {
    let mut segments = MemorySegmentManager::new();
    segments.add();
    segments.add();
    segments.memory.insert(&ptr(1, 4), &felt_value(1)).unwrap();
    assert_eq!(segments.compute_effective_sizes(), &vec![0, 5]);
    segments.memory.insert(&ptr(1, 9), &felt_value(1)).unwrap();
    assert_eq!(segments.compute_effective_sizes(), &vec![0, 5]);
}

#[test]
fn relocation_needs_effective_sizes() {
    let segments = MemorySegmentManager::new();
    assert_eq!(
        segments.relocate_segments(),
        Err(MemoryError::EffectiveSizesNotCalled)
    );
}

#[test]
fn relocation_prefers_declared_sizes() {
    let mut segments = MemorySegmentManager::new();
    segments.segment_used_sizes = Some(vec![3, 3, 3]);
    segments.finalize(Some(10), 1, None);
    assert_eq!(segments.relocate_segments(), Ok(vec![1, 4, 14]));
}

#[test]
fn address_arithmetic() {
    let p = Relocatable::new(2, 5);
    let q = p.add_usize(7);
    assert_eq!(q, Relocatable::new(2, 12));
    assert_eq!(q.sub(&p), Ok(7));
    assert_eq!(q.add_usize(3), p.add_usize(10));
    assert_eq!(p.sub(&q), Err(AddressSubError::CantSubOffset(5, 12)));
    assert_eq!(
        p.sub(&Relocatable::new(1, 0)),
        Err(AddressSubError::DiffIndexSub)
    );
    assert!(q.gt(&p));
    assert!(Relocatable::new(3, 0).gt(&q));
    assert!(!p.gt(&p));
}

#[test]
fn holes_count_temporary_addresses_under_their_slot() {
    let mut segments = MemorySegmentManager::new();
    segments.segment_used_sizes = Some(vec![4, 2]);
    let accessed = vec![
        Relocatable::new(0, 0),
        Relocatable::new(0, 0),
        Relocatable::new(-2, 1),
    ];
    // Slot 0 has 4 cells, one distinct offset touched; slot 1 has 2, one touched.
    assert_eq!(segments.get_memory_holes(&accessed), Ok(4));
}

#[test]
fn holes_accept_offset_equal_to_size() {
    let mut segments = MemorySegmentManager::new();
    segments.segment_used_sizes = Some(vec![2]);
    let accessed = vec![Relocatable::new(0, 2)];
    assert_eq!(segments.get_memory_holes(&accessed), Ok(1));
}

#[test]
fn field_element_construction() {
    let minus_one = Felt::from_i64(-1);
    assert_eq!(minus_one.limb3, PRIME_HIGH_LIMB);
    assert_eq!((minus_one.limb0, minus_one.limb1, minus_one.limb2), (0, 0, 0));
    let minus_two = Felt::from_i64(-2);
    assert_eq!(minus_two.limb0, u64::MAX);
    assert_eq!(minus_two.limb3, PRIME_HIGH_LIMB - 1);
    assert_eq!(minus_two.to_usize(), None);
    assert_eq!(Felt::from_i64(42).to_usize(), Some(42));
    assert!(Felt::zero().is_zero());
    assert!(Felt::one().is_one());
    assert!(!Felt::new(2).is_one());
    assert_eq!(Felt::from_usize(7), Felt::new(7));
}

#[test]
fn write_arg_values_and_single_value() {
    let mut segments = MemorySegmentManager::new();
    segments.add();
    segments.add();
    let data = vec![felt_value(11), felt_value(12), felt_value(1)];
    assert_eq!(
        segments.write_arg(Relocatable::new(1, 0), &Arg::Values(data)),
        Ok(ptr(1, 3))
    );
    assert_eq!(
        segments.memory.data[1],
        vec![Some(felt_value(11)), Some(felt_value(12)), Some(felt_value(1))]
    );
    assert_eq!(
        segments.write_arg(Relocatable::new(1, 0), &Arg::Value(felt_value(1))),
        Err(MemoryError::WriteArg)
    );
}

#[test]
fn gen_cairo_arg_composed_layout() {
    let mut segments = MemorySegmentManager::new();
    let arg = CairoArg::Composed(vec![
        CairoArg::Array(vec![felt_value(0), felt_value(1)]),
        CairoArg::Single(felt_value(9)),
        CairoArg::Composed(vec![CairoArg::Array(vec![felt_value(2)])]),
    ]);
    assert_eq!(segments.gen_cairo_arg(&arg), Ok(ptr(3, 0)));
    assert_eq!(segments.memory.data[0], vec![Some(felt_value(0)), Some(felt_value(1))]);
    assert_eq!(segments.memory.data[1], vec![Some(felt_value(2))]);
    assert_eq!(segments.memory.data[2], vec![Some(ptr(1, 0))]);
    assert_eq!(
        segments.memory.data[3],
        vec![Some(ptr(0, 0)), Some(felt_value(9)), Some(ptr(2, 0))]
    );
}

#[test]
fn gen_arg_relocatables_widen() {
    let mut segments = MemorySegmentManager::new();
    segments.add();
    let r = segments.gen_arg(&Arg::Relocatables(vec![Relocatable::new(0, 1)]));
    assert_eq!(r, Ok(ptr(1, 0)));
    assert_eq!(segments.memory.data[1], vec![Some(ptr(0, 1))]);
}

#[test]
fn field_arithmetic_wraps_at_the_prime() {
    let minus_one = Felt::from_i64(-1);
    assert_eq!(minus_one.add(&Felt::new(2)), Felt::one());
    assert_eq!(Felt::zero().sub(&Felt::one()), minus_one);
    assert_eq!(Felt::new(10).sub(&Felt::new(3)), Felt::new(7));
    assert_eq!(Felt::one().neg(), minus_one);
    assert_eq!(Felt::zero().neg(), Felt::zero());
    assert_eq!(Felt::new(5).add(&Felt::new(6)), Felt::new(11));
    assert_eq!(Felt::from_i64(-3).add(&Felt::new(3)), Felt::zero());
}

#[test]
fn field_element_from_wide_limbs() {
    assert_eq!(Felt::from_limbs(1, 0, 0, PRIME_HIGH_LIMB), Felt::zero());
    assert_eq!(Felt::from_limbs(7, 0, 0, 0), Felt::new(7));
    let r = Felt::from_limbs(u64::MAX, u64::MAX, u64::MAX, u64::MAX);
    assert_eq!(
        (r.limb0, r.limb1, r.limb2, r.limb3),
        (18446744073709551584, u64::MAX, u64::MAX, 576460752303422960)
    );
}

#[test]
fn value_addition() {
    assert_eq!(ptr(1, 2).add(&felt_value(3)), Ok(ptr(1, 5)));
    assert_eq!(
        felt_value(3).add(&felt_value(4)),
        Ok(felt_value(7))
    );
    assert_eq!(ptr(1, 2).add(&ptr(1, 3)), Err(ValueAddError::NotAnOffset));
    assert_eq!(felt_value(1).add(&ptr(1, 3)), Err(ValueAddError::NotAnOffset));
    let minus_one = Felt::from_i64(-1);
    assert_eq!(
        ptr(1, 2).add(&MaybeRelocatable::Int(minus_one)),
        Err(ValueAddError::OffsetExceeded(Relocatable::new(1, 2), minus_one))
    );
    assert_eq!(
        ptr(1, 2).add(&MaybeRelocatable::Int(Felt::new(u64::MAX))),
        Err(ValueAddError::OffsetExceeded(Relocatable::new(1, 2), Felt::new(u64::MAX)))
    );
}
