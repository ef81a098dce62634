use cairo_memory::errors::MemoryError;
use cairo_memory::felt::Felt;
use cairo_memory::memory_segments::{Arg, CairoArg, MemorySegmentManager};
use cairo_memory::relocatable::{MaybeRelocatable, Relocatable};
use std::collections::HashMap;

fn felt_value(n: u64) -> MaybeRelocatable {
    MaybeRelocatable::Int(Felt::new(n))
}

fn ptr(segment_index: isize, offset: usize) -> MaybeRelocatable {
    MaybeRelocatable::from_pair(segment_index, offset)
}

fn reloc(segment_index: isize, offset: usize) -> Relocatable {
    Relocatable::new(segment_index, offset)
}

/// A manager with enough segments for `cells`, each cell written with its value.
fn segments_with(cells: &[((isize, usize), u64)]) -> MemorySegmentManager {
    let mut segments = MemorySegmentManager::new();
    for ((s, o), v) in cells {
        while segments.num_segments() <= *s as usize {
            segments.add();
        }
        segments.memory.insert(&ptr(*s, *o), &felt_value(*v)).unwrap();
    }
    segments
}

#[test]
fn add_segment_no_size() {
    let mut segments = MemorySegmentManager::new();
    let base = segments.add();
    assert_eq!(base, reloc(0, 0));
    assert_eq!(segments.num_segments(), 1);
}

#[test]
fn add_segment_no_size_test_two_segments() {
    let mut segments = MemorySegmentManager::new();
    let mut _base = segments.add();
    _base = segments.add();
    assert_eq!(
        _base,
        Relocatable {
            segment_index: 1,
            offset: 0
        }
    );
    assert_eq!(segments.num_segments(), 2);
}

#[test]
fn add_one_temporary_segment() {
    let mut segments = MemorySegmentManager::new();
    let base = segments.add_temporary_segment();
    assert_eq!(base, reloc(-1, 0));
    assert_eq!(segments.num_temp_segments(), 1);
}

#[test]
fn add_two_temporary_segments() {
    let mut segments = MemorySegmentManager::new();
    segments.add_temporary_segment();
    let base = segments.add_temporary_segment();
    assert_eq!(
        base,
        Relocatable {
            segment_index: -2,
            offset: 0
        }
    );
    assert_eq!(segments.num_temp_segments(), 2);
}

#[test]
fn load_data_empty() {
    let data = Vec::new();
    let p = ptr(0, 3);
    let mut segments = MemorySegmentManager::new();
    let current_ptr = segments.load_data(&p, &data).unwrap();
    assert_eq!(current_ptr, ptr(0, 3));
}

#[test]
fn load_data_one_element() {
    let data = vec![felt_value(4)];
    let p = ptr(0, 0);
    let mut segments = MemorySegmentManager::new();
    segments.add();
    let current_ptr = segments.load_data(&p, &data).unwrap();
    assert_eq!(current_ptr, ptr(0, 1));
    assert_eq!(segments.memory.get(&p).unwrap().unwrap(), felt_value(4));
}

#[test]
fn load_data_three_elements() {
    let data = vec![felt_value(4), felt_value(5), felt_value(6)];
    let p = ptr(0, 0);
    let mut segments = MemorySegmentManager::new();
    segments.add();
    let current_ptr = segments.load_data(&p, &data).unwrap();
    assert_eq!(current_ptr, ptr(0, 3));

    assert_eq!(segments.memory.get(&p).unwrap().unwrap(), felt_value(4));
    assert_eq!(segments.memory.get(&ptr(0, 1)).unwrap().unwrap(), felt_value(5));
    assert_eq!(segments.memory.get(&ptr(0, 2)).unwrap().unwrap(), felt_value(6));
}

#[test]
fn compute_effective_sizes_for_one_segment_memory() {
    let mut segments = segments_with(&[((0, 0), 1), ((0, 1), 1), ((0, 2), 1)]);
    segments.compute_effective_sizes();
    assert_eq!(Some(vec![3]), segments.segment_used_sizes);
}

#[test]
fn compute_effective_sizes_for_one_segment_memory_with_gap() {
    let mut segments = MemorySegmentManager::new();
    segments.add();
    segments
        .memory
        .insert(&ptr(0, 6), &MaybeRelocatable::from_felt(Felt::new(1)))
        .unwrap();
    segments.compute_effective_sizes();
    assert_eq!(Some(vec![7]), segments.segment_used_sizes);
}

#[test]
fn compute_effective_sizes_for_one_segment_memory_with_gaps() {
    let mut segments = segments_with(&[((0, 3), 1), ((0, 4), 1), ((0, 7), 1), ((0, 9), 1)]);
    segments.compute_effective_sizes();
    assert_eq!(Some(vec![10]), segments.segment_used_sizes);
}

#[test]
fn compute_effective_sizes_for_three_segment_memory() {
    let mut segments = segments_with(&[
        ((0, 0), 1),
        ((0, 1), 1),
        ((0, 2), 1),
        ((1, 0), 1),
        ((1, 1), 1),
        ((1, 2), 1),
        ((2, 0), 1),
        ((2, 1), 1),
        ((2, 2), 1),
    ]);
    segments.compute_effective_sizes();
    assert_eq!(Some(vec![3, 3, 3]), segments.segment_used_sizes);
}

#[test]
fn compute_effective_sizes_for_three_segment_memory_with_gaps() {
    let mut segments = segments_with(&[
        ((0, 2), 1),
        ((0, 5), 1),
        ((0, 7), 1),
        ((1, 1), 1),
        ((2, 2), 1),
        ((2, 4), 1),
        ((2, 7), 1),
    ]);
    segments.compute_effective_sizes();
    assert_eq!(Some(vec![8, 2, 8]), segments.segment_used_sizes);
}

#[test]
fn get_segment_used_size_after_computing_used() {
    let mut segments = segments_with(&[
        ((0, 2), 1),
        ((0, 5), 1),
        ((0, 7), 1),
        ((1, 1), 1),
        ((2, 2), 1),
        ((2, 4), 1),
        ((2, 7), 1),
    ]);
    segments.compute_effective_sizes();
    assert_eq!(Some(8), segments.get_segment_used_size(2));
}

#[test]
fn get_segment_used_size_before_computing_used() {
    let segments = MemorySegmentManager::new();
    assert_eq!(None, segments.get_segment_used_size(2));
}

#[test]
fn relocate_segments_one_segment() {
    let mut segments = MemorySegmentManager::new();
    segments.segment_used_sizes = Some(vec![3]);
    assert_eq!(
        segments
            .relocate_segments()
            .expect("Couldn't relocate after compute effective sizes"),
        vec![1]
    )
}

#[test]
fn relocate_segments_five_segment() {
    let mut segments = MemorySegmentManager::new();
    segments.segment_used_sizes = Some(vec![3, 3, 56, 78, 8]);
    assert_eq!(
        segments
            .relocate_segments()
            .expect("Couldn't relocate after compute effective sizes"),
        vec![1, 4, 7, 63, 141]
    )
}

#[test]
fn relocate_segments_segment_added_after_sizes() {
    let mut segments = MemorySegmentManager::new();
    segments.add();
    segments.compute_effective_sizes();
    segments.add();
    assert_eq!(
        segments.relocate_segments(),
        Err(MemoryError::SegmentNotFinalized(1))
    );
    segments.finalize(Some(4), 1, None);
    assert_eq!(segments.relocate_segments(), Ok(vec![1, 1]));
}

#[test]
fn write_arg_with_apply_modulo() {
    // The prime plus one, limb by limb.
    let big_num = Felt::from_limbs(2, 0, 0, cairo_memory::felt::PRIME_HIGH_LIMB);
    let big_maybe_rel = MaybeRelocatable::from_felt(big_num);
    let data = vec![felt_value(11), felt_value(12), big_maybe_rel];
    let p = reloc(1, 0);
    let mut segments = MemorySegmentManager::new();
    for _ in 0..2 {
        segments.add();
    }

    let exec = segments.write_arg(p, &Arg::Values(data));

    assert_eq!(exec, Ok(ptr(1, 3)));
    assert_eq!(
        segments.memory.data[1],
        vec![
            Some(felt_value(11)),
            Some(felt_value(12)),
            Some(felt_value(1)),
        ]
    );
}

#[test]
fn write_arg_relocatable() {
    let data = vec![reloc(0, 1), reloc(0, 2), reloc(0, 3)];
    let p = reloc(1, 0);
    let mut segments = MemorySegmentManager::new();
    for _ in 0..2 {
        segments.add();
    }

    let exec = segments.write_arg(p, &Arg::Relocatables(data));

    assert_eq!(exec, Ok(ptr(1, 3)));
    assert_eq!(
        segments.memory.data[1],
        vec![Some(ptr(0, 1)), Some(ptr(0, 2)), Some(ptr(0, 3))]
    );
}

#[test]
fn segment_default() {
    let segment_mng_new = MemorySegmentManager::new();
    let segment_mng_def: MemorySegmentManager = Default::default();
    assert_eq!(
        segment_mng_new.num_segments(),
        segment_mng_def.num_segments()
    );
    assert_eq!(
        segment_mng_new.segment_used_sizes,
        segment_mng_def.segment_used_sizes
    );
}

#[test]
fn is_valid_memory_value_missing_effective_sizes() {
    let segment_manager = MemorySegmentManager::new();

    assert_eq!(
        segment_manager.is_valid_memory_value(&felt_value(0)),
        Err(MemoryError::EffectiveSizesNotCalled),
    );
}

#[test]
fn is_valid_memory_value_temporary_segment() {
    let mut segment_manager = MemorySegmentManager::new();

    segment_manager.segment_used_sizes = Some(vec![10]);
    assert_eq!(
        segment_manager.is_valid_memory_value(&ptr(-1, 0)),
        Err(MemoryError::AddressInTemporarySegment(-1)),
    );
}

#[test]
fn is_valid_memory_value_invalid_segment() {
    let mut segment_manager = MemorySegmentManager::new();

    segment_manager.segment_used_sizes = Some(vec![10]);
    assert_eq!(
        segment_manager.is_valid_memory_value(&ptr(1, 0)),
        Ok(false),
    );
}

#[test]
fn is_valid_memory_value() {
    let mut segment_manager = MemorySegmentManager::new();

    segment_manager.segment_used_sizes = Some(vec![10]);
    assert_eq!(
        segment_manager.is_valid_memory_value(&ptr(0, 5)),
        Ok(true),
    );
}

#[test]
fn get_memory_holes_missing_segment_used_sizes() {
    let memory_segment_manager = MemorySegmentManager::new();
    let accessed_addresses = Vec::new();

    assert_eq!(
        memory_segment_manager.get_memory_holes(&accessed_addresses),
        Err(MemoryError::MissingSegmentUsedSizes),
    );
}

#[test]
fn get_memory_holes_segment_not_finalized() {
    let mut memory_segment_manager = MemorySegmentManager::new();
    memory_segment_manager.segment_used_sizes = Some(Vec::new());

    let accessed_addresses = vec![reloc(0, 0), reloc(0, 1), reloc(0, 2), reloc(0, 3)];
    assert_eq!(
        memory_segment_manager.get_memory_holes(&accessed_addresses),
        Err(MemoryError::SegmentNotFinalized(0)),
    );
}

#[test]
fn get_memory_holes_out_of_address_offset_bigger_than_size() {
    let mut memory_segment_manager = MemorySegmentManager::new();
    memory_segment_manager.segment_used_sizes = Some(vec![2]);

    let accessed_addresses = vec![reloc(0, 0), reloc(0, 1), reloc(0, 2), reloc(0, 3)];
    assert_eq!(
        memory_segment_manager.get_memory_holes(&accessed_addresses),
        Err(MemoryError::AccessedAddressOffsetBiggerThanSegmentSize(
            reloc(0, 3),
            2
        )),
    );
}

#[test]
fn get_memory_holes_empty() {
    let mut memory_segment_manager = MemorySegmentManager::new();
    memory_segment_manager.segment_used_sizes = Some(Vec::new());

    let accessed_addresses = Vec::new();
    assert_eq!(
        memory_segment_manager.get_memory_holes(&accessed_addresses),
        Ok(0),
    );
}

#[test]
fn get_memory_holes_empty2() {
    let mut memory_segment_manager = MemorySegmentManager::new();
    memory_segment_manager.segment_used_sizes = Some(vec![4]);

    let accessed_addresses = Vec::new();
    assert_eq!(
        memory_segment_manager.get_memory_holes(&accessed_addresses),
        Ok(0),
    );
}

#[test]
fn get_memory_holes() {
    let mut memory_segment_manager = MemorySegmentManager::new();
    memory_segment_manager.segment_used_sizes = Some(vec![10]);

    let accessed_addresses = vec![
        reloc(0, 0),
        reloc(0, 1),
        reloc(0, 2),
        reloc(0, 3),
        reloc(0, 6),
        reloc(0, 7),
        reloc(0, 8),
        reloc(0, 9),
    ];
    assert_eq!(
        memory_segment_manager.get_memory_holes(&accessed_addresses),
        Ok(2),
    );
}

#[test]
fn get_memory_holes2() {
    let mut memory_segment_manager = MemorySegmentManager::new();

    memory_segment_manager.segment_sizes = HashMap::from([(0, 15)]);
    memory_segment_manager.segment_used_sizes = Some(vec![10]);
    let accessed_addresses = vec![
        reloc(0, 0),
        reloc(0, 1),
        reloc(0, 2),
        reloc(0, 3),
        reloc(0, 6),
        reloc(0, 7),
        reloc(0, 8),
        reloc(0, 9),
    ];
    assert_eq!(
        memory_segment_manager.get_memory_holes(&accessed_addresses),
        Ok(7),
    );
}

#[test]
fn get_memory_size_missing_segment() {
    let memory_segment_manager = MemorySegmentManager::new();

    assert_eq!(memory_segment_manager.get_segment_size(0), None);
}

#[test]
fn get_memory_size_used() {
    let mut memory_segment_manager = MemorySegmentManager::new();
    memory_segment_manager.segment_used_sizes = Some(vec![5]);

    assert_eq!(memory_segment_manager.get_segment_size(0), Some(5));
}

#[test]
fn get_memory_size() {
    let mut memory_segment_manager = MemorySegmentManager::new();
    memory_segment_manager.segment_sizes = HashMap::from([(0, 5)]);

    assert_eq!(memory_segment_manager.get_segment_size(0), Some(5));
}

#[test]
fn get_memory_size2() {
    let mut memory_segment_manager = MemorySegmentManager::new();
    memory_segment_manager.segment_sizes = HashMap::from([(0, 5)]);
    memory_segment_manager.segment_used_sizes = Some(vec![3]);

    assert_eq!(memory_segment_manager.get_segment_size(0), Some(5));
}

#[test]
fn gen_arg_relocatable() {
    let mut memory_segment_manager = MemorySegmentManager::new();

    let r = memory_segment_manager.gen_arg(&Arg::Value(ptr(0, 0)));
    assert!(matches!(r, Ok(x) if x == ptr(0, 0)));
}

#[test]
fn gen_arg_bigint() {
    let mut memory_segment_manager = MemorySegmentManager::new();

    let r = memory_segment_manager.gen_arg(&Arg::Value(felt_value(1234)));
    assert!(matches!(r, Ok(x) if x == felt_value(1234)));
}

#[test]
fn gen_arg_vec() {
    let mut memory_segment_manager = MemorySegmentManager::new();

    let r = memory_segment_manager.gen_arg(&Arg::Values(vec![
        felt_value(0),
        felt_value(1),
        felt_value(2),
        felt_value(3),
        ptr(0, 0),
        ptr(0, 1),
        ptr(0, 2),
        ptr(0, 3),
    ]));
    assert!(matches!(r, Ok(x) if x == ptr(0, 0)));
}

#[test]
fn gen_arg_vec_relocatable() {
    let mut memory_segment_manager = MemorySegmentManager::new();

    let r = memory_segment_manager.gen_arg(&Arg::Values(vec![
        ptr(0, 0),
        ptr(0, 1),
        ptr(0, 2),
        ptr(0, 3),
    ]));
    assert!(matches!(r, Ok(x) if x == ptr(0, 0)));
}

#[test]
fn finalize_no_size_nor_memory_no_change() {
    let mut segments = MemorySegmentManager::new();
    segments.finalize(None, 0, None);
    assert!(segments.memory.data.is_empty());
    assert!(segments.memory.temp_data.is_empty());
    assert!(segments.public_memory_offsets.is_empty());
    assert_eq!(segments.num_segments(), 0);
    assert_eq!(segments.num_temp_segments(), 0);
}

#[test]
fn finalize_no_memory() {
    let mut segments = MemorySegmentManager::new();
    segments.finalize(Some(42), 0, None);
    assert!(segments.public_memory_offsets.is_empty());
    assert_eq!(segments.segment_sizes, HashMap::from([(0, 42)]));
}

#[test]
fn finalize_no_size() {
    let mut segments = MemorySegmentManager::new();
    segments.finalize(None, 0, Some(&vec![(1_usize, 2_usize)]));
    assert_eq!(
        segments.public_memory_offsets,
        HashMap::from([(0_usize, vec![(1_usize, 2_usize)])])
    );
    assert!(segments.segment_sizes.is_empty());
}

#[test]
fn finalize_all_args() {
    let mut segments = MemorySegmentManager::new();
    segments.finalize(Some(42), 0, Some(&vec![(1_usize, 2_usize)]));
    assert_eq!(
        segments.public_memory_offsets,
        HashMap::from([(0_usize, vec![(1_usize, 2_usize)])])
    );
    assert_eq!(segments.segment_sizes, HashMap::from([(0, 42)]));
}

#[test]
fn gen_cairo_arg_single() {
    let mut memory_segment_manager = MemorySegmentManager::new();

    let r = memory_segment_manager.gen_cairo_arg(&CairoArg::Single(felt_value(1234)));
    assert!(matches!(r, Ok(x) if x == felt_value(1234)));
}

#[test]
fn gen_cairo_arg_array() {
    let mut memory_segment_manager = MemorySegmentManager::new();

    let r = memory_segment_manager.gen_cairo_arg(&CairoArg::Array(vec![
        felt_value(0),
        felt_value(1),
        felt_value(2),
        felt_value(3),
        ptr(0, 0),
        ptr(0, 1),
        ptr(0, 2),
        ptr(0, 3),
    ]));
    assert!(matches!(r, Ok(x) if x == ptr(0, 0)));
}

#[test]
fn gen_cairo_arg_composed() {
    let mut memory_segment_manager = MemorySegmentManager::new();
    let cairo_args = CairoArg::Composed(vec![
        CairoArg::Array(vec![felt_value(0), felt_value(1), felt_value(2)]),
        CairoArg::Single(felt_value(1234)),
        CairoArg::Single(felt_value(5678)),
        CairoArg::Array(vec![felt_value(3), felt_value(4), felt_value(5)]),
    ]);

    let r = memory_segment_manager.gen_cairo_arg(&cairo_args);
    assert!(matches!(r, Ok(x) if x == ptr(2, 0)));
}
