use crate::errors::{HintError, MemoryError, VirtualMachineError};
use crate::felt::{felt_of, Felt};
use crate::hint_utils::{
    get_integer_from_var_name, get_ptr_from_var_name, insert_value_from_var_name, var_int,
    var_ptr, var_write, ApTracking, HintReference,
};
use crate::memory::MemoryView;
use crate::relocatable::{addr, spec_gt, spec_sub, AddressSubError, MaybeRelocatable, Relocatable};
use crate::vm::{RunContext, VirtualMachine};
use vstd::prelude::*;

verus! {

/// Looks for `elm` among the rows of width `s` that start at offsets `i, i + s, ...` below
/// `range` from `set_ptr`: the index of the first equal row, or the gap that stops the
/// search.
pub open spec fn find_row(
    mem: MemoryView,
    set_ptr: Relocatable,
    s: int,
    range: int,
    elm: Seq<MaybeRelocatable>,
    i: int,
) -> Result<Option<int>, MemoryError>
    decreases if i < range {
        range - i
    } else {
        0
    },
{
    if s <= 0 {
        Ok(None)
    } else if i >= range {
        Ok(None)
    } else {
        let seg = set_ptr.segment_index as int;
        let off = set_ptr.offset + i;
        if !mem.populated(seg, off, s) {
            Err(MemoryError::GetRangeMemoryGap(addr(seg, off), s as usize))
        } else if mem.values(seg, off, s) == elm {
            Ok(Some(i / s))
        } else {
            find_row(mem, set_ptr, s, range, elm, i + s)
        }
    }
}

/// Memory after writing the search result: `index` and `is_elm_in_set = 1` on a match,
/// `is_elm_in_set = 0` otherwise.
pub open spec fn record_result(
    mem: MemoryView,
    rc: RunContext,
    ids: Seq<(String, HintReference)>,
    tracking: ApTracking,
    found: Option<int>,
) -> (MemoryView, Result<(), HintError>) {
    match found {
        Some(k) => match var_write(
            mem,
            rc,
            ids,
            "index"@,
            tracking,
            MaybeRelocatable::Int(felt_of(k as u64)),
        ) {
            Err(e) => (mem, Err(e)),
            Ok(m1) => match var_write(
                m1,
                rc,
                ids,
                "is_elm_in_set"@,
                tracking,
                MaybeRelocatable::Int(felt_of(1)),
            ) {
                Err(e) => (m1, Err(e)),
                Ok(m2) => (m2, Ok(())),
            },
        },
        None => match var_write(
            mem,
            rc,
            ids,
            "is_elm_in_set"@,
            tracking,
            MaybeRelocatable::Int(felt_of(0)),
        ) {
            Err(e) => (mem, Err(e)),
            Ok(m1) => (m1, Ok(())),
        },
    }
}

/// Memory and outcome of `set_add`.
pub open spec fn set_add_outcome(
    mem: MemoryView,
    rc: RunContext,
    ids: Seq<(String, HintReference)>,
    tracking: ApTracking,
) -> (MemoryView, Result<(), HintError>) {
    match var_ptr(mem, rc, ids, "set_ptr"@, tracking) {
        Err(e) => (mem, Err(e)),
        Ok(set_ptr) => match var_int(mem, rc, ids, "elm_size"@, tracking) {
            Err(e) => (mem, Err(e)),
            Ok(f) => if f.value() > usize::MAX {
                (mem, Err(HintError::Internal(VirtualMachineError::BigintToUsizeFail)))
            } else {
                let s = f.value();
                match var_ptr(mem, rc, ids, "elm_ptr"@, tracking) {
                    Err(e) => (mem, Err(e)),
                    Ok(elm_ptr) => match var_ptr(mem, rc, ids, "set_end_ptr"@, tracking) {
                        Err(e) => (mem, Err(e)),
                        Ok(end) => if s == 0 {
                            (
                                mem,
                                Err(
                                    HintError::Internal(
                                        VirtualMachineError::ValueNotPositive(felt_of(0)),
                                    ),
                                ),
                            )
                        } else if !mem.populated(
                            elm_ptr.segment_index as int,
                            elm_ptr.offset as int,
                            s,
                        ) {
                            (
                                mem,
                                Err(
                                    HintError::Internal(
                                        VirtualMachineError::Memory(
                                            MemoryError::GetRangeMemoryGap(elm_ptr, s as usize),
                                        ),
                                    ),
                                ),
                            )
                        } else if spec_gt(set_ptr, end) {
                            (
                                mem,
                                Err(
                                    HintError::InvalidSetRange(
                                        MaybeRelocatable::RelocatableValue(set_ptr),
                                        MaybeRelocatable::RelocatableValue(end),
                                    ),
                                ),
                            )
                        } else {
                            match spec_sub(end, set_ptr) {
                                Err(AddressSubError::DiffIndexSub) => (
                                    mem,
                                    Err(HintError::Internal(VirtualMachineError::DiffIndexSub)),
                                ),
                                Err(AddressSubError::CantSubOffset(a, b)) => (
                                    mem,
                                    Err(HintError::Internal(VirtualMachineError::CantSubOffset(a, b))),
                                ),
                                Ok(range) => {
                                    let elm = mem.values(
                                        elm_ptr.segment_index as int,
                                        elm_ptr.offset as int,
                                        s,
                                    );
                                    match find_row(mem, set_ptr, s, range as int, elm, 0) {
                                        Err(e) => (
                                            mem,
                                            Err(HintError::Internal(VirtualMachineError::Memory(e))),
                                        ),
                                        Ok(found) => record_result(mem, rc, ids, tracking, found),
                                    }
                                },
                            }
                        },
                    },
                }
            },
        },
    }
}

/// Whether two value sequences are equal.
fn same_values(a: &Vec<MaybeRelocatable>, b: &Vec<MaybeRelocatable>) -> (r: bool)
    ensures
        r == (a@ == b@),
{
    if a.len() != b.len() {
        return false;
    }
    let mut i: usize = 0;
    while i < a.len()
        invariant
            a@.len() == b@.len(),
            i <= a@.len(),
            forall|j: int| 0 <= j < i ==> a@[j] == b@[j],
        decreases a@.len() - i,
    {
        if a[i] != b[i] {
            return false;
        }
        i = i + 1;
    }
    assert(a@ =~= b@);
    true
}

/// Looks for the `elm_size`-word element at `elm_ptr` among the rows of the set
/// `[set_ptr, set_end_ptr)`. On a match writes its row number to `index` and `1` to
/// `is_elm_in_set`; otherwise writes `0` to `is_elm_in_set`.
pub fn set_add(
    vm: &mut VirtualMachine,
    ids_data: &Vec<(String, HintReference)>,
    ap_tracking: &ApTracking,
) -> (r: Result<(), HintError>)
    ensures
        final(vm).run_context == old(vm).run_context,
        final(vm).segments.same_sizes(&old(vm).segments),
        old(vm).segments.memory@.wf() ==> final(vm).segments.memory@.wf(),
        (final(vm).segments.memory@, r) == set_add_outcome(
            old(vm).segments.memory@,
            old(vm).run_context,
            ids_data@,
            *ap_tracking,
        ),
{
    let set_ptr = get_ptr_from_var_name("set_ptr", vm, ids_data, ap_tracking)?;
    let elm_size_value = get_integer_from_var_name("elm_size", vm, ids_data, ap_tracking)?;
    let elm_size = match elm_size_value.to_usize() {
        Some(n) => n,
        None => {
            return Err(HintError::Internal(VirtualMachineError::BigintToUsizeFail));
        },
    };
    let elm_ptr = get_ptr_from_var_name("elm_ptr", vm, ids_data, ap_tracking)?;
    let set_end_ptr = get_ptr_from_var_name("set_end_ptr", vm, ids_data, ap_tracking)?;
    if elm_size == 0 {
        return Err(HintError::Internal(VirtualMachineError::ValueNotPositive(Felt::zero())));
    }
    let elm = match vm.segments.memory.get_range(&elm_ptr, elm_size) {
        Ok(v) => v,
        Err(e) => {
            return Err(HintError::Internal(VirtualMachineError::Memory(e)));
        },
    };
    if set_ptr.gt(&set_end_ptr) {
        return Err(
            HintError::InvalidSetRange(
                MaybeRelocatable::RelocatableValue(set_ptr),
                MaybeRelocatable::RelocatableValue(set_end_ptr),
            ),
        );
    }
    let range_limit = match set_end_ptr.sub(&set_ptr) {
        Ok(d) => d,
        Err(AddressSubError::DiffIndexSub) => {
            return Err(HintError::Internal(VirtualMachineError::DiffIndexSub));
        },
        Err(AddressSubError::CantSubOffset(a, b)) => {
            return Err(HintError::Internal(VirtualMachineError::CantSubOffset(a, b)));
        },
    };
    let ghost mem = vm.segments.memory@;
    let ghost s = elm_size as int;
    let mut i: usize = 0;
    while i < range_limit
        invariant
            vm.segments.memory@ == mem,
            mem == old(vm).segments.memory@,
            vm.run_context == old(vm).run_context,
            vm.segments.same_sizes(&old(vm).segments),
            set_add_outcome(mem, vm.run_context, ids_data@, *ap_tracking) == match find_row(
                mem,
                set_ptr,
                s,
                range_limit as int,
                elm@,
                0,
            ) {
                Err(e) => (mem, Err(HintError::Internal(VirtualMachineError::Memory(e)))),
                Ok(found) => record_result(mem, vm.run_context, ids_data@, *ap_tracking, found),
            },
            s == elm_size,
            elm_size > 0,
            i <= range_limit,
            set_ptr.offset + range_limit <= usize::MAX,
            find_row(mem, set_ptr, s, range_limit as int, elm@, 0) == find_row(
                mem,
                set_ptr,
                s,
                range_limit as int,
                elm@,
                i as int,
            ),
        decreases range_limit - i,
    {
        let start = set_ptr.add_usize(i);
        assert(start == addr(set_ptr.segment_index as int, set_ptr.offset + i));
        let row = match vm.segments.memory.get_range(&start, elm_size) {
            Ok(v) => v,
            Err(e) => {
                return Err(HintError::Internal(VirtualMachineError::Memory(e)));
            },
        };
        if same_values(&row, &elm) {
            assert(find_row(mem, set_ptr, s, range_limit as int, elm@, i as int) == Ok::<
                Option<int>,
                MemoryError,
            >(Some(i as int / s)));
            insert_value_from_var_name(
                "index",
                MaybeRelocatable::Int(Felt::from_usize(i / elm_size)),
                vm,
                ids_data,
                ap_tracking,
            )?;
            let r = insert_value_from_var_name(
                "is_elm_in_set",
                MaybeRelocatable::Int(Felt::one()),
                vm,
                ids_data,
                ap_tracking,
            );
            return match r {
                Ok(_) => Ok(()),
                Err(e) => Err(e),
            };
        }
        assert(find_row(mem, set_ptr, s, range_limit as int, elm@, i as int) == find_row(
            mem,
            set_ptr,
            s,
            range_limit as int,
            elm@,
            i + s,
        ));
        if range_limit - i <= elm_size {
            i = range_limit;
        } else {
            i = i + elm_size;
        }
    }
    assert(find_row(mem, set_ptr, s, range_limit as int, elm@, 0) == Ok::<
        Option<int>,
        MemoryError,
    >(None));
    let r = insert_value_from_var_name(
        "is_elm_in_set",
        MaybeRelocatable::Int(Felt::zero()),
        vm,
        ids_data,
        ap_tracking,
    );
    match r {
        Ok(_) => Ok(()),
        Err(e) => Err(e),
    }
}

} // verus!
