use crate::errors::{HintError, MemoryError, VirtualMachineError};
use crate::felt::Felt;
use crate::memory::MemoryView;
use crate::relocatable::{addr, MaybeRelocatable, Relocatable};
use crate::vm::{RunContext, VirtualMachine, EXECUTION_SEGMENT};
use vstd::prelude::*;

verus! {

/// The register that a reference is relative to.
#[derive(Clone, Copy, Debug, PartialEq, Eq, Structural)]
pub enum Register {
    AP,
    FP,
}

/// How far `ap` has moved within a group of instructions.
#[derive(Clone, Copy, Debug, PartialEq, Eq, Structural)]
pub struct ApTracking {
    pub group: usize,
    pub offset: usize,
}

/// Where a hint variable lives: `register + offset`, or, with `dereference`, at the address
/// held there. An `ap`-relative reference carries the tracking of `ap` when it was taken.
#[derive(Clone, Copy, Debug, PartialEq, Eq, Structural)]
pub struct HintReference {
    pub register: Register,
    pub offset: i32,
    pub dereference: bool,
    pub ap_tracking_data: Option<ApTracking>,
}

/// The first reference bound to `name`.
pub open spec fn lookup(ids: Seq<(String, HintReference)>, name: Seq<char>) -> Option<HintReference>
    decreases ids.len(),
{
    if ids.len() == 0 {
        None
    } else if ids[0].0@ == name {
        Some(ids[0].1)
    } else {
        lookup(ids.drop_first(), name)
    }
}

/// The register value that a reference starts from, after correcting `ap` for its movement
/// since the reference was taken.
pub open spec fn base_of(rc: RunContext, r: HintReference, tracking: ApTracking) -> Option<int> {
    match r.register {
        Register::FP => Some(rc.fp as int),
        Register::AP => match r.ap_tracking_data {
            Some(t) => if t.group == tracking.group && rc.ap - (tracking.offset - t.offset) >= 0 {
                Some(rc.ap - (tracking.offset - t.offset))
            } else {
                None
            },
            None => None,
        },
    }
}

/// The address of the variable that `r` describes.
pub open spec fn ref_addr(mem: MemoryView, rc: RunContext, r: HintReference, tracking: ApTracking) -> Option<
    Relocatable,
> {
    match base_of(rc, r, tracking) {
        Some(b) => {
            let o = b + r.offset;
            if 0 <= o <= usize::MAX {
                if r.dereference {
                    match mem.cell(EXECUTION_SEGMENT as int, o) {
                        Some(MaybeRelocatable::RelocatableValue(p)) => Some(p),
                        _ => None,
                    }
                } else {
                    Some(addr(EXECUTION_SEGMENT as int, o))
                }
            } else {
                None
            }
        },
        None => None,
    }
}

/// The address of the variable `name`.
pub open spec fn var_addr(
    mem: MemoryView,
    rc: RunContext,
    ids: Seq<(String, HintReference)>,
    name: Seq<char>,
    tracking: ApTracking,
) -> Result<Relocatable, HintError> {
    match lookup(ids, name) {
        None => Err(HintError::UnknownIdentifier),
        Some(r) => match ref_addr(mem, rc, r, tracking) {
            Some(a) => Ok(a),
            None => Err(HintError::FailedToGetIds),
        },
    }
}

/// The field element that the variable `name` holds.
pub open spec fn var_int(
    mem: MemoryView,
    rc: RunContext,
    ids: Seq<(String, HintReference)>,
    name: Seq<char>,
    tracking: ApTracking,
) -> Result<Felt, HintError> {
    match var_addr(mem, rc, ids, name, tracking) {
        Err(e) => Err(e),
        Ok(a) => match mem.cell(a.segment_index as int, a.offset as int) {
            Some(MaybeRelocatable::Int(f)) => Ok(f),
            _ => Err(HintError::Internal(VirtualMachineError::ExpectedInteger(a))),
        },
    }
}

/// The address that the variable `name` holds.
pub open spec fn var_ptr(
    mem: MemoryView,
    rc: RunContext,
    ids: Seq<(String, HintReference)>,
    name: Seq<char>,
    tracking: ApTracking,
) -> Result<Relocatable, HintError> {
    match var_addr(mem, rc, ids, name, tracking) {
        Err(e) => Err(e),
        Ok(a) => match mem.cell(a.segment_index as int, a.offset as int) {
            Some(MaybeRelocatable::RelocatableValue(p)) => Ok(p),
            _ => Err(HintError::Internal(VirtualMachineError::ExpectedRelocatable(a))),
        },
    }
}

/// Memory after writing `v` into the variable `name`.
pub open spec fn var_write(
    mem: MemoryView,
    rc: RunContext,
    ids: Seq<(String, HintReference)>,
    name: Seq<char>,
    tracking: ApTracking,
    v: MaybeRelocatable,
) -> Result<MemoryView, HintError> {
    match var_addr(mem, rc, ids, name, tracking) {
        Err(e) => Err(e),
        Ok(a) => match mem.insert(a.segment_index as int, a.offset as int, v) {
            Ok(m) => Ok(m),
            Err(e) => Err(HintError::Internal(VirtualMachineError::Memory(e))),
        },
    }
}

/// The reference bound to `name`, the first one when several are.
pub fn lookup_reference(name: &str, ids_data: &Vec<(String, HintReference)>) -> (r: Option<
    HintReference,
>)
    ensures
        r == lookup(ids_data@, name@),
{
    let key = name.to_owned();
    let mut i: usize = 0;
    assert(ids_data@.skip(0) =~= ids_data@);
    while i < ids_data.len()
        invariant
            i <= ids_data@.len(),
            key@ == name@,
            lookup(ids_data@, name@) == lookup(ids_data@.skip(i as int), name@),
        decreases ids_data@.len() - i,
    {
        assert(ids_data@.skip(i as int)[0] == ids_data@[i as int]);
        assert(ids_data@.skip(i as int).drop_first() =~= ids_data@.skip(i + 1));
        if ids_data[i].0 == key {
            return Some(ids_data[i].1);
        }
        i = i + 1;
    }
    None
}

/// The address of the variable that `reference` describes.
pub fn compute_addr_from_reference(
    reference: &HintReference,
    vm: &VirtualMachine,
    ap_tracking: &ApTracking,
) -> (r: Option<Relocatable>)
    ensures
        r == ref_addr(vm.segments.memory@, vm.run_context, *reference, *ap_tracking),
{
    let base: i128 = match reference.register {
        Register::FP => vm.run_context.fp as i128,
        Register::AP => match reference.ap_tracking_data {
            None => {
                return None;
            },
            Some(t) => {
                if t.group != ap_tracking.group {
                    return None;
                }
                let b = vm.run_context.ap as i128 - (ap_tracking.offset as i128 - t.offset as i128);
                if b < 0 {
                    return None;
                }
                b
            },
        },
    };
    let o: i128 = base + reference.offset as i128;
    if o < 0 || o > usize::MAX as i128 {
        return None;
    }
    let offset = o as usize;
    let a = Relocatable { segment_index: EXECUTION_SEGMENT, offset };
    if reference.dereference {
        match vm.segments.memory.get(&MaybeRelocatable::RelocatableValue(a)) {
            Ok(Some(MaybeRelocatable::RelocatableValue(p))) => Some(p),
            _ => None,
        }
    } else {
        Some(a)
    }
}

/// The address of the variable `name`.
pub fn get_relocatable_from_var_name(
    name: &str,
    vm: &VirtualMachine,
    ids_data: &Vec<(String, HintReference)>,
    ap_tracking: &ApTracking,
) -> (r: Result<Relocatable, HintError>)
    ensures
        r == var_addr(vm.segments.memory@, vm.run_context, ids_data@, name@, *ap_tracking),
{
    match lookup_reference(name, ids_data) {
        None => Err(HintError::UnknownIdentifier),
        Some(reference) => match compute_addr_from_reference(&reference, vm, ap_tracking) {
            Some(a) => Ok(a),
            None => Err(HintError::FailedToGetIds),
        },
    }
}

/// The field element that the variable `name` holds.
pub fn get_integer_from_var_name(
    name: &str,
    vm: &VirtualMachine,
    ids_data: &Vec<(String, HintReference)>,
    ap_tracking: &ApTracking,
) -> (r: Result<Felt, HintError>)
    ensures
        r == var_int(vm.segments.memory@, vm.run_context, ids_data@, name@, *ap_tracking),
{
    let a = get_relocatable_from_var_name(name, vm, ids_data, ap_tracking)?;
    match vm.segments.memory.get(&MaybeRelocatable::RelocatableValue(a)) {
        Ok(Some(MaybeRelocatable::Int(f))) => Ok(f),
        _ => Err(HintError::Internal(VirtualMachineError::ExpectedInteger(a))),
    }
}

/// The address that the variable `name` holds.
pub fn get_ptr_from_var_name(
    name: &str,
    vm: &VirtualMachine,
    ids_data: &Vec<(String, HintReference)>,
    ap_tracking: &ApTracking,
) -> (r: Result<Relocatable, HintError>)
    ensures
        r == var_ptr(vm.segments.memory@, vm.run_context, ids_data@, name@, *ap_tracking),
{
    let a = get_relocatable_from_var_name(name, vm, ids_data, ap_tracking)?;
    match vm.segments.memory.get(&MaybeRelocatable::RelocatableValue(a)) {
        Ok(Some(MaybeRelocatable::RelocatableValue(p))) => Ok(p),
        _ => Err(HintError::Internal(VirtualMachineError::ExpectedRelocatable(a))),
    }
}

/// Writes `value` into the variable `name` under the write-once rule.
pub fn insert_value_from_var_name(
    name: &str,
    value: MaybeRelocatable,
    vm: &mut VirtualMachine,
    ids_data: &Vec<(String, HintReference)>,
    ap_tracking: &ApTracking,
) -> (r: Result<(), HintError>)
    ensures
        final(vm).run_context == old(vm).run_context,
        final(vm).segments.same_sizes(&old(vm).segments),
        old(vm).segments.memory@.wf() ==> final(vm).segments.memory@.wf(),
        match var_write(
            old(vm).segments.memory@,
            old(vm).run_context,
            ids_data@,
            name@,
            *ap_tracking,
            value,
        ) {
            Ok(m) => r is Ok && final(vm).segments.memory@ == m,
            Err(e) => r == Err::<(), HintError>(e) && final(vm).segments.memory@ == old(
                vm,
            ).segments.memory@,
        },
{
    let a = get_relocatable_from_var_name(name, vm, ids_data, ap_tracking)?;
    match vm.segments.memory.insert_at(&a, value) {
        Ok(()) => Ok(()),
        Err(e) => Err(HintError::Internal(VirtualMachineError::Memory(e))),
    }
}

} // verus!
