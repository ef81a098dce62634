use crate::felt::Felt;
use crate::relocatable::{MaybeRelocatable, Relocatable};
use vstd::prelude::*;

verus! {

/// Failures of the memory store and of the segment manager.
#[derive(Clone, Copy, Debug, PartialEq, Eq, Structural)]
pub enum MemoryError {
    /// A write was aimed at a field element instead of an address.
    AddressNotRelocatable,
    /// The segment at this physical slot does not exist; the second field is how many do.
    UnallocatedSegment(usize, usize),
    /// A write-once cell already holds another value: address, held value, new value.
    InconsistentMemory(MaybeRelocatable, MaybeRelocatable, MaybeRelocatable),
    /// A range read met a cell that holds no value: start and length of the range.
    GetRangeMemoryGap(Relocatable, usize),
    /// A segment has neither a declared nor an effective size.
    SegmentNotFinalized(usize),
    /// The effective sizes have not been computed yet.
    EffectiveSizesNotCalled,
    /// The effective sizes are needed to count holes.
    MissingSegmentUsedSizes,
    /// An argument of a shape that cannot be written into memory.
    GenArgInvalidType,
    /// `write_arg` was handed a single value instead of a sequence.
    WriteArg,
    /// A temporary segment's address was offered as a memory value.
    AddressInTemporarySegment(isize),
    /// An accessed address lies beyond its segment's size.
    AccessedAddressOffsetBiggerThanSegmentSize(Relocatable, usize),
}

/// Failures of the virtual machine's own checks.
#[derive(Clone, Copy, Debug, PartialEq, Eq, Structural)]
pub enum VirtualMachineError {
    Memory(MemoryError),
    /// A field element did not fit in a word count.
    BigintToUsizeFail,
    /// A value that had to be positive was not.
    ValueNotPositive(Felt),
    /// Two addresses in different segments were subtracted.
    DiffIndexSub,
    /// A subtraction of addresses would go below offset zero.
    CantSubOffset(usize, usize),
    /// A cell held an address where a field element was expected.
    ExpectedInteger(Relocatable),
    /// A cell held a field element where an address was expected.
    ExpectedRelocatable(Relocatable),
    /// The cell that a variable names holds no value.
    UnknownMemoryCell(Relocatable),
}

/// Failures of a hint.
#[derive(Clone, Copy, Debug, PartialEq, Eq, Structural)]
pub enum HintError {
    Internal(VirtualMachineError),
    /// The variable is not among the hint's references.
    UnknownIdentifier,
    /// The variable's reference cannot be resolved against the registers.
    FailedToGetIds,
    /// The set's start lies after its end.
    InvalidSetRange(MaybeRelocatable, MaybeRelocatable),
}

/// Failures of the runner that drives a program.
#[derive(Clone, Debug, PartialEq, Eq)]
pub enum RunnerError {
    NoExecBase,
    NoExecBaseForEntrypoint,
    NoProgBase,
    MissingMain,
    BaseNotFinished,
    WriteFail,
    NoPC,
    NoAP,
    NoFP,
    MemoryValidationError(MemoryError),
    MemoryInitializationError(MemoryError),
    FailedStringConversion,
    EcOpBuiltinScalarLimit(Felt),
    DisorderedBuiltins,
    IntegerBiggerThanPowerOfTwo(MaybeRelocatable, u32, Felt),
    EcOpSameXCoordinate(String),
    PointNotOnCurve(Felt, Felt),
    NoBuiltinForInstance(Vec<String>, String),
    InvalidLayoutName(String),
    RunAlreadyFinished,
    FinalizeNoEndRun,
    ReadReturnValuesNoEndRun,
    BuiltinNotIncluded(String),
    BuiltinSegmentNameCollision(String),
    FinalizeSegements(MemoryError),
    FinalizeSegmentsNoProofMode,
    InvalidStopPointerIndex(String, Relocatable, usize),
    InvalidStopPointer(String, Relocatable, Relocatable),
    NoStopPointer(String),
    NoProgramStart,
    NoProgramEnd,
    SliceToArrayError,
    MissingBuiltin(String),
    FailedAddingReturnValues,
    NoExecPublicMemory,
    CouldntParsePrime,
    MaybeRelocVecToU64ArrayError,
    FoundNonInt,
    SafeDivFailUsize(usize, usize),
    Memory(MemoryError),
    KeccakNoFirstInput,
    KeccakInputCellsNotU64,
}

} // verus!
