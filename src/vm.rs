use crate::memory_segments::MemorySegmentManager;
use vstd::prelude::*;

verus! {

/// Index of the execution segment, which the `ap` and `fp` registers point into.
pub const EXECUTION_SEGMENT: isize = 1;

/// The registers: program counter, allocation pointer and frame pointer, the last two as
/// offsets into the execution segment.
#[derive(Clone, Copy, Debug, PartialEq, Eq, Structural)]
pub struct RunContext {
    pub pc: usize,
    pub ap: usize,
    pub fp: usize,
}

/// The state that hints read and write: the registers and the segmented memory.
pub struct VirtualMachine {
    pub run_context: RunContext,
    pub segments: MemorySegmentManager,
}

impl VirtualMachine {
    /// A machine with empty memory and all registers at zero.
    pub fn new() -> (r: VirtualMachine)
        ensures
            r.run_context == (RunContext { pc: 0, ap: 0, fp: 0 }),
            r.segments.memory@.data.len() == 0,
            r.segments.memory@.temp_data.len() == 0,
            r.segments.used() is None,
    {
        VirtualMachine {
            run_context: RunContext { pc: 0, ap: 0, fp: 0 },
            segments: MemorySegmentManager::new(),
        }
    }
}

} // verus!
