pub mod errors;
pub mod felt;
pub mod memory;
pub mod relocatable;
pub mod memory_segments;
pub mod hint_utils;
pub mod vm;
pub mod set;
