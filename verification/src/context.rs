use vstd::prelude::*;

verus! {

/// Whether a memory access was a read or a write.
#[derive(Debug, Clone, Copy, PartialEq, Eq, Structural)]
pub enum AccessType {
    Read,
    Write,
}

/// Context information recorded with a memory access.
#[derive(Debug, Clone, Copy, PartialEq, Eq, Structural)]
pub struct EmulatorContext {
    /// Current frame number.
    pub frame: u64,
    /// Current cycle count.
    pub cycle: u64,
    /// Program counter at the time of the access.
    pub pc: u16,
    /// Last controller input state.
    pub last_input: u8,
}

impl EmulatorContext {
    /// A context with all fields zero, used before the first step.
    pub fn new() -> (r: EmulatorContext)
        ensures
            r.frame == 0 && r.cycle == 0 && r.pc == 0 && r.last_input == 0,
    {
        EmulatorContext { frame: 0, cycle: 0, pc: 0, last_input: 0 }
    }
}

/// One CPU-visible memory access, as recorded by the bus for observers.
#[derive(Debug, Clone, Copy, PartialEq, Eq)]
pub struct MemoryAccess {
    /// Memory address accessed.
    pub address: u16,
    /// Value read or written.
    pub value: u8,
    /// Whether the access was a read or a write.
    pub access_type: AccessType,
    /// Emulator context at the time of the access.
    pub context: EmulatorContext,
    /// For writes: the old value before writing.
    pub old_value: Option<u8>,
}

} // verus!
