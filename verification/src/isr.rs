//! Interrupt dispatch registry: one optional handler per vector. The
//! kernel registers its device handlers here by name; the common
//! dispatcher (on the kernel handle) looks a handler up by the vector
//! number the stub pushed and acknowledges IRQs after it returns.

use vstd::prelude::*;

verus! {

pub const ISR_VECTORS: usize = 256;

/// The register frame the interrupt stub pushes before entering the
/// dispatcher: saved data segment, general-purpose registers, the vector
/// number and error code, and the CPU-pushed return state.
#[derive(Debug, Clone, Copy, PartialEq, Eq, Structural)]
pub struct Registers {
    pub ds: u32,
    pub edi: u32,
    pub esi: u32,
    pub ebp: u32,
    pub esp: u32,
    pub ebx: u32,
    pub edx: u32,
    pub ecx: u32,
    pub eax: u32,
    pub int_no: u32,
    pub err_code: u32,
    pub eip: u32,
    pub cs: u32,
    pub eflags: u32,
    pub useresp: u32,
    pub ss: u32,
}

/// The device handlers this kernel registers.
#[derive(Debug, Clone, Copy, PartialEq, Eq, Structural)]
pub enum Handler {
    Timer,
    Keyboard,
}

/// The registry: 256 slots, one per vector, empty at boot.
pub struct IsrTable {
    pub handlers: Vec<Option<Handler>>,
}

impl IsrTable {
    pub open spec fn wf(self) -> bool {
        self.handlers@.len() == ISR_VECTORS
    }

    /// Install `handler` for vector `n`; the last writer wins.
    pub fn register_interrupt_handler(&mut self, n: u8, handler: Handler)
        requires
            old(self).wf(),
        ensures
            final(self).wf(),
            final(self).handlers@ == old(self).handlers@.update(n as int, Some(handler)),
    {
        self.handlers[n as usize] = Some(handler);
    }
}

/// An empty registry: no vector has a handler.
pub fn new_isr_table() -> (r: IsrTable)
    ensures
        r.wf(),
        forall|i: int| 0 <= i < ISR_VECTORS ==> r.handlers@[i] is None,
{
    let mut handlers: Vec<Option<Handler>> = Vec::new();
    let mut i: usize = 0;
    while i < ISR_VECTORS
        invariant
            i <= ISR_VECTORS,
            handlers@.len() == i,
            forall|j: int| 0 <= j < i ==> handlers@[j] is None,
        decreases ISR_VECTORS - i,
    {
        handlers.push(None);
        i = i + 1;
    }
    IsrTable { handlers }
}

} // verus!
