//! Interrupt descriptor table: 256 gate descriptors in the exact 8-byte
//! layout the CPU consumes (offset[15:0], selector, reserved zero,
//! type/DPL/present byte, offset[31:16]).

use vstd::prelude::*;

verus! {

pub const IDT_ENTRIES: usize = 256;

/// One interrupt-gate descriptor, field for field as the CPU reads it.
#[derive(Clone, Copy, PartialEq, Eq, Structural, Debug)]
pub struct IdtEntry {
    pub offset_low: u16,
    pub selector: u16,
    pub zero: u8,
    pub type_attr: u8,
    pub offset_high: u16,
}

/// An all-zero gate: not present, so the vector faults if raised.
pub open spec fn spec_zero_gate() -> IdtEntry {
    IdtEntry { offset_low: 0, selector: 0, zero: 0, type_attr: 0, offset_high: 0 }
}

/// How (offset, selector, flags) is packed into a gate; registration
/// always ORs in the present bit (0x80).
pub open spec fn spec_idt_gate(offset: u32, selector: u16, flags: u8) -> IdtEntry {
    IdtEntry {
        offset_low: (offset & 0xFFFF) as u16,
        selector: selector,
        zero: 0,
        type_attr: (flags | 0x80) as u8,
        offset_high: ((offset >> 16) & 0xFFFF) as u16,
    }
}

/// The interrupt descriptor table: exactly 256 gates.
pub struct Idt {
    pub entries: Vec<IdtEntry>,
}

impl Idt {
    pub open spec fn wf(self) -> bool {
        self.entries@.len() == IDT_ENTRIES
    }

    /// Install a gate descriptor for vector `num`, setting the present bit.
    pub fn idt_set_gate(&mut self, num: u8, offset: u32, selector: u16, flags: u8)
        requires
            old(self).wf(),
        ensures
            final(self).wf(),
            final(self).entries@ == old(self).entries@.update(
                num as int,
                spec_idt_gate(offset, selector, flags),
            ),
    {
        let entry = IdtEntry {
            offset_low: (offset & 0xFFFF) as u16,
            selector: selector,
            zero: 0,
            type_attr: flags | 0x80,
            offset_high: ((offset >> 16) & 0xFFFF) as u16,
        };
        self.entries[num as usize] = entry;
    }

    /// The limit word of the pointer-descriptor handed to `lidt`: the size
    /// of the table in bytes, minus one.
    pub fn descriptor_limit(&self) -> (r: u16)
        ensures
            r == 2047,
    {
        2047
    }
}

/// Build the table with every gate zeroed (not present). Loading the table
/// pointer into the CPU is the machine edge and lies outside this model.
pub fn init_idt() -> (r: Idt)
    ensures
        r.wf(),
        forall|i: int| 0 <= i < 256 ==> r.entries@[i] == spec_zero_gate(),
{
    let mut entries: Vec<IdtEntry> = Vec::new();
    let mut i: usize = 0;
    while i < IDT_ENTRIES
        invariant
            i <= IDT_ENTRIES,
            entries@.len() == i,
            forall|j: int| 0 <= j < i ==> entries@[j] == spec_zero_gate(),
        decreases IDT_ENTRIES - i,
    {
        entries.push(IdtEntry { offset_low: 0, selector: 0, zero: 0, type_attr: 0, offset_high: 0 });
        i = i + 1;
    }
    Idt { entries }
}

} // verus!
