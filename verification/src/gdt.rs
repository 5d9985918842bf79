//! Global descriptor table: five flat segment descriptors in the exact
//! 8-byte layout the CPU consumes (limit[15:0], base[15:0], base[23:16],
//! access byte, granularity/limit[19:16], base[31:24]).

use vstd::prelude::*;

verus! {

/// One segment descriptor, field for field as the CPU reads it.
#[derive(Clone, Copy, PartialEq, Eq, Structural, Debug)]
pub struct GdtEntry {
    pub limit_low: u16,
    pub base_low: u16,
    pub base_mid: u8,
    pub access: u8,
    pub granularity: u8,
    pub base_high: u8,
}

/// How a (base, limit, access, granularity) quadruple is packed into the
/// descriptor's six fields.
pub open spec fn spec_gdt_entry(base: u32, limit: u32, access: u8, gran: u8) -> GdtEntry {
    GdtEntry {
        limit_low: (limit & 0xFFFF) as u16,
        base_low: (base & 0xFFFF) as u16,
        base_mid: ((base >> 16) & 0xFF) as u8,
        access: access,
        granularity: (((limit >> 16) & 0x0F) as u8 | (gran & 0xF0)) as u8,
        base_high: ((base >> 24) & 0xFF) as u8,
    }
}

/// The descriptor table itself: exactly five entries (null, ring-0 code,
/// ring-0 data, ring-3 code, ring-3 data).
pub struct Gdt {
    pub entries: Vec<GdtEntry>,
}

impl Gdt {
    pub open spec fn wf(self) -> bool {
        self.entries@.len() == 5
    }

    /// Pack one descriptor and store it at slot `i`.
    pub fn set_entry(&mut self, i: usize, base: u32, limit: u32, access: u8, gran: u8)
        requires
            old(self).wf(),
            i < 5,
        ensures
            final(self).wf(),
            final(self).entries@ == old(self).entries@.update(
                i as int,
                spec_gdt_entry(base, limit, access, gran),
            ),
    {
        let limit_low: u16 = (limit & 0xFFFF) as u16;
        let gran_field: u8 = ((limit >> 16) & 0x0F) as u8 | (gran & 0xF0);
        let entry = GdtEntry {
            limit_low: limit_low,
            base_low: (base & 0xFFFF) as u16,
            base_mid: ((base >> 16) & 0xFF) as u8,
            access: access,
            granularity: gran_field,
            base_high: ((base >> 24) & 0xFF) as u8,
        };
        self.entries[i] = entry;
    }

    /// The limit word of the pointer-descriptor handed to `lgdt`: the size
    /// of the table in bytes, minus one.
    pub fn descriptor_limit(&self) -> (r: u16)
        ensures
            r == 39,
    {
        39
    }
}

/// Fill the five flat descriptors: null, ring-0 code (0x9A), ring-0 data
/// (0x92), ring-3 code (0xFA), ring-3 data (0xF2), all 0..4 GiB with 4 KiB
/// granularity and 32-bit operand size (0xCF). Reloading the segment
/// registers afterwards is the machine edge and lies outside this model.
pub fn init_gdt() -> (r: Gdt)
    ensures
        r.wf(),
        r.entries@ == seq![
            spec_gdt_entry(0, 0, 0, 0),
            spec_gdt_entry(0, 0xFFFFF, 0x9A, 0xCF),
            spec_gdt_entry(0, 0xFFFFF, 0x92, 0xCF),
            spec_gdt_entry(0, 0xFFFFF, 0xFA, 0xCF),
            spec_gdt_entry(0, 0xFFFFF, 0xF2, 0xCF),
        ],
{
    let zero = GdtEntry {
        limit_low: 0,
        base_low: 0,
        base_mid: 0,
        access: 0,
        granularity: 0,
        base_high: 0,
    };
    let mut entries: Vec<GdtEntry> = Vec::new();
    entries.push(zero);
    entries.push(zero);
    entries.push(zero);
    entries.push(zero);
    entries.push(zero);
    let mut gdt = Gdt { entries };
    gdt.set_entry(0, 0, 0, 0, 0);
    gdt.set_entry(1, 0, 0xFFFFF, 0x9A, 0xCF);
    gdt.set_entry(2, 0, 0xFFFFF, 0x92, 0xCF);
    gdt.set_entry(3, 0, 0xFFFFF, 0xFA, 0xCF);
    gdt.set_entry(4, 0, 0xFFFFF, 0xF2, 0xCF);
    proof {
        assert(gdt.entries@ =~= seq![
            spec_gdt_entry(0, 0, 0, 0),
            spec_gdt_entry(0, 0xFFFFF, 0x9A, 0xCF),
            spec_gdt_entry(0, 0xFFFFF, 0x92, 0xCF),
            spec_gdt_entry(0, 0xFFFFF, 0xFA, 0xCF),
            spec_gdt_entry(0, 0xFFFFF, 0xF2, 0xCF),
        ]);
    }
    gdt
}

} // verus!
