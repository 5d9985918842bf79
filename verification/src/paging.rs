//! Virtual memory: a 1024-entry page directory and four page tables that
//! identity-map the first 16 MiB with present and writable flags. The
//! entries are exact 32-bit values; loading CR3, setting CR0.PG and the
//! `invlpg` flush are the machine edge.

use vstd::prelude::*;

verus! {

pub const ENTRIES: usize = 1024;
pub const PAGE_SIZE_32: u32 = 4096;

/// The paging handle: the directory, the four low tables, and whether the
/// directory has been loaded and paging turned on.
pub struct Vmm {
    pub directory: Vec<u32>,
    pub tables: Vec<Vec<u32>>,
    pub enabled: bool,
}

/// The identity-map entry for page `i` of table `t`: the physical address
/// `t * 4 MiB + i * 4 KiB` with present and writable set.
pub open spec fn spec_identity_entry(t: int, i: int) -> u32 {
    (((t * 0x400000 + i * 4096) as u32) | 3u32)
}

impl Vmm {
    pub open spec fn wf(self) -> bool {
        &&& self.directory@.len() == ENTRIES
        &&& self.tables@.len() == 4
        &&& forall|t: int| 0 <= t < 4 ==> (#[trigger] self.tables@[t])@.len() == ENTRIES
    }

    /// Turn paging on: on the machine this writes the directory's address
    /// to CR3 and sets CR0.PG.
    pub fn vmm_enable(&mut self)
        requires
            old(self).wf(),
        ensures
            final(self).wf(),
            final(self).enabled,
            final(self).directory@ == old(self).directory@,
            final(self).tables@ == old(self).tables@,
    {
        self.enabled = true;
    }

    /// Point the page-table entry for `virtual_addr` at `physical_addr`
    /// with the present bit and, if asked, the writable bit; the directory
    /// slot must be one of the four populated ones. On the machine this is
    /// followed by an `invlpg` for the address.
    pub fn vmm_map(&mut self, virtual_addr: u32, physical_addr: u32, rw: bool)
        requires
            old(self).wf(),
            virtual_addr >> 22 < 4,
        ensures
            final(self).wf(),
            final(self).directory@ == old(self).directory@,
            final(self).enabled == old(self).enabled,
            final(self).tables@.len() == 4,
            ({
                let pd = (virtual_addr >> 22) as int;
                let pt = ((virtual_addr >> 12) & 0x3FF) as int;
                let flags: u32 = if rw { 3 } else { 1 };
                &&& (forall|t: int| 0 <= t < 4 && t != pd ==> final(self).tables@[t]
                    == old(self).tables@[t])
                &&& final(self).tables@[pd]@ == old(self).tables@[pd]@.update(
                    pt,
                    ((physical_addr & 0xFFFFF000) | flags),
                )
            }),
    {
        let pd_index = (virtual_addr >> 22) as usize;
        let pt_index = ((virtual_addr >> 12) & 0x3FF) as usize;
        proof {
            let v = virtual_addr;
            assert(((v >> 12) & 0x3FF) < 1024) by (bit_vector);
        }
        let flags: u32 = if rw { 3 } else { 1 };
        let entry = (physical_addr & 0xFFFF_F000) | flags;
        let table = vstd::std_specs::vec::vec_index_mut(&mut self.tables, pd_index);
        table[pt_index] = entry;
    }
}

/// Build the boot mapping: table `t` entry `i` identity-maps the page at
/// `t * 4 MiB + i * 4 KiB` as present and writable; the first four
/// directory slots point at the four tables (their given physical
/// addresses, 4 KiB aligned, with present and writable), and every other
/// slot is zero. Paging is not yet enabled.
pub fn vmm_init(table_bases: &Vec<u32>) -> (r: Vmm)
    requires
        table_bases@.len() == 4,
        forall|t: int| 0 <= t < 4 ==> (#[trigger] table_bases@[t]) % 4096 == 0,
    ensures
        r.wf(),
        !r.enabled,
        forall|t: int, i: int| 0 <= t < 4 && 0 <= i < ENTRIES ==> (#[trigger] r.tables@[t]@[i])
            == spec_identity_entry(t, i),
        forall|t: int| 0 <= t < 4 ==> (#[trigger] r.directory@[t]) == (table_bases@[t] | 3u32),
        forall|t: int| 4 <= t < ENTRIES ==> (#[trigger] r.directory@[t]) == 0u32,
{
    let mut tables: Vec<Vec<u32>> = Vec::new();
    let mut t: usize = 0;
    while t < 4
        invariant
            t <= 4,
            tables@.len() == t,
            forall|u: int| 0 <= u < t ==> (#[trigger] tables@[u])@.len() == ENTRIES,
            forall|u: int, i: int| 0 <= u < t && 0 <= i < ENTRIES ==> (#[trigger] tables@[u]@[i])
                == spec_identity_entry(u, i),
        decreases 4 - t,
    {
        let mut table: Vec<u32> = Vec::new();
        let mut i: usize = 0;
        while i < ENTRIES
            invariant
                t < 4,
                i <= ENTRIES,
                table@.len() == i,
                forall|j: int| 0 <= j < i ==> (#[trigger] table@[j]) == spec_identity_entry(
                    t as int,
                    j,
                ),
            decreases ENTRIES - i,
        {
            let addr: u32 = (t as u32) * 0x40_0000 + (i as u32) * PAGE_SIZE_32;
            table.push((addr & 0xFFFF_F000) | 3);
            proof {
                let a = addr;
                assert(a % 4096 == 0 ==> ((a & 0xFFFF_F000) | 3) == (a | 3)) by (bit_vector);
                assert(((t * 0x400000 + i * 4096) as u32) == addr);
                assert(a % 4096 == 0) by {
                    assert(addr == (t as u32) * 0x40_0000 + (i as u32) * 4096);
                    assert((t as u32) * 0x40_0000 % 4096 == 0) by (nonlinear_arith)
                        requires t < 4;
                    assert((i as u32) * 4096 % 4096 == 0) by (nonlinear_arith)
                        requires i < 1024;
                    assert(((t as u32) * 0x40_0000 + (i as u32) * 4096) % 4096 == 0)
                        by (nonlinear_arith)
                        requires t < 4 && i < 1024;
                };
                assert((a | 3u32) == ((a & 0xFFFF_F000) | 3u32)) by (bit_vector)
                    requires a % 4096 == 0;
            }
            i = i + 1;
        }
        tables.push(table);
        t = t + 1;
    }
    let mut directory: Vec<u32> = Vec::new();
    let mut d: usize = 0;
    while d < 4
        invariant
            d <= 4,
            table_bases@.len() == 4,
            directory@.len() == d,
            forall|u: int| 0 <= u < d ==> (#[trigger] directory@[u]) == (table_bases@[u] | 3u32),
        decreases 4 - d,
    {
        directory.push(table_bases[d] | 3);
        d = d + 1;
    }
    while d < ENTRIES
        invariant
            4 <= d <= ENTRIES,
            table_bases@.len() == 4,
            directory@.len() == d,
            forall|u: int| 0 <= u < 4 ==> (#[trigger] directory@[u]) == (table_bases@[u] | 3u32),
            forall|u: int| 4 <= u < d ==> (#[trigger] directory@[u]) == 0u32,
        decreases ENTRIES - d,
    {
        directory.push(0);
        d = d + 1;
    }
    Vmm { directory, tables, enabled: false }
}

} // verus!
