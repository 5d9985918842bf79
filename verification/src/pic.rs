//! The two cascaded 8259A interrupt controllers. Their mask registers and
//! the stream of end-of-interrupt acknowledgements are held as data; the
//! remap routine returns the exact port-write sequence the kernel sends,
//! with the saved masks restored at the end.

use vstd::prelude::*;

verus! {

pub const PIC1_COMMAND: u16 = 0x20;
pub const PIC1_DATA: u16 = 0x21;
pub const PIC2_COMMAND: u16 = 0xA0;
pub const PIC2_DATA: u16 = 0xA1;
pub const PIC_EOI: u8 = 0x20;

/// The controller pair: the two interrupt mask registers (a set bit masks
/// that IRQ line) and the IRQs acknowledged so far, in order.
pub struct Pic {
    pub imr_master: u8,
    pub imr_slave: u8,
    pub eoi_log: Vec<u8>,
}

/// IRQ line `irq` is unmasked: its bit is clear in the controller's mask.
pub open spec fn spec_irq_unmasked(p: Pic, irq: u8) -> bool {
    if irq < 8 {
        p.imr_master & (1u8 << irq) == 0
    } else {
        p.imr_slave & (1u8 << ((irq - 8) as u8)) == 0
    }
}

/// The 8259A initialization sequence: begin initialization on both
/// controllers, set the vector offsets to 0x20 and 0x28, wire the cascade,
/// select 8086 mode, then restore the saved masks.
pub open spec fn spec_remap_writes(saved_master: u8, saved_slave: u8) -> Seq<(u16, u8)> {
    seq![
        (PIC1_COMMAND, 0x11u8),
        (PIC2_COMMAND, 0x11u8),
        (PIC1_DATA, 0x20u8),
        (PIC2_DATA, 0x28u8),
        (PIC1_DATA, 0x04u8),
        (PIC2_DATA, 0x02u8),
        (PIC1_DATA, 0x01u8),
        (PIC2_DATA, 0x01u8),
        (PIC1_DATA, saved_master),
        (PIC2_DATA, saved_slave),
    ]
}

/// A controller pair as the firmware left it, with the given masks and
/// nothing acknowledged yet.
pub fn pic_new(imr_master: u8, imr_slave: u8) -> (r: Pic)
    ensures
        r.imr_master == imr_master,
        r.imr_slave == imr_slave,
        r.eoi_log@.len() == 0,
{
    Pic { imr_master, imr_slave, eoi_log: Vec::new() }
}

impl Pic {
    /// Remap the controllers off the CPU-exception vector range. The masks
    /// are saved first and restored at the end, so the controller state is
    /// unchanged; the returned sequence is exactly the port writes issued,
    /// each followed by the port-0x80 delay on the machine.
    pub fn pic_remap(&mut self) -> (writes: Vec<(u16, u8)>)
        ensures
            final(self).imr_master == old(self).imr_master,
            final(self).imr_slave == old(self).imr_slave,
            final(self).eoi_log@ == old(self).eoi_log@,
            writes@ == spec_remap_writes(old(self).imr_master, old(self).imr_slave),
    {
        let a1 = self.imr_master;
        let a2 = self.imr_slave;
        let mut writes: Vec<(u16, u8)> = Vec::new();
        writes.push((PIC1_COMMAND, 0x11));
        writes.push((PIC2_COMMAND, 0x11));
        writes.push((PIC1_DATA, 0x20));
        writes.push((PIC2_DATA, 0x28));
        writes.push((PIC1_DATA, 0x04));
        writes.push((PIC2_DATA, 0x02));
        writes.push((PIC1_DATA, 0x01));
        writes.push((PIC2_DATA, 0x01));
        writes.push((PIC1_DATA, a1));
        writes.push((PIC2_DATA, a2));
        proof {
            assert(writes@ =~= spec_remap_writes(a1, a2));
        }
        writes
    }

    /// Acknowledge IRQ `irq`: the slave controller is signalled first for
    /// the cascaded lines, the master always.
    pub fn pic_send_eoi(&mut self, irq: u8)
        ensures
            final(self).imr_master == old(self).imr_master,
            final(self).imr_slave == old(self).imr_slave,
            final(self).eoi_log@ == old(self).eoi_log@.push(irq),
    {
        self.eoi_log.push(irq);
    }

    /// Clear the mask bit of IRQ `irq` so the line can raise interrupts;
    /// the other controller's mask is untouched.
    pub fn pic_unmask_irq(&mut self, irq: u8)
        requires
            irq < 16,
        ensures
            final(self).eoi_log@ == old(self).eoi_log@,
            irq < 8 ==> final(self).imr_master == (old(self).imr_master & !(1u8 << irq))
                && final(self).imr_slave == old(self).imr_slave,
            irq >= 8 ==> final(self).imr_slave == (old(self).imr_slave & !(1u8 << ((irq - 8) as u8)))
                && final(self).imr_master == old(self).imr_master,
            spec_irq_unmasked(*final(self), irq),
    {
        if irq < 8 {
            let mask = self.imr_master & !(1u8 << irq);
            self.imr_master = mask;
            proof {
                let m = old(self).imr_master;
                assert((m & !(1u8 << irq)) & (1u8 << irq) == 0) by (bit_vector)
                    requires irq < 8;
            }
        } else {
            let shift = irq - 8;
            let mask = self.imr_slave & !(1u8 << shift);
            self.imr_slave = mask;
            proof {
                let m = old(self).imr_slave;
                let s = shift;
                assert((m & !(1u8 << s)) & (1u8 << s) == 0) by (bit_vector)
                    requires s < 8;
            }
        }
    }

    /// Initialize the controller pair: the remap sequence.
    pub fn init_pic(&mut self) -> (writes: Vec<(u16, u8)>)
        ensures
            final(self).imr_master == old(self).imr_master,
            final(self).imr_slave == old(self).imr_slave,
            final(self).eoi_log@ == old(self).eoi_log@,
            writes@ == spec_remap_writes(old(self).imr_master, old(self).imr_slave),
    {
        self.pic_remap()
    }
}

} // verus!
