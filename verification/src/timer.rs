//! Programmable interval timer: channel 0 drives IRQ 0. The tick counter
//! is the only state an interrupt handler writes; arming the timer
//! computes the divisor, returns the exact port bytes sent to the PIT,
//! registers the tick handler and unmasks IRQ 0.

use vstd::prelude::*;
use crate::isr::Handler;
use crate::isr::IsrTable;
use crate::isr::Registers;
use crate::pic::Pic;

verus! {

pub const PIT_BASE_HZ: u32 = 1193180;
pub const PIT_COMMAND: u16 = 0x43;
pub const PIT_CHANNEL0: u16 = 0x40;

/// The timer handle: the monotonic tick counter (wrapping at 2^32) and
/// the divisor the PIT was programmed with.
pub struct Timer {
    pub ticks: u32,
    pub divisor: u32,
}

/// The bytes sent to arm PIT channel 0 in square-wave mode: the command,
/// then the divisor low byte, then the divisor high byte.
pub open spec fn spec_pit_writes(divisor: u32) -> Seq<(u16, u8)> {
    seq![
        (PIT_COMMAND, 0x36u8),
        (PIT_CHANNEL0, (divisor & 0xFF) as u8),
        (PIT_CHANNEL0, ((divisor >> 8) & 0xFF) as u8),
    ]
}

/// A timer that has not ticked.
pub fn new_timer() -> (r: Timer)
    ensures
        r.ticks == 0,
        r.divisor == 0,
{
    Timer { ticks: 0, divisor: 0 }
}

/// One timer interrupt: the counter advances by exactly one, wrapping
/// at 2^32; the register frame is left untouched.
pub fn timer_handler(t: &mut Timer, regs: &mut Registers)
    ensures
        final(t).ticks == ((old(t).ticks + 1) % 0x1_0000_0000) as u32,
        final(t).divisor == old(t).divisor,
        *final(regs) == *old(regs),
{
    t.ticks = t.ticks.wrapping_add(1);
}

/// Tick monotonicity: each timer interrupt advances the counter by
/// exactly one, so the count never decreases — except at the 2^32
/// wrap-around, where consumers must difference ticks modularly.
pub proof fn lemma_tick_monotonic(t: u32)
    requires
        t < u32::MAX,
    ensures
        ((t + 1) % 0x1_0000_0000) == t + 1,
        ((t + 1) % 0x1_0000_0000) > t,
{
}

/// The current tick count.
pub fn ticks(t: &Timer) -> (r: u32)
    ensures
        r == t.ticks,
{
    t.ticks
}

/// Arm the timer at `freq` Hz: program PIT channel 0 with divisor
/// 1193180 / freq, register the tick handler on vector 32, and unmask
/// IRQ 0. Returns the exact bytes sent to the PIT.
pub fn init_timer(t: &mut Timer, isr: &mut IsrTable, pic: &mut Pic, freq: u32) -> (writes: Vec<
    (u16, u8),
>)
    requires
        old(isr).wf(),
        freq > 0,
    ensures
        final(isr).wf(),
        final(t).ticks == old(t).ticks,
        final(t).divisor == PIT_BASE_HZ / freq,
        writes@ == spec_pit_writes((PIT_BASE_HZ / freq) as u32),
        final(isr).handlers@ == old(isr).handlers@.update(32, Some(Handler::Timer)),
        final(pic).imr_master == (old(pic).imr_master & !(1u8 << 0u8)),
        final(pic).imr_slave == old(pic).imr_slave,
        final(pic).eoi_log@ == old(pic).eoi_log@,
        crate::pic::spec_irq_unmasked(*final(pic), 0),
{
    let divisor: u32 = PIT_BASE_HZ / freq;
    let mut writes: Vec<(u16, u8)> = Vec::new();
    writes.push((PIT_COMMAND, 0x36));
    writes.push((PIT_CHANNEL0, (divisor & 0xFF) as u8));
    writes.push((PIT_CHANNEL0, ((divisor >> 8) & 0xFF) as u8));
    t.divisor = divisor;
    isr.register_interrupt_handler(32, Handler::Timer);
    pic.pic_unmask_irq(0);
    proof {
        assert(writes@ =~= spec_pit_writes(divisor));
    }
    writes
}

} // verus!
