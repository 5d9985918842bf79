//! PS/2 keyboard: translation of set-1 make codes to ASCII, and the IRQ 1
//! handler that routes the key event to the active consumer (editor or
//! shell) and acknowledges the interrupt. The scancode byte the controller
//! latched at port 0x60 is handed in by the dispatcher.

use vstd::prelude::*;
use crate::editor::Editor;
use crate::pic::Pic;
use crate::shell::spec_shell_step;
use crate::shell::Shell;
use crate::vga::Terminal;

verus! {

/// One key event: the raw scancode and its ASCII byte, if it has one.
#[derive(Default, Clone, Copy, PartialEq, Eq, Structural, Debug)]
pub struct KeyboardEvent {
    pub scancode: u8,
    pub ascii: Option<u8>,
}

/// The fixed set-1 make-code table: digits, the three letter rows, space,
/// enter, tab and backspace (as byte 0); anything else has no ASCII.
pub open spec fn spec_scancode_to_ascii(scancode: u8) -> Option<u8> {
    match scancode {
        2u8 => Some(49u8),
        3u8 => Some(50u8),
        4u8 => Some(51u8),
        5u8 => Some(52u8),
        6u8 => Some(53u8),
        7u8 => Some(54u8),
        8u8 => Some(55u8),
        9u8 => Some(56u8),
        10u8 => Some(57u8),
        11u8 => Some(48u8),
        12u8 => Some(45u8),
        13u8 => Some(61u8),
        14u8 => Some(0u8),
        15u8 => Some(9u8),
        16u8 => Some(113u8),
        17u8 => Some(119u8),
        18u8 => Some(101u8),
        19u8 => Some(114u8),
        20u8 => Some(116u8),
        21u8 => Some(121u8),
        22u8 => Some(117u8),
        23u8 => Some(105u8),
        24u8 => Some(111u8),
        25u8 => Some(112u8),
        28u8 => Some(10u8),
        30u8 => Some(97u8),
        31u8 => Some(115u8),
        32u8 => Some(100u8),
        33u8 => Some(102u8),
        34u8 => Some(103u8),
        35u8 => Some(104u8),
        36u8 => Some(106u8),
        37u8 => Some(107u8),
        38u8 => Some(108u8),
        44u8 => Some(122u8),
        45u8 => Some(120u8),
        46u8 => Some(99u8),
        47u8 => Some(118u8),
        48u8 => Some(98u8),
        49u8 => Some(110u8),
        50u8 => Some(109u8),
        57u8 => Some(32u8),
        _ => None,
    }
}

/// Translate one set-1 make code to ASCII.
pub fn scancode_to_ascii(scancode: u8) -> (r: Option<u8>)
    ensures
        r == spec_scancode_to_ascii(scancode),
{
    match scancode {
        2 => Some(49),
        3 => Some(50),
        4 => Some(51),
        5 => Some(52),
        6 => Some(53),
        7 => Some(54),
        8 => Some(55),
        9 => Some(56),
        10 => Some(57),
        11 => Some(48),
        12 => Some(45),
        13 => Some(61),
        14 => Some(0),
        15 => Some(9),
        16 => Some(113),
        17 => Some(119),
        18 => Some(101),
        19 => Some(114),
        20 => Some(116),
        21 => Some(121),
        22 => Some(117),
        23 => Some(105),
        24 => Some(111),
        25 => Some(112),
        28 => Some(10),
        30 => Some(97),
        31 => Some(115),
        32 => Some(100),
        33 => Some(102),
        34 => Some(103),
        35 => Some(104),
        36 => Some(106),
        37 => Some(107),
        38 => Some(108),
        44 => Some(122),
        45 => Some(120),
        46 => Some(99),
        47 => Some(118),
        48 => Some(98),
        49 => Some(110),
        50 => Some(109),
        57 => Some(32),
        _ => None,
    }
}

/// Register the keyboard handler on vector 33 and unmask IRQ 1. The
/// handler must be in place before the line is unmasked; this does both
/// in that order.
pub fn keyboard_install(isr: &mut crate::isr::IsrTable, pic: &mut Pic)
    requires
        old(isr).wf(),
    ensures
        final(isr).wf(),
        final(isr).handlers@ == old(isr).handlers@.update(33, Some(crate::isr::Handler::Keyboard)),
        final(pic).imr_master == (old(pic).imr_master & !(1u8 << 1u8)),
        final(pic).imr_slave == old(pic).imr_slave,
        final(pic).eoi_log@ == old(pic).eoi_log@,
        crate::pic::spec_irq_unmasked(*final(pic), 1),
{
    isr.register_interrupt_handler(33, crate::isr::Handler::Keyboard);
    pic.pic_unmask_irq(1);
}

/// The IRQ 1 handler: build the event from the latched scancode, hand it
/// to the editor when the editor is active and to the shell otherwise,
/// then acknowledge IRQ 1.
pub fn keyboard_callback(
    scancode: u8,
    editor: &mut Editor,
    shell: &mut Shell,
    term: &mut Terminal,
    pic: &mut Pic,
)
    requires
        old(shell).wf(),
        old(term).wf(),
    ensures
        final(shell).wf(),
        final(term).wf(),
        final(pic).imr_master == old(pic).imr_master,
        final(pic).imr_slave == old(pic).imr_slave,
        final(pic).eoi_log@ == old(pic).eoi_log@.push(1),
        old(editor).active ==> {
            &&& !final(editor).active
            &&& final(shell).buffer@ == old(shell).buffer@
            &&& final(shell).index == old(shell).index
            &&& final(term).model() == old(term).model()
            &&& final(term).color == old(term).color
        },
        !old(editor).active ==> {
            let (b2, i2, m2) = spec_shell_step(
                old(shell).buffer@,
                old(shell).index as int,
                old(term).model(),
                old(term).color,
                spec_scancode_to_ascii(scancode),
            );
            &&& !final(editor).active
            &&& final(shell).buffer@ == b2
            &&& final(shell).index == i2
            &&& final(term).model() == m2
            &&& final(term).color == old(term).color
        },
{
    let ascii = scancode_to_ascii(scancode);
    let event = KeyboardEvent { scancode, ascii };
    if editor.is_active() {
        editor.handle_key(event);
    } else {
        shell.handle_key(term, event);
    }
    pic.pic_send_eoi(1);
}

} // verus!
