//! Line-editor stub: it can be made the active key consumer, and any key
//! deactivates it again.

use vstd::prelude::*;
use crate::keyboard::KeyboardEvent;
use crate::vga::spec_new_line;
use crate::vga::spec_write_bytes;
use crate::vga::Terminal;

verus! {

/// The editor handle: only whether it currently consumes key events.
pub struct Editor {
    pub active: bool,
}

/// An inactive editor.
pub fn new_editor() -> (r: Editor)
    ensures
        !r.active,
{
    Editor { active: false }
}

impl Editor {
    /// Whether key events are routed here rather than to the shell.
    pub fn is_active(&self) -> (r: bool)
        ensures
            r == self.active,
    {
        self.active
    }

    /// Activate the editor and announce it on the console.
    pub fn start(&mut self, term: &mut Terminal)
        requires
            old(term).wf(),
        ensures
            final(self).active,
            final(term).wf(),
            final(term).color == old(term).color,
            final(term).model() == spec_new_line(
                spec_write_bytes(old(term).model(), old(term).color, spec_editor_banner()),
                old(term).color,
            ),
    {
        self.active = true;
        let banner: Vec<u8> = editor_banner();
        term.write_line(banner.as_slice());
    }

    /// Any key leaves the editor.
    pub fn handle_key(&mut self, event: KeyboardEvent)
        ensures
            !final(self).active,
    {
        self.active = false;
    }
}

/// The banner the editor prints: "[EDITOR] not implemented".
pub open spec fn spec_editor_banner() -> Seq<u8> {
    seq![
        91u8, 69u8, 68u8, 73u8, 84u8, 79u8, 82u8, 93u8, 32u8, 110u8, 111u8, 116u8, 32u8, 105u8,
        109u8, 112u8, 108u8, 101u8, 109u8, 101u8, 110u8, 116u8, 101u8, 100u8,
    ]
}

fn editor_banner() -> (r: Vec<u8>)
    ensures
        r@ == spec_editor_banner(),
{
    let mut v: Vec<u8> = Vec::new();
    v.push(91);
    v.push(69);
    v.push(68);
    v.push(73);
    v.push(84);
    v.push(79);
    v.push(82);
    v.push(93);
    v.push(32);
    v.push(110);
    v.push(111);
    v.push(116);
    v.push(32);
    v.push(105);
    v.push(109);
    v.push(112);
    v.push(108);
    v.push(101);
    v.push(109);
    v.push(101);
    v.push(110);
    v.push(116);
    v.push(101);
    v.push(100);
    proof {
        assert(v@ =~= spec_editor_banner());
    }
    v
}

} // verus!
