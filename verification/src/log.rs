//! Console logging: a prefixed message followed by a line break.

use vstd::prelude::*;
use crate::vga::spec_new_line;
use crate::vga::spec_write_bytes;
use crate::vga::Terminal;

verus! {

/// Write `prefix`, then `msg`, then break the line.
pub fn log(term: &mut Terminal, prefix: &[u8], msg: &[u8])
    requires
        old(term).wf(),
    ensures
        final(term).wf(),
        final(term).color == old(term).color,
        final(term).model() == spec_new_line(
            spec_write_bytes(
                spec_write_bytes(old(term).model(), old(term).color, prefix@),
                old(term).color,
                msg@,
            ),
            old(term).color,
        ),
{
    term.writestring(prefix);
    term.writestring(msg);
    let empty: Vec<u8> = Vec::new();
    term.write_line(empty.as_slice());
}

} // verus!
