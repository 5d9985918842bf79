//! Shell stub: a 256-byte line buffer fed by key events. Printable bytes
//! are stored and echoed; enter terminates the line, answers the one
//! known command, and prints the prompt again.

use vstd::prelude::*;
use crate::keyboard::KeyboardEvent;
use crate::vga::spec_new_line;
use crate::vga::spec_putchar;
use crate::vga::spec_write_bytes;
use crate::vga::Terminal;
use crate::vga::TermModel;

verus! {

pub const SHELL_BUFFER_SIZE: usize = 256;

/// "nutshell> ", the prompt.
pub open spec fn spec_prompt() -> Seq<u8> {
    seq![110u8, 117u8, 116u8, 115u8, 104u8, 101u8, 108u8, 108u8, 62u8, 32u8]
}

/// "Welcome to ContinuumOS shell", the greeting.
pub open spec fn spec_welcome() -> Seq<u8> {
    seq![
        87u8, 101u8, 108u8, 99u8, 111u8, 109u8, 101u8, 32u8, 116u8, 111u8, 32u8, 67u8, 111u8,
        110u8, 116u8, 105u8, 110u8, 117u8, 117u8, 109u8, 79u8, 83u8, 32u8, 115u8, 104u8, 101u8,
        108u8, 108u8,
    ]
}

/// "Available commands: help", the answer to `help`.
pub open spec fn spec_help_line() -> Seq<u8> {
    seq![
        65u8, 118u8, 97u8, 105u8, 108u8, 97u8, 98u8, 108u8, 101u8, 32u8, 99u8, 111u8, 109u8,
        109u8, 97u8, 110u8, 100u8, 115u8, 58u8, 32u8, 104u8, 101u8, 108u8, 112u8,
    ]
}

/// The line so far reads exactly `help`.
pub open spec fn spec_line_is_help(buf: Seq<u8>, idx: int) -> bool {
    idx == 4 && buf[0] == 104u8 && buf[1] == 101u8 && buf[2] == 108u8 && buf[3] == 112u8
}

/// What one key event does to the shell line and the console: no ASCII
/// changes nothing; enter terminates the line, breaks the console line,
/// answers `help` if that was the line, resets the buffer and prints the
/// prompt; any other byte is stored and echoed while the buffer has room.
pub open spec fn spec_shell_step(
    buf: Seq<u8>,
    idx: int,
    m: TermModel,
    color: u8,
    ascii: Option<u8>,
) -> (Seq<u8>, int, TermModel) {
    match ascii {
        None => (buf, idx, m),
        Some(c) => {
            if c == 10 {
                let terminated = buf.update(idx, 0u8);
                let m1 = spec_new_line(m, color);
                let m2 = if spec_line_is_help(buf, idx) {
                    spec_new_line(spec_write_bytes(m1, color, spec_help_line()), color)
                } else {
                    m1
                };
                (terminated, 0, spec_write_bytes(m2, color, spec_prompt()))
            } else {
                if idx < SHELL_BUFFER_SIZE - 1 {
                    (buf.update(idx, c), idx + 1, spec_putchar(m, color, c))
                } else {
                    (buf, idx, m)
                }
            }
        },
    }
}

/// The shell handle: the line buffer and how much of it is filled.
pub struct Shell {
    pub buffer: Vec<u8>,
    pub index: usize,
}

/// An empty line buffer.
pub fn new_shell() -> (r: Shell)
    ensures
        r.wf(),
        r.index == 0,
        forall|i: int| 0 <= i < SHELL_BUFFER_SIZE ==> r.buffer@[i] == 0u8,
{
    let mut buffer: Vec<u8> = Vec::new();
    let mut i: usize = 0;
    while i < SHELL_BUFFER_SIZE
        invariant
            i <= SHELL_BUFFER_SIZE,
            buffer@.len() == i,
            forall|j: int| 0 <= j < i ==> buffer@[j] == 0u8,
        decreases SHELL_BUFFER_SIZE - i,
    {
        buffer.push(0);
        i = i + 1;
    }
    Shell { buffer, index: 0 }
}

/// Print the greeting and the first prompt.
pub fn init(term: &mut Terminal)
    requires
        old(term).wf(),
    ensures
        final(term).wf(),
        final(term).color == old(term).color,
        final(term).model() == spec_write_bytes(
            spec_new_line(
                spec_write_bytes(old(term).model(), old(term).color, spec_welcome()),
                old(term).color,
            ),
            old(term).color,
            spec_prompt(),
        ),
{
    let welcome = welcome_bytes();
    let prompt = prompt_bytes();
    term.write_line(welcome.as_slice());
    term.writestring(prompt.as_slice());
}

impl Shell {
    pub open spec fn wf(self) -> bool {
        self.buffer@.len() == SHELL_BUFFER_SIZE && self.index < SHELL_BUFFER_SIZE
    }

    /// Feed one key event to the line buffer and the console.
    pub fn handle_key(&mut self, term: &mut Terminal, event: KeyboardEvent)
        requires
            old(self).wf(),
            old(term).wf(),
        ensures
            final(self).wf(),
            final(term).wf(),
            final(term).color == old(term).color,
            ({
                let (b2, i2, m2) = spec_shell_step(
                    old(self).buffer@,
                    old(self).index as int,
                    old(term).model(),
                    old(term).color,
                    event.ascii,
                );
                &&& final(self).buffer@ == b2
                &&& final(self).index == i2
                &&& final(term).model() == m2
            }),
    {
        let c = match event.ascii {
            Some(c) => c,
            None => {
                return;
            },
        };
        if c == 10 {
            self.buffer[self.index] = 0;
            let is_help = self.index == 4 && self.buffer[0] == 104 && self.buffer[1] == 101
                && self.buffer[2] == 108 && self.buffer[3] == 112;
            let empty: Vec<u8> = Vec::new();
            term.write_line(empty.as_slice());
            if is_help {
                let help = help_bytes();
                term.write_line(help.as_slice());
            }
            self.index = 0;
            let prompt = prompt_bytes();
            term.writestring(prompt.as_slice());
            proof {
                assert(spec_write_bytes(
                    spec_new_line(old(term).model(), old(term).color),
                    old(term).color,
                    Seq::<u8>::empty(),
                ) == spec_new_line(old(term).model(), old(term).color));
            }
        } else {
            if self.index < SHELL_BUFFER_SIZE - 1 {
                self.buffer[self.index] = c;
                self.index = self.index + 1;
                term.putchar(c);
            }
        }
    }
}

fn prompt_bytes() -> (r: Vec<u8>)
    ensures
        r@ == spec_prompt(),
{
    let mut v: Vec<u8> = Vec::new();
    v.push(110);
    v.push(117);
    v.push(116);
    v.push(115);
    v.push(104);
    v.push(101);
    v.push(108);
    v.push(108);
    v.push(62);
    v.push(32);
    proof {
        assert(v@ =~= spec_prompt());
    }
    v
}

fn welcome_bytes() -> (r: Vec<u8>)
    ensures
        r@ == spec_welcome(),
{
    let mut v: Vec<u8> = Vec::new();
    v.push(87);
    v.push(101);
    v.push(108);
    v.push(99);
    v.push(111);
    v.push(109);
    v.push(101);
    v.push(32);
    v.push(116);
    v.push(111);
    v.push(32);
    v.push(67);
    v.push(111);
    v.push(110);
    v.push(116);
    v.push(105);
    v.push(110);
    v.push(117);
    v.push(117);
    v.push(109);
    v.push(79);
    v.push(83);
    v.push(32);
    v.push(115);
    v.push(104);
    v.push(101);
    v.push(108);
    v.push(108);
    proof {
        assert(v@ =~= spec_welcome());
    }
    v
}

fn help_bytes() -> (r: Vec<u8>)
    ensures
        r@ == spec_help_line(),
{
    let mut v: Vec<u8> = Vec::new();
    v.push(65);
    v.push(118);
    v.push(97);
    v.push(105);
    v.push(108);
    v.push(97);
    v.push(98);
    v.push(108);
    v.push(101);
    v.push(32);
    v.push(99);
    v.push(111);
    v.push(109);
    v.push(109);
    v.push(97);
    v.push(110);
    v.push(100);
    v.push(115);
    v.push(58);
    v.push(32);
    v.push(104);
    v.push(101);
    v.push(108);
    v.push(112);
    proof {
        assert(v@ =~= spec_help_line());
    }
    v
}

} // verus!
