//! Syscall dispatch: a numeric opcode selects the filesystem operation.
//! Unknown opcodes answer -1; the argument words are reinterpreted per
//! opcode exactly as the filesystem functions define them.

use vstd::prelude::*;
use crate::ramfs::Fs;
use crate::ramfs::spec_close_step;
use crate::ramfs::spec_open_step;
use crate::ramfs::spec_read_step;
use crate::ramfs::spec_write_step;

verus! {

/// The syscall numbers, in opcode order: open is 0, read 1, write 2,
/// close 3.
#[derive(Clone, Copy, PartialEq, Eq, Structural, Debug)]
pub enum Syscall {
    Open,
    Read,
    Write,
    Close,
}

impl Syscall {
    /// The numeric opcode of this call.
    pub open spec fn spec_number(self) -> u32 {
        match self {
            Syscall::Open => 0,
            Syscall::Read => 1,
            Syscall::Write => 2,
            Syscall::Close => 3,
        }
    }

    /// The numeric opcode of this call.
    pub fn number(self) -> (r: u32)
        ensures
            r == self.spec_number(),
    {
        match self {
            Syscall::Open => 0,
            Syscall::Read => 1,
            Syscall::Write => 2,
            Syscall::Close => 3,
        }
    }
}

/// Dispatch one syscall. Opcode 0 opens the node `arg1`; 1 reads `arg3`
/// bytes through descriptor `arg1` into the front of `buf`; 2 writes
/// `arg3` bytes from the front of `buf` through descriptor `arg1`;
/// 3 closes descriptor `arg1` and answers 0; anything else answers -1
/// and changes nothing.
pub fn syscall(fs: &mut Fs, num: u32, arg1: usize, buf: &mut Vec<u8>, arg3: usize) -> (r: isize)
    requires
        old(fs).wf(),
        num == 1 || num == 2 ==> old(buf)@.len() >= arg3,
    ensures
        final(fs).wf(),
        final(fs).root == old(fs).root,
        num == 0 ==> final(fs).nodes@ == old(fs).nodes@ && final(buf)@ == old(buf)@
            && spec_open_step(old(fs).fds@, arg1, final(fs).fds@, r as int),
        num == 1 ==> final(fs).nodes@ == old(fs).nodes@ && spec_read_step(
            old(fs).nodes@,
            old(fs).fds@,
            arg1 as i32 as int,
            arg3 as int,
            old(buf)@,
            final(fs).fds@,
            final(buf)@,
            r as int,
        ),
        num == 2 ==> final(buf)@ == old(buf)@ && spec_write_step(
            old(fs).nodes@,
            old(fs).fds@,
            arg1 as i32 as int,
            arg3 as int,
            old(buf)@,
            final(fs).nodes@,
            final(fs).fds@,
            r as int,
        ),
        num == 3 ==> final(fs).nodes@ == old(fs).nodes@ && final(buf)@ == old(buf)@
            && spec_close_step(old(fs).fds@, arg1 as i32 as int, final(fs).fds@) && r == 0,
        num > 3 ==> *final(fs) == *old(fs) && final(buf)@ == old(buf)@ && r == -1,
{
    match num {
        0 => fs.fs_open(arg1) as isize,
        1 => fs.fs_read(arg1 as i32, buf, arg3),
        2 => fs.fs_write(arg1 as i32, buf, arg3),
        3 => {
            fs.fs_close(arg1 as i32);
            0
        },
        _ => -1,
    }
}

} // verus!
