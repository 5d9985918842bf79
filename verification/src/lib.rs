//! A verified model of a small 32-bit x86 kernel substrate: descriptor
//! tables, interrupt dispatch, physical-frame and heap allocators, an
//! identity-mapped page-table set, a RAM filesystem with a file-descriptor
//! table, and a text console.
//!
//! Hardware-facing state (the VGA framebuffer, the PIC mask registers, the
//! keyboard output latch, the tick counter) is held as plain data inside the
//! subsystem handles, so every transition the kernel makes is an ordinary
//! verified function; the machine edge (port instructions, `lgdt`, `invlpg`)
//! is what a host around this library would perform.

pub mod editor;
pub mod gdt;
pub mod heap;
pub mod idt;
pub mod isr;
pub mod kernel;
pub mod keyboard;
pub mod log;
pub mod memory;
pub mod paging;
pub mod pic;
pub mod ramfs;
pub mod shell;
pub mod syscalls;
pub mod timer;
pub mod vga;
