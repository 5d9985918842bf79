//! The kernel handle: every subsystem, created once by the boot sequence
//! in its required order, plus the common interrupt dispatcher. A host
//! drives it by injecting interrupts: a timer interrupt is vector 32, a
//! key press latches its scancode and raises vector 33.

use vstd::prelude::*;
use crate::editor::Editor;
use crate::editor::new_editor;
use crate::gdt::Gdt;
use crate::gdt::init_gdt;
use crate::gdt::spec_gdt_entry;
use crate::heap::Heap;
use crate::heap::init_heap;
use crate::idt::Idt;
use crate::idt::init_idt;
use crate::isr::Handler;
use crate::isr::IsrTable;
use crate::isr::Registers;
use crate::isr::new_isr_table;
use crate::keyboard::keyboard_callback;
use crate::keyboard::keyboard_install;
use crate::keyboard::spec_scancode_to_ascii;
use crate::memory::FrameAllocator;
use crate::memory::initialize;
use crate::paging::Vmm;
use crate::paging::vmm_init;
use crate::pic::Pic;
use crate::pic::pic_new;
use crate::pic::spec_irq_unmasked;
use crate::ramfs::Fs;
use crate::ramfs::NodeType;
use crate::ramfs::fs_init;
use crate::shell::Shell;
use crate::shell::new_shell;
use crate::shell::spec_shell_step;
use crate::timer::Timer;
use crate::timer::init_timer;
use crate::timer::new_timer;
use crate::timer::timer_handler;
use crate::vga::Terminal;

verus! {

/// Every subsystem of the kernel, as the boot sequence leaves them.
/// `kbd_latch` is the byte the keyboard controller holds at port 0x60.
pub struct Kernel {
    pub terminal: Terminal,
    pub gdt: Gdt,
    pub idt: Idt,
    pub pic: Pic,
    pub isr: IsrTable,
    pub timer: Timer,
    pub memory: FrameAllocator,
    pub heap: Heap,
    pub fs: Fs,
    pub vmm: Vmm,
    pub editor: Editor,
    pub shell: Shell,
    pub kbd_latch: u8,
}

impl Kernel {
    pub open spec fn wf(self) -> bool {
        &&& self.terminal.wf()
        &&& self.gdt.wf()
        &&& self.idt.wf()
        &&& self.isr.wf()
        &&& self.memory.wf()
        &&& self.heap.wf()
        &&& self.fs.wf()
        &&& self.vmm.wf()
        &&& self.shell.wf()
    }

    /// The common dispatcher. The handler registered for the frame's
    /// vector runs (a missing handler is silently skipped), and for any
    /// vector in the IRQ range an end-of-interrupt for `vector - 32` is
    /// acknowledged after the handler returns — so a spurious IRQ is
    /// still acknowledged. Handlers leave the register frame unchanged.
    pub fn isr_handler(&mut self, regs: &mut Registers)
        requires
            old(self).wf(),
            old(regs).int_no < 256,
        ensures
            final(self).wf(),
            *final(regs) == *old(regs),
            final(self).isr.handlers@ == old(self).isr.handlers@,
            final(self).gdt == old(self).gdt,
            final(self).idt == old(self).idt,
            final(self).memory == old(self).memory,
            final(self).heap == old(self).heap,
            final(self).fs == old(self).fs,
            final(self).vmm == old(self).vmm,
            final(self).kbd_latch == old(self).kbd_latch,
            final(self).pic.imr_master == old(self).pic.imr_master,
            final(self).pic.imr_slave == old(self).pic.imr_slave,
            ({
                let v = old(regs).int_no as int;
                let h = old(self).isr.handlers@[v];
                let handler_eois: Seq<u8> = if h == Some(Handler::Keyboard) {
                    seq![1u8]
                } else {
                    Seq::empty()
                };
                let dispatch_eois: Seq<u8> = if v >= 32 {
                    seq![(v - 32) as u8]
                } else {
                    Seq::empty()
                };
                &&& final(self).pic.eoi_log@ == old(self).pic.eoi_log@ + handler_eois
                    + dispatch_eois
                &&& (h is None ==> final(self).timer == old(self).timer && final(self).shell.buffer@
                    == old(self).shell.buffer@ && final(self).shell.index == old(self).shell.index
                    && final(self).terminal.model() == old(self).terminal.model()
                    && final(self).terminal.color == old(self).terminal.color
                    && final(self).editor.active == old(self).editor.active)
                &&& (h == Some(Handler::Timer)
                    ==> final(self).timer.ticks == ((old(self).timer.ticks + 1) % 0x1_0000_0000) as u32
                    && final(self).timer.divisor == old(self).timer.divisor
                    && final(self).shell.buffer@ == old(self).shell.buffer@
                    && final(self).shell.index == old(self).shell.index
                    && final(self).terminal.model() == old(self).terminal.model()
                    && final(self).terminal.color == old(self).terminal.color
                    && final(self).editor.active == old(self).editor.active)
                &&& (h == Some(Handler::Keyboard) ==> final(self).timer == old(self).timer && (if
                    old(self).editor.active {
                    &&& !final(self).editor.active
                    &&& final(self).shell.buffer@ == old(self).shell.buffer@
                    &&& final(self).shell.index == old(self).shell.index
                    &&& final(self).terminal.model() == old(self).terminal.model()
                    &&& final(self).terminal.color == old(self).terminal.color
                } else {
                    let (b2, i2, m2) = spec_shell_step(
                        old(self).shell.buffer@,
                        old(self).shell.index as int,
                        old(self).terminal.model(),
                        old(self).terminal.color,
                        spec_scancode_to_ascii(old(self).kbd_latch),
                    );
                    &&& !final(self).editor.active
                    &&& final(self).shell.buffer@ == b2
                    &&& final(self).shell.index == i2
                    &&& final(self).terminal.model() == m2
                    &&& final(self).terminal.color == old(self).terminal.color
                }))
            }),
    {
        let ghost pre_log = self.pic.eoi_log@;
        let v = regs.int_no;
        let h = self.isr.handlers[v as usize];
        match h {
            Some(Handler::Timer) => {
                timer_handler(&mut self.timer, regs);
            },
            Some(Handler::Keyboard) => {
                keyboard_callback(
                    self.kbd_latch,
                    &mut self.editor,
                    &mut self.shell,
                    &mut self.terminal,
                    &mut self.pic,
                );
            },
            None => {},
        }
        if v >= 32 {
            self.pic.pic_send_eoi((v - 32) as u8);
        }
        proof {
            let hs = old(self).isr.handlers@[v as int];
            let handler_eois: Seq<u8> = if hs == Some(Handler::Keyboard) {
                seq![1u8]
            } else {
                Seq::<u8>::empty()
            };
            let dispatch_eois: Seq<u8> = if v as int >= 32 {
                seq![(v as int - 32) as u8]
            } else {
                Seq::<u8>::empty()
            };
            assert(self.pic.eoi_log@ =~= pre_log + handler_eois + dispatch_eois);
        }
    }

    /// A key press as the machine delivers it: the controller latches the
    /// scancode at port 0x60 and raises IRQ 1, which arrives as vector 33.
    pub fn press_key(&mut self, scancode: u8)
        requires
            old(self).wf(),
        ensures
            final(self).wf(),
            final(self).kbd_latch == scancode,
            final(self).isr.handlers@ == old(self).isr.handlers@,
            final(self).fs == old(self).fs,
            final(self).heap == old(self).heap,
            final(self).timer == old(self).timer || old(self).isr.handlers@[33] == Some(
                Handler::Timer,
            ),
            ({
                let h = old(self).isr.handlers@[33];
                let handler_eois: Seq<u8> = if h == Some(Handler::Keyboard) {
                    seq![1u8]
                } else {
                    Seq::empty()
                };
                &&& final(self).pic.eoi_log@ == old(self).pic.eoi_log@ + handler_eois + seq![1u8]
                &&& (h == Some(Handler::Keyboard) && !old(self).editor.active ==> {
                    let (b2, i2, m2) = spec_shell_step(
                        old(self).shell.buffer@,
                        old(self).shell.index as int,
                        old(self).terminal.model(),
                        old(self).terminal.color,
                        spec_scancode_to_ascii(scancode),
                    );
                    &&& final(self).shell.buffer@ == b2
                    &&& final(self).shell.index == i2
                    &&& final(self).terminal.model() == m2
                    &&& final(self).terminal.color == old(self).terminal.color
                })
            }),
    {
        self.kbd_latch = scancode;
        let mut regs = Registers {
            ds: 0,
            edi: 0,
            esi: 0,
            ebp: 0,
            esp: 0,
            ebx: 0,
            edx: 0,
            ecx: 0,
            eax: 0,
            int_no: 33,
            err_code: 0,
            eip: 0,
            cs: 0,
            eflags: 0,
            useresp: 0,
            ss: 0,
        };
        self.isr_handler(&mut regs);
    }

    /// A timer interrupt as the machine delivers it: vector 32.
    pub fn timer_tick(&mut self)
        requires
            old(self).wf(),
        ensures
            final(self).wf(),
            final(self).isr.handlers@ == old(self).isr.handlers@,
            final(self).fs == old(self).fs,
            final(self).heap == old(self).heap,
            old(self).isr.handlers@[32] == Some(Handler::Timer) ==> final(self).timer.ticks == ((
            old(self).timer.ticks + 1) % 0x1_0000_0000) as u32 && final(self).terminal.model()
                == old(self).terminal.model(),
            ({
                let h = old(self).isr.handlers@[32];
                let handler_eois: Seq<u8> = if h == Some(Handler::Keyboard) {
                    seq![1u8]
                } else {
                    Seq::empty()
                };
                final(self).pic.eoi_log@ == old(self).pic.eoi_log@ + handler_eois + seq![0u8]
            }),
    {
        let mut regs = Registers {
            ds: 0,
            edi: 0,
            esi: 0,
            ebp: 0,
            esp: 0,
            ebx: 0,
            edx: 0,
            ecx: 0,
            eax: 0,
            int_no: 32,
            err_code: 0,
            eip: 0,
            cs: 0,
            eflags: 0,
            useresp: 0,
            ss: 0,
        };
        self.isr_handler(&mut regs);
    }
}

/// "========== KERNEL PANIC ==========", the panic heading.
pub open spec fn spec_panic_heading() -> Seq<u8> {
    seq![
        61u8, 61u8, 61u8, 61u8, 61u8, 61u8, 61u8, 61u8, 61u8, 61u8, 32u8, 75u8, 69u8, 82u8,
        78u8, 69u8, 76u8, 32u8, 80u8, 65u8, 78u8, 73u8, 67u8, 32u8, 61u8, 61u8, 61u8, 61u8,
        61u8, 61u8, 61u8, 61u8, 61u8, 61u8,
    ]
}

/// The closing rule under the panic report: 34 equals signs.
pub open spec fn spec_panic_rule() -> Seq<u8> {
    Seq::new(34, |i: int| 61u8)
}

/// "Location: ", the prefix of the source-position line.
pub open spec fn spec_location_prefix() -> Seq<u8> {
    seq![76u8, 111u8, 99u8, 97u8, 116u8, 105u8, 111u8, 110u8, 58u8, 32u8]
}

/// The console as the panic path leaves it before the CPU halts: black on
/// red, cleared, then ":(", the heading, the message, the source position
/// and the closing rule, one line each.
pub open spec fn spec_panic_screen(msg: Seq<u8>, location: Seq<u8>) -> crate::vga::TermModel {
    let red: u8 = 0x40;
    let cleared = crate::vga::TermModel {
        row: 0,
        column: 0,
        buffer: Seq::new(2000, |i: int| crate::vga::spec_entry(32, red)),
    };
    let line = |m: crate::vga::TermModel, s: Seq<u8>| crate::vga::spec_new_line(
        crate::vga::spec_write_bytes(m, red, s),
        red,
    );
    line(
        line(
            line(line(line(cleared, seq![58u8, 40u8]), spec_panic_heading()), msg),
            spec_location_prefix() + location,
        ),
        spec_panic_rule(),
    )
}

/// The panic path: paint the console black on red, clear it, and print
/// the sad face, the heading, the message, the source position and the
/// closing rule. The caller formats the message and position (that is
/// host-side string work) and halts the CPU afterwards; this function
/// only leaves the console exactly as `spec_panic_screen` says.
pub fn panic_banner(term: &mut Terminal, msg: &[u8], location: &[u8])
    requires
        old(term).wf(),
    ensures
        final(term).wf(),
        final(term).color == 0x40,
        final(term).model() == spec_panic_screen(msg@, location@),
{
    term.set_full_color(crate::vga::VgaColor::Black, crate::vga::VgaColor::Red);
    proof {
        assert((0u8 | (4u8 << 4)) == 0x40u8) by (bit_vector);
    }
    term.clear();
    proof {
        assert(term.model() == (crate::vga::TermModel {
            row: 0,
            column: 0,
            buffer: Seq::new(2000, |i: int| crate::vga::spec_entry(32, 0x40)),
        })) by {
            assert(term.buffer@ =~= Seq::new(2000, |i: int| crate::vga::spec_entry(32, 0x40)));
        }
    }
    let mut sad: Vec<u8> = Vec::new();
    sad.push(58);
    sad.push(40);
    proof {
        assert(sad@ =~= seq![58u8, 40u8]);
    }
    term.write_line(sad.as_slice());
    let heading = panic_heading_bytes();
    term.write_line(heading.as_slice());
    term.write_line(msg);
    let mut position: Vec<u8> = Vec::new();
    position.push(76);
    position.push(111);
    position.push(99);
    position.push(97);
    position.push(116);
    position.push(105);
    position.push(111);
    position.push(110);
    position.push(58);
    position.push(32);
    let mut k: usize = 0;
    while k < location.len()
        invariant
            k <= location@.len(),
            position@.len() == 10 + k,
            position@ == spec_location_prefix() + location@.subrange(0, k as int),
        decreases location@.len() - k,
    {
        position.push(location[k]);
        proof {
            assert(position@ =~= spec_location_prefix() + location@.subrange(0, k as int + 1));
        }
        k = k + 1;
    }
    proof {
        assert(position@ =~= spec_location_prefix() + location@.subrange(0, k as int));
        assert(location@.subrange(0, location@.len() as int) =~= location@);
    }
    term.write_line(position.as_slice());
    let mut rule: Vec<u8> = Vec::new();
    let mut j: usize = 0;
    while j < 34
        invariant
            j <= 34,
            rule@.len() == j,
            forall|m: int| 0 <= m < j ==> rule@[m] == 61u8,
        decreases 34 - j,
    {
        rule.push(61);
        j = j + 1;
    }
    proof {
        assert(rule@ =~= spec_panic_rule());
    }
    term.write_line(rule.as_slice());
}

fn panic_heading_bytes() -> (r: Vec<u8>)
    ensures
        r@ == spec_panic_heading(),
{
    let mut v: Vec<u8> = Vec::new();
    let mut j: usize = 0;
    while j < 10
        invariant
            j <= 10,
            v@.len() == j,
            forall|m: int| 0 <= m < j ==> v@[m] == 61u8,
        decreases 10 - j,
    {
        v.push(61);
        j = j + 1;
    }
    v.push(32);
    v.push(75);
    v.push(69);
    v.push(82);
    v.push(78);
    v.push(69);
    v.push(76);
    v.push(32);
    v.push(80);
    v.push(65);
    v.push(78);
    v.push(73);
    v.push(67);
    v.push(32);
    let mut k: usize = 0;
    while k < 10
        invariant
            k <= 10,
            v@.len() == 24 + k,
            forall|m: int| 0 <= m < 24 ==> v@[m] == spec_panic_heading()[m],
            forall|m: int| 24 <= m < 24 + k ==> v@[m] == 61u8,
        decreases 10 - k,
    {
        v.push(61);
        k = k + 1;
    }
    proof {
        assert(v@ =~= spec_panic_heading());
    }
    v
}

fn hello_bytes() -> (r: Vec<u8>)
    ensures
        r@.len() == 23,
{
    let mut v: Vec<u8> = Vec::new();
    v.push(72);
    v.push(101);
    v.push(108);
    v.push(108);
    v.push(111);
    v.push(32);
    v.push(102);
    v.push(114);
    v.push(111);
    v.push(109);
    v.push(32);
    v.push(82);
    v.push(117);
    v.push(115);
    v.push(116);
    v.push(32);
    v.push(107);
    v.push(101);
    v.push(114);
    v.push(110);
    v.push(101);
    v.push(108);
    v.push(33);
    v
}

/// The boot sequence, in its required order: console, GDT, IDT, PIC
/// remap, timer armed at 1000 Hz, frame allocator zeroed, heap laid out,
/// filesystem rooted, paging filled and enabled, keyboard installed, and
/// the shell greeting printed. Each IRQ line is unmasked only after its
/// handler is registered. `table_bases` are the 4 KiB-aligned physical
/// addresses of the four static page tables.
pub fn rust_main(table_bases: &Vec<u32>) -> (k: Kernel)
    requires
        table_bases@.len() == 4,
        forall|t: int| 0 <= t < 4 ==> (#[trigger] table_bases@[t]) % 4096 == 0,
    ensures
        k.wf(),
        k.gdt.entries@ == seq![
            spec_gdt_entry(0, 0, 0, 0),
            spec_gdt_entry(0, 0xFFFFF, 0x9A, 0xCF),
            spec_gdt_entry(0, 0xFFFFF, 0x92, 0xCF),
            spec_gdt_entry(0, 0xFFFFF, 0xFA, 0xCF),
            spec_gdt_entry(0, 0xFFFFF, 0xF2, 0xCF),
        ],
        k.timer.ticks == 0,
        k.timer.divisor == 1193,
        k.isr.handlers@[32] == Some(Handler::Timer),
        k.isr.handlers@[33] == Some(Handler::Keyboard),
        forall|n: int| 0 <= n < 256 && n != 32 && n != 33 ==> k.isr.handlers@[n] is None,
        spec_irq_unmasked(k.pic, 0),
        spec_irq_unmasked(k.pic, 1),
        k.pic.eoi_log@.len() == 0,
        k.memory.used_frames == 0,
        k.memory.counts(),
        k.fs.nodes@.len() == 1,
        k.fs.nodes@[0].node_type == NodeType::Directory,
        forall|j: int| 0 <= j < 16 ==> !(#[trigger] k.fs.fds@[j]).used,
        k.vmm.enabled,
        forall|t: int, i: int| 0 <= t < 4 && 0 <= i < 1024 ==> (#[trigger] k.vmm.tables@[t]@[i])
            == crate::paging::spec_identity_entry(t, i),
        !k.editor.active,
        k.shell.index == 0,
{
    let mut terminal = Terminal::new();
    terminal.initialize();
    let hello = hello_bytes();
    terminal.write_line(hello.as_slice());
    let gdt = init_gdt();
    let idt = init_idt();
    let mut pic = pic_new(0xFF, 0xFF);
    let _remap_writes = pic.init_pic();
    let mut isr = new_isr_table();
    let mut timer = new_timer();
    let _pit_writes = init_timer(&mut timer, &mut isr, &mut pic, 1000);
    let memory = initialize();
    let mut heap = init_heap();
    let fs = match fs_init(&mut heap) {
        Some(fs) => fs,
        None => {
            proof {
                let blocks = crate::heap::spec_init_blocks();
                assert(crate::heap::spec_fits(
                    blocks[0],
                    crate::heap::spec_align16(crate::ramfs::FS_NODE_SIZE as int),
                ));
                assert(!crate::heap::spec_no_fit(
                    blocks,
                    crate::heap::spec_align16(crate::ramfs::FS_NODE_SIZE as int),
                ));
            }
            vstd::pervasive::unreached()
        },
    };
    let mut vmm = vmm_init(table_bases);
    vmm.vmm_enable();
    keyboard_install(&mut isr, &mut pic);
    let mut shell = new_shell();
    crate::shell::init(&mut terminal);
    let editor = new_editor();
    proof {
        let m: u8 = 0xFF;
        assert(((m & !(1u8 << 0u8)) & !(1u8 << 1u8)) & (1u8 << 0u8) == 0) by (bit_vector);
        assert(((m & !(1u8 << 0u8)) & !(1u8 << 1u8)) & (1u8 << 1u8) == 0) by (bit_vector);
    }
    Kernel {
        terminal,
        gdt,
        idt,
        pic,
        isr,
        timer,
        memory,
        heap,
        fs,
        vmm,
        editor,
        shell,
        kbd_latch: 0,
    }
}

} // verus!
