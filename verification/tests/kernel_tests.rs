use rust_kernel::isr::Handler;
use rust_kernel::isr::Registers;
use rust_kernel::kernel::rust_main;
use rust_kernel::keyboard::scancode_to_ascii;
use rust_kernel::timer::ticks;
use rust_kernel::vga::Terminal;

fn table_bases() -> Vec<u32> {
    vec![0x0010_0000, 0x0010_1000, 0x0010_2000, 0x0010_3000]
}

fn frame(vector: u32) -> Registers {
    Registers {
        ds: 0,
        edi: 0,
        esi: 0,
        ebp: 0,
        esp: 0,
        ebx: 0,
        edx: 0,
        ecx: 0,
        eax: 0,
        int_no: vector,
        err_code: 0,
        eip: 0,
        cs: 0,
        eflags: 0,
        useresp: 0,
        ss: 0,
    }
}

#[test]
fn boot_arms_the_timer_and_keyboard_before_unmasking() {
    let bases = table_bases();
    let k = rust_main(&bases);
    assert_eq!(k.isr.handlers[32], Some(Handler::Timer));
    assert_eq!(k.isr.handlers[33], Some(Handler::Keyboard));
    assert_eq!(k.isr.handlers[34], None);
    assert_eq!(k.pic.imr_master, 0xFC);
    assert_eq!(k.pic.imr_slave, 0xFF);
    assert_eq!(k.timer.divisor, 1193);
    assert_eq!(ticks(&k.timer), 0);
    assert!(k.vmm.enabled);
    assert!(!k.editor.active);
    assert_eq!(k.fs.nodes.len(), 1);
}

#[test]
fn ten_timer_interrupts_advance_the_tick_counter_by_ten() {
    let bases = table_bases();
    let mut k = rust_main(&bases);
    // the armed timer raises vector 32 once per millisecond at 1000 Hz;
    // here the interrupts are delivered by hand, so only the count is
    // checked, not the wall-clock rate of the machine's timer crystal
    for _ in 0..10 {
        k.timer_tick();
    }
    assert!(ticks(&k.timer) >= 10);
    assert_eq!(ticks(&k.timer), 10);
}

#[test]
fn dispatch_without_a_handler_still_acknowledges_the_irq() {
    let bases = table_bases();
    let mut k = rust_main(&bases);
    let eois = k.pic.eoi_log.len();
    let mut regs = frame(40);
    k.isr_handler(&mut regs);
    assert_eq!(k.pic.eoi_log.len(), eois + 1);
    assert_eq!(k.pic.eoi_log[eois], 8);
    // an exception vector gets no acknowledgement
    let mut regs = frame(13);
    k.isr_handler(&mut regs);
    assert_eq!(k.pic.eoi_log.len(), eois + 1);
}

#[test]
fn the_keyboard_handler_acknowledges_before_the_dispatcher_does() {
    let bases = table_bases();
    let mut k = rust_main(&bases);
    let eois = k.pic.eoi_log.len();
    k.press_key(0x1E);
    // the handler sends its own EOI for IRQ 1 and the dispatcher repeats it
    assert_eq!(k.pic.eoi_log.len(), eois + 2);
    assert_eq!(k.pic.eoi_log[eois], 1);
    assert_eq!(k.pic.eoi_log[eois + 1], 1);
}

#[test]
fn scancodes_translate_to_the_fixed_ascii_subset() {
    assert_eq!(scancode_to_ascii(0x1E), Some(b'a'));
    assert_eq!(scancode_to_ascii(0x1C), Some(b'\n'));
    assert_eq!(scancode_to_ascii(2), Some(b'1'));
    assert_eq!(scancode_to_ascii(11), Some(b'0'));
    assert_eq!(scancode_to_ascii(57), Some(b' '));
    assert_eq!(scancode_to_ascii(14), Some(0));
    assert_eq!(scancode_to_ascii(15), Some(b'\t'));
    assert_eq!(scancode_to_ascii(0x60), None);
    assert_eq!(scancode_to_ascii(1), None);
}

#[test]
fn a_key_press_echoes_through_the_shell_onto_the_console() {
    let bases = table_bases();
    let mut k = rust_main(&bases);
    let row = k.terminal.row;
    let col = k.terminal.column;
    let color = k.terminal.color;
    k.press_key(0x1E);
    assert_eq!(k.terminal.buffer[row * 80 + col], Terminal::make_entry(b'a', color));
    assert_eq!(k.terminal.column, col + 1);
    assert_eq!(k.shell.index, 1);
    assert_eq!(k.shell.buffer[0], b'a');
}

#[test]
fn enter_breaks_the_line_and_reprints_the_prompt() {
    let bases = table_bases();
    let mut k = rust_main(&bases);
    let row = k.terminal.row;
    k.press_key(0x1E);
    k.press_key(0x1C);
    let color = k.terminal.color;
    assert_eq!(k.terminal.row, row + 1);
    assert_eq!(k.terminal.column, 10);
    let prompt = b"nutshell> ";
    for (i, &c) in prompt.iter().enumerate() {
        assert_eq!(k.terminal.buffer[(row + 1) * 80 + i], Terminal::make_entry(c, color));
    }
    assert_eq!(k.shell.index, 0);
}

#[test]
fn the_help_command_is_answered() {
    let bases = table_bases();
    let mut k = rust_main(&bases);
    let row = k.terminal.row;
    for &sc in &[0x23u8, 0x12, 0x26, 0x19] {
        k.press_key(sc);
    }
    assert_eq!(&k.shell.buffer[..4], b"help");
    k.press_key(0x1C);
    let color = k.terminal.color;
    let answer = b"Available commands: help";
    for (i, &c) in answer.iter().enumerate() {
        assert_eq!(k.terminal.buffer[(row + 1) * 80 + i], Terminal::make_entry(c, color));
    }
    // the prompt follows on the next line
    assert_eq!(k.terminal.row, row + 2);
    assert_eq!(k.terminal.column, 10);
}

#[test]
fn an_active_editor_swallows_the_key_and_exits() {
    let bases = table_bases();
    let mut k = rust_main(&bases);
    k.editor.start(&mut k.terminal);
    assert!(k.editor.is_active());
    let row = k.terminal.row;
    let col = k.terminal.column;
    k.press_key(0x1E);
    // the key went to the editor, which only deactivates itself
    assert!(!k.editor.is_active());
    assert_eq!(k.shell.index, 0);
    assert_eq!((k.terminal.row, k.terminal.column), (row, col));
    // the next key reaches the shell again
    k.press_key(0x1E);
    assert_eq!(k.shell.index, 1);
}

#[test]
fn the_boot_console_greets_and_prompts() {
    let bases = table_bases();
    let k = rust_main(&bases);
    let color = k.terminal.color;
    // "Hello from Rust kernel!" on the first row
    assert_eq!(k.terminal.buffer[0], Terminal::make_entry(b'H', color));
    // the shell greeting on the second, the prompt on the third
    assert_eq!(k.terminal.buffer[80], Terminal::make_entry(b'W', color));
    assert_eq!(k.terminal.buffer[2 * 80], Terminal::make_entry(b'n', color));
    assert_eq!((k.terminal.row, k.terminal.column), (2, 10));
}
