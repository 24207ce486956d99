use hs::console::{
    console_irq, escape_key, runcmd, strequals, uart_init, ArrowKey, Command, ConsoleAction,
    LineEditor, Uart, UartWrite,
};
use hs::ringbuffer::{RingBuffer, RING_BUFFER_SIZE};

#[test]
fn uart_init_writes_lcr_fcr_icr() {
    assert_eq!(
        uart_init(),
        vec![
            UartWrite { addr: 0x1000_0003, value: 3 },
            UartWrite { addr: 0x1000_0002, value: 1 },
            UartWrite { addr: 0x1000_0001, value: 1 },
        ]
    );
}

#[test]
fn read_char_only_when_data_ready() {
    let mut u = Uart;
    assert_eq!(u.read_char(0x61), Some(0x1000_0000));
    assert_eq!(u.read_char(0x60), None);
}

#[test]
fn console_irq_stores_received_byte() {
    let mut buf = RingBuffer::new();
    assert!(console_irq(&mut buf, Some(b'a')));
    assert!(!console_irq(&mut buf, None));
    assert_eq!(buf.len(), 1);
    assert_eq!(buf.pop(), Some(b'a'));
    for i in 0..RING_BUFFER_SIZE {
        assert!(console_irq(&mut buf, Some(i as u8)));
    }
    assert!(!console_irq(&mut buf, Some(0xEE)));
    assert_eq!(buf.len(), RING_BUFFER_SIZE);
    assert_eq!(buf.pop(), Some(0));
}

#[test]
fn tx_ready_reads_bit_six() {
    assert!(Uart::tx_ready(0x40));
    assert!(Uart::tx_ready(0x60));
    assert!(!Uart::tx_ready(0x21));
    let mut u = Uart;
    assert_eq!(u.write_char(b'x'), UartWrite { addr: 0x1000_0000, value: b'x' });
}

#[test]
fn strequals_cases() {
    assert!(strequals(b"quit\0", b"quit"));
    assert!(strequals(b"quitter", b"quit"));
    assert!(!strequals(b"qu", b"quit"));
    assert!(!strequals(b"q\0xxxx", b"quit"));
    assert!(!strequals(b"\0abc", b"ab"));
    assert!(strequals(b"ab\0zz", b"ab\0q"));
    assert!(strequals(b"anything", b""));
}

#[test]
fn runcmd_matches_commands() {
    assert_eq!(runcmd(b"quit\0\0\0"), Command::Quit);
    assert_eq!(runcmd(b"help\0\0\0"), Command::Help);
    assert_eq!(runcmd(b"hello\0\0"), Command::NotFound);
    assert_eq!(runcmd(b"qui"), Command::NotFound);
}

#[test]
fn escape_keys() {
    assert_eq!(escape_key(0x5B, 0x41), Some(ArrowKey::Up));
    assert_eq!(escape_key(0x5B, 0x42), Some(ArrowKey::Down));
    assert_eq!(escape_key(0x5B, 0x43), Some(ArrowKey::Right));
    assert_eq!(escape_key(0x5B, 0x44), Some(ArrowKey::Left));
    assert_eq!(escape_key(0x5B, 0x40), None);
    assert_eq!(escape_key(0x4F, 0x41), None);
}

fn type_line(e: &mut LineEditor, s: &[u8]) -> Vec<ConsoleAction> {
    s.iter().map(|c| e.step(*c)).collect()
}

#[test]
fn editor_runs_quit() {
    let mut e = LineEditor::new(16);
    let acts = type_line(&mut e, b"quit");
    assert_eq!(acts, b"quit".iter().map(|c| ConsoleAction::Echo(*c)).collect::<Vec<_>>());
    assert_eq!(e.typed(), 4);
    assert_eq!(e.step(13), ConsoleAction::Submit(Some(Command::Quit)));
    assert_eq!(e.typed(), 0);
    assert_eq!(&e.buffer()[..5], b"quit\0");
}

#[test]
fn editor_runs_help_and_unknown() {
    let mut e = LineEditor::new(16);
    type_line(&mut e, b"help");
    assert_eq!(e.step(10), ConsoleAction::Submit(Some(Command::Help)));
    type_line(&mut e, b"hello");
    assert_eq!(e.step(10), ConsoleAction::Submit(Some(Command::NotFound)));
    type_line(&mut e, b"qu");
    assert_eq!(e.step(13), ConsoleAction::Submit(Some(Command::NotFound)));
}

#[test]
fn editor_prefix_matching() {
    let mut e = LineEditor::new(16);
    type_line(&mut e, b"quitx");
    assert_eq!(e.step(13), ConsoleAction::Submit(Some(Command::Quit)));
}

#[test]
fn editor_empty_line() {
    let mut e = LineEditor::new(8);
    assert_eq!(e.step(13), ConsoleAction::Submit(None));
    assert_eq!(e.buffer()[0], 0);
}

#[test]
fn editor_backspace() {
    let mut e = LineEditor::new(8);
    assert_eq!(e.step(127), ConsoleAction::Ignore);
    type_line(&mut e, b"ab");
    assert_eq!(e.step(b'c'), ConsoleAction::Echo(b'c'));
    assert_eq!(e.step(127), ConsoleAction::Erase);
    assert_eq!(e.typed(), 2);
    assert_eq!(&e.buffer()[..2], b"ab");
}

#[test]
fn editor_control_and_escape() {
    let mut e = LineEditor::new(8);
    assert_eq!(e.step(5), ConsoleAction::ShowCode(5));
    assert_eq!(e.step(0x1B), ConsoleAction::Escape);
    assert_eq!(e.step(19), ConsoleAction::ShowCode(19));
    assert_eq!(e.typed(), 0);
}

#[test]
fn editor_keeps_room_for_terminator() {
    let mut e = LineEditor::new(4);
    let acts = type_line(&mut e, b"abcd");
    assert_eq!(acts[..3], [ConsoleAction::Echo(b'a'), ConsoleAction::Echo(b'b'), ConsoleAction::Echo(b'c')]);
    assert_eq!(acts[3], ConsoleAction::Ignore);
    assert_eq!(e.typed(), 3);
    assert_eq!(e.step(13), ConsoleAction::Submit(Some(Command::NotFound)));
    assert_eq!(e.buffer(), b"abc\0");
}

#[test]
fn editor_new_is_zeroed() {
    let e = LineEditor::new(3);
    assert_eq!(e.buffer(), &[0u8, 0, 0]);
    assert_eq!(e.typed(), 0);
}
