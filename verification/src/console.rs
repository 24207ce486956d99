//! NS16550A UART console: register accesses, the command matcher and the
//! line editor that turns received bytes into screen actions and commands.
use vstd::prelude::*;
use crate::ringbuffer::{RingBuffer, RING_BUFFER_SIZE};

verus! {

/// Base address of the NS16550A UART on the QEMU `virt` board.
pub const UART_BASE: usize = 0x1000_0000;

/// Transmitter Holding Register: the byte to send.
pub const UART_THR: usize = 0;

/// Receiver Buffer Register: the byte received.
pub const UART_RBR: usize = 0;

/// Interrupt Control Register.
pub const UART_ICR: usize = 1;

/// FIFO Control Register.
pub const UART_FCR: usize = 2;

/// Line Control Register: word length, stop bits and the like.
pub const UART_LCR: usize = 3;

/// Line Status Register.
pub const UART_LSR: usize = 5;

/// MMIO address of the QEMU test finisher device.
pub const TEST_FINISHER: usize = 0x10_0000;

/// Value that asks the test finisher to power the machine off.
pub const FINISHER_POWEROFF: u16 = 0x5555;

/// A byte-wide store to a UART register.
#[derive(PartialEq, Eq, Structural, Debug, Clone, Copy)]
pub struct UartWrite {
    pub addr: usize,
    pub value: u8,
}

/// The store that writes `val` into UART register `reg`.
pub fn uart_write(reg: usize, val: u8) -> (w: UartWrite)
    requires
        reg <= UART_LSR,
    ensures
        w == (UartWrite { addr: (UART_BASE + reg) as usize, value: val }),
{
    UartWrite { addr: UART_BASE + reg, value: val }
}

/// The address of UART register `reg`, to be read.
pub fn uart_read(reg: usize) -> (addr: usize)
    requires
        reg <= UART_LSR,
    ensures
        addr == UART_BASE + reg,
{
    UART_BASE + reg
}

/// The stores that initialise the UART: 8-bit words (LCR = 3), FIFO on
/// (FCR = 1) and an interrupt when data arrives in RBR (ICR = 1), in that order.
pub open spec fn uart_init_writes() -> Seq<UartWrite> {
    seq![
        UartWrite { addr: (UART_BASE + UART_LCR) as usize, value: 3u8 },
        UartWrite { addr: (UART_BASE + UART_FCR) as usize, value: 1u8 },
        UartWrite { addr: (UART_BASE + UART_ICR) as usize, value: 1u8 },
    ]
}

/// The stores that initialise the UART, in order.
pub fn uart_init() -> (ws: Vec<UartWrite>)
    ensures
        ws@ == uart_init_writes(),
{
    let mut ws: Vec<UartWrite> = Vec::new();
    ws.push(uart_write(UART_LCR, 3));
    ws.push(uart_write(UART_FCR, 1));
    ws.push(uart_write(UART_ICR, 1));
    ws
}

/// Bit 0 of the line status: a received byte waits in RBR.
pub open spec fn lsr_data_ready(lsr: u8) -> bool {
    lsr % 2 == 1
}

/// Bit 6 of the line status: the transmitter holding register is empty.
pub open spec fn lsr_thr_empty(lsr: u8) -> bool {
    (lsr / 64) % 2 == 1
}

/// The UART device.
pub struct Uart;

impl Uart {
    /// Given the line status `lsr`, the address of the receive register to
    /// read when a byte is waiting, or `None` when none is.
    pub fn read_char(&mut self, lsr: u8) -> (r: Option<usize>)
        ensures
            r == (if lsr_data_ready(lsr) { Some((UART_BASE + UART_RBR) as usize) } else { None::<usize> }),
    {
        let ready = lsr & 1 == 1;
        assert((lsr & 1 == 1) == (lsr % 2 == 1)) by (bit_vector);
        if ready {
            Some(uart_read(UART_RBR))
        } else {
            None
        }
    }

    /// Whether the line status `lsr` lets a byte be sent now.
    pub fn tx_ready(lsr: u8) -> (r: bool)
        ensures
            r == lsr_thr_empty(lsr),
    {
        let r = lsr & (1u8 << 6u8) != 0;
        assert((lsr & (1u8 << 6u8) != 0) == ((lsr / 64) % 2 == 1)) by (bit_vector);
        r
    }

    /// The store that sends the byte `c`, once the transmitter is ready.
    pub fn write_char(&mut self, c: u8) -> (w: UartWrite)
        ensures
            w == (UartWrite { addr: (UART_BASE + UART_THR) as usize, value: c }),
    {
        uart_write(UART_THR, c)
    }
}

/// On the console interrupt: moves the byte `received` from the UART, if
/// one arrived (see `Uart::read_char` for when it is read), into the
/// console buffer, and tells whether it was stored. A full buffer drops it;
/// no UART register is written.
pub fn console_irq(buffer: &mut RingBuffer, received: Option<u8>) -> (stored: bool)
    ensures
        match received {
            Some(b) => {
                &&& stored == (old(buffer)@.len() < RING_BUFFER_SIZE)
                &&& stored ==> final(buffer)@ == old(buffer)@.push(b)
                &&& !stored ==> final(buffer)@ == old(buffer)@
            },
            None => !stored && final(buffer)@ == old(buffer)@,
        },
{
    match received {
        Some(b) => buffer.push(b),
        None => false,
    }
}

/// NUL-terminated comparison: `left` is at least as long as `right`, and at
/// every index of `right` that no NUL in `left` comes before, the bytes agree.
pub open spec fn str_equals(left: Seq<u8>, right: Seq<u8>) -> bool {
    &&& left.len() >= right.len()
    &&& forall|i: int|
        0 <= i < right.len() && (forall|j: int| 0 <= j < i ==> left[j] != 0u8) ==> #[trigger] left[i]
            == right[i]
}

/// Compares two byte strings as C strings would, `left` being the
/// NUL-terminated input: false when `left` is shorter than `right`.
pub fn strequals(left: &[u8], right: &[u8]) -> (r: bool)
    ensures
        r == str_equals(left@, right@),
{
    if left.len() < right.len() {
        return false;
    }
    let mut i: usize = 0;
    while i < right.len()
        invariant
            left@.len() >= right@.len(),
            i <= right@.len(),
            forall|j: int| 0 <= j < i ==> left@[j] != 0u8,
            forall|k: int| 0 <= k < i ==> #[trigger] left@[k] == right@[k],
        decreases right@.len() - i,
    {
        if left[i] != right[i] {
            assert(!(left@[i as int] == right@[i as int]));
            return false;
        } else if left[i] == 0 {
            assert forall|k: int|
                0 <= k < right@.len() && (forall|j: int| 0 <= j < k ==> left@[j] != 0u8) implies
                #[trigger] left@[k] == right@[k] by {
                if k > i {
                    assert(left@[i as int] == 0u8);
                }
            }
            return true;
        }
        i += 1;
    }
    true
}

/// The console commands.
#[derive(PartialEq, Eq, Structural, Debug, Clone, Copy)]
pub enum Command {
    /// Power the machine off.
    Quit,
    /// List the commands.
    Help,
    /// Anything else.
    NotFound,
}

/// The bytes of the word `quit`.
pub open spec fn quit_word() -> Seq<u8> {
    seq![113u8, 117u8, 105u8, 116u8]
}

/// The bytes of the word `help`.
pub open spec fn help_word() -> Seq<u8> {
    seq![104u8, 101u8, 108u8, 112u8]
}

/// The command that a NUL-terminated input buffer names.
pub open spec fn command_of(buffer: Seq<u8>) -> Command {
    if str_equals(buffer, quit_word()) {
        Command::Quit
    } else if str_equals(buffer, help_word()) {
        Command::Help
    } else {
        Command::NotFound
    }
}

/// The command that the NUL-terminated input `buffer` names.
pub fn runcmd(buffer: &[u8]) -> (c: Command)
    ensures
        c == command_of(buffer@),
{
    let quit: [u8; 4] = [113u8, 117u8, 105u8, 116u8];
    let help: [u8; 4] = [104u8, 101u8, 108u8, 112u8];
    assert(quit@ =~= quit_word());
    assert(help@ =~= help_word());
    if strequals(buffer, quit.as_slice()) {
        Command::Quit
    } else if strequals(buffer, help.as_slice()) {
        Command::Help
    } else {
        Command::NotFound
    }
}

/// The arrow keys that an escape sequence can name.
#[derive(PartialEq, Eq, Structural, Debug, Clone, Copy)]
pub enum ArrowKey {
    Up,
    Down,
    Right,
    Left,
}

/// The arrow key of the escape sequence `ESC esc1 esc2`: `ESC [ A` to
/// `ESC [ D`; `None` for any other sequence.
pub fn escape_key(esc1: u8, esc2: u8) -> (k: Option<ArrowKey>)
    ensures
        k == (if esc1 != 0x5Bu8 {
            None::<ArrowKey>
        } else if esc2 == 0x41u8 {
            Some(ArrowKey::Up)
        } else if esc2 == 0x42u8 {
            Some(ArrowKey::Down)
        } else if esc2 == 0x43u8 {
            Some(ArrowKey::Right)
        } else if esc2 == 0x44u8 {
            Some(ArrowKey::Left)
        } else {
            None::<ArrowKey>
        }),
{
    if esc1 == 0x5B {
        match esc2 {
            0x41 => Some(ArrowKey::Up),
            0x42 => Some(ArrowKey::Down),
            0x43 => Some(ArrowKey::Right),
            0x44 => Some(ArrowKey::Left),
            _ => None,
        }
    } else {
        None
    }
}

/// What the console shows, or does, after one received byte.
#[derive(PartialEq, Eq, Structural, Debug, Clone, Copy)]
pub enum ConsoleAction {
    /// Enter: end the line, run the command when the line was not empty,
    /// then show a new prompt.
    Submit(Option<Command>),
    /// Backspace: erase the last character on screen.
    Erase,
    /// Escape: two more bytes name the key.
    Escape,
    /// A control character: show its code.
    ShowCode(u8),
    /// A character added to the line: show it.
    Echo(u8),
    /// Nothing to show.
    Ignore,
}

/// One step of the line editor on the state (buffer, typed) and the
/// received byte `c`: the next state and the action.
pub open spec fn edit(s: (Seq<u8>, nat), c: u8) -> ((Seq<u8>, nat), ConsoleAction) {
    let (buffer, typed) = s;
    if c == 10u8 || c == 13u8 {
        let ended = buffer.update(typed as int, 0u8);
        (
            (ended, 0nat),
            ConsoleAction::Submit(
                if typed > 0 {
                    Some(command_of(ended))
                } else {
                    None
                },
            ),
        )
    } else if c == 127u8 {
        if typed > 0 {
            ((buffer, (typed - 1) as nat), ConsoleAction::Erase)
        } else {
            (s, ConsoleAction::Ignore)
        }
    } else if c == 0x1Bu8 {
        (s, ConsoleAction::Escape)
    } else if c < 20u8 {
        (s, ConsoleAction::ShowCode(c))
    } else if typed + 1 < buffer.len() {
        ((buffer.update(typed as int, c), typed + 1), ConsoleAction::Echo(c))
    } else {
        (s, ConsoleAction::Ignore)
    }
}

/// The line being typed at the console, over a fixed-size buffer.
pub struct LineEditor {
    buffer: Vec<u8>,
    typed: usize,
}

impl View for LineEditor {
    type V = (Seq<u8>, nat);

    closed spec fn view(&self) -> (Seq<u8>, nat) {
        (self.buffer@, self.typed as nat)
    }
}

/// A line editor state is sound when the typed count stays inside the buffer.
pub open spec fn state_wf(s: (Seq<u8>, nat)) -> bool {
    s.1 < s.0.len()
}

/// The characters of the current line.
pub open spec fn line_of(s: (Seq<u8>, nat)) -> Seq<u8> {
    s.0.take(s.1 as int)
}

impl LineEditor {
    /// The typed count stays inside the buffer.
    #[verifier::type_invariant]
    closed spec fn inv(&self) -> bool {
        state_wf(self@)
    }

    /// An empty line over a zeroed buffer of `capacity` bytes.
    pub fn new(capacity: usize) -> (e: Self)
        requires
            capacity > 0,
        ensures
            e@ == (Seq::new(capacity as nat, |i: int| 0u8), 0nat),
            state_wf(e@),
    {
        let mut buffer: Vec<u8> = Vec::new();
        let mut i: usize = 0;
        while i < capacity
            invariant
                i <= capacity,
                buffer@ =~= Seq::new(i as nat, |k: int| 0u8),
            decreases capacity - i,
        {
            buffer.push(0);
            i += 1;
        }
        LineEditor { buffer, typed: 0 }
    }

    /// The number of characters typed on the current line.
    pub fn typed(&self) -> (n: usize)
        ensures
            n == self@.1,
    {
        self.typed
    }

    /// The whole buffer, the current line first.
    pub fn buffer(&self) -> (b: &[u8])
        ensures
            b@ == self@.0,
    {
        self.buffer.as_slice()
    }

    /// Feeds one received byte to the editor.
    pub fn step(&mut self, c: u8) -> (a: ConsoleAction)
        ensures
            state_wf(old(self)@),
            (final(self)@, a) == edit(old(self)@, c),
            state_wf(final(self)@),
    {
        proof {
            use_type_invariant(&*self);
            assert(self.typed < self.buffer.len());
        }
        if c == 10 || c == 13 {
            let t = self.typed;
            self.buffer[t] = 0;
            self.typed = 0;
            if t > 0 {
                let cmd = runcmd(self.buffer.as_slice());
                ConsoleAction::Submit(Some(cmd))
            } else {
                ConsoleAction::Submit(None)
            }
        } else if c == 127 {
            if self.typed > 0 {
                self.typed = self.typed - 1;
                ConsoleAction::Erase
            } else {
                ConsoleAction::Ignore
            }
        } else if c == 0x1B {
            ConsoleAction::Escape
        } else if c < 20 {
            ConsoleAction::ShowCode(c)
        } else if self.typed + 1 < self.buffer.len() {
            let t = self.typed;
            self.buffer[t] = c;
            self.typed = t + 1;
            ConsoleAction::Echo(c)
        } else {
            ConsoleAction::Ignore
        }
    }
}

/// For a word without NUL bytes, the NUL-terminated comparison is prefix
/// matching: `left` begins with `right`.
pub proof fn lemma_strequals_is_prefix(left: Seq<u8>, right: Seq<u8>)
    requires
        forall|i: int| 0 <= i < right.len() ==> #[trigger] right[i] != 0u8,
    ensures
        str_equals(left, right) <==> (left.len() >= right.len() && left.take(right.len() as int)
            =~= right),
{
    if str_equals(left, right) {
        assert forall|i: int| 0 <= i < right.len() implies #[trigger] left[i] == right[i] by {
            lemma_prefix_agrees(left, right, i);
        }
        assert(left.take(right.len() as int) =~= right);
    }
    if left.len() >= right.len() && left.take(right.len() as int) =~= right {
        assert forall|i: int|
            0 <= i < right.len() && (forall|j: int| 0 <= j < i ==> left[j] != 0u8) implies
            #[trigger] left[i] == right[i] by {
            assert(left.take(right.len() as int)[i] == right[i]);
        }
    }
}

/// Under a NUL-free word, bytes agree one by one up to `i`.
proof fn lemma_prefix_agrees(left: Seq<u8>, right: Seq<u8>, i: int)
    requires
        forall|k: int| 0 <= k < right.len() ==> #[trigger] right[k] != 0u8,
        str_equals(left, right),
        0 <= i < right.len(),
    ensures
        left[i] == right[i],
    decreases i,
{
    if i > 0 {
        lemma_prefix_agrees(left, right, i - 1);
        assert forall|j: int| 0 <= j < i implies left[j] != 0u8 by {
            lemma_prefix_agrees(left, right, j);
        }
    }
    assert(left[i] == right[i]);
}

/// Enter on a non-empty line runs `quit` exactly when the line begins with
/// `quit`, `help` exactly when it begins with `help` (and not `quit`), and
/// "command not found" otherwise; the new line is empty.
pub proof fn lemma_enter_runs_line(s: (Seq<u8>, nat))
    requires
        state_wf(s),
        s.1 > 0,
    ensures
        ({
            let (next, action) = edit(s, 13u8);
            let line = line_of(s);
            let starts_quit = line.len() >= 4 && line.take(4) =~= quit_word();
            let starts_help = line.len() >= 4 && line.take(4) =~= help_word();
            &&& line_of(next) =~= Seq::<u8>::empty()
            &&& action == ConsoleAction::Submit(
                Some(
                    if starts_quit {
                        Command::Quit
                    } else if starts_help {
                        Command::Help
                    } else {
                        Command::NotFound
                    },
                ),
            )
        }),
{
    let ended = s.0.update(s.1 as int, 0u8);
    let line = line_of(s);
    lemma_word_match(ended, s.1, line, quit_word());
    lemma_word_match(ended, s.1, line, help_word());
}

/// A NUL-terminated buffer holding `line` matches a four-byte NUL-free word
/// exactly when `line` begins with it.
proof fn lemma_word_match(ended: Seq<u8>, typed: nat, line: Seq<u8>, word: Seq<u8>)
    requires
        word.len() == 4,
        forall|i: int| 0 <= i < 4 ==> #[trigger] word[i] != 0u8,
        typed < ended.len(),
        ended[typed as int] == 0u8,
        line =~= ended.take(typed as int),
    ensures
        str_equals(ended, word) <==> (line.len() >= 4 && line.take(4) =~= word),
{
    lemma_strequals_is_prefix(ended, word);
    if line.len() >= 4 {
        assert(line.take(4) =~= ended.take(4));
    } else if str_equals(ended, word) {
        assert(ended.take(4)[typed as int] == ended[typed as int]);
        assert(word[typed as int] != 0u8);
    }
}

/// ESC starts an escape sequence whatever has been typed: the step asks for
/// the sequence and leaves the buffer and the typed count as they were.
pub proof fn lemma_escape_leaves_line(s: (Seq<u8>, nat))
    requires
        state_wf(s),
    ensures
        edit(s, 0x1Bu8).0 == s,
        edit(s, 0x1Bu8).1 == ConsoleAction::Escape,
{
}

/// A control byte other than Enter (below 20, not 10 or 13) is shown by its
/// code and never stored, whatever has been typed: the state stays as it was.
pub proof fn lemma_control_codes_shown(s: (Seq<u8>, nat), c: u8)
    requires
        state_wf(s),
        c < 20,
        c != 10,
        c != 13,
    ensures
        edit(s, c).0 == s,
        edit(s, c).1 == ConsoleAction::ShowCode(c),
{
}

/// Only printable bytes (20 and up, other than ESC and DEL) ever lengthen
/// the line, by exactly that byte at its end, and then the step echoes it;
/// every other step keeps the line as it was, shortens it by one (DEL) or
/// empties it (Enter).
pub proof fn lemma_only_printable_bytes_are_stored(s: (Seq<u8>, nat), c: u8)
    requires
        state_wf(s),
    ensures
        ({
            let (next, action) = edit(s, c);
            &&& next.1 > s.1 ==> c >= 20 && c != 0x1Bu8 && c != 127u8 && next.1 == s.1 + 1
                && line_of(next) =~= line_of(s).push(c) && action == ConsoleAction::Echo(c)
            &&& next.1 <= s.1 ==> (line_of(next) =~= line_of(s) || line_of(next) =~= line_of(
                s,
            ).drop_last() || line_of(next) =~= Seq::<u8>::empty())
            &&& (c < 20 && c != 10 && c != 13) || c == 0x1Bu8 ==> next == s
        }),
{
    let (next, action) = edit(s, c);
    if next.1 > s.1 {
        assert(line_of(next) =~= line_of(s).push(c));
    }
}

/// Backspace drops the last typed character and erases it on screen, or,
/// on an empty line, does nothing; Enter on an empty line ends it and runs
/// nothing; a printable byte that does not fit (only the terminator's room
/// is left) is ignored. The buffer is untouched by Backspace and by an
/// ignored byte.
pub proof fn lemma_backspace_enter_and_full_line(s: (Seq<u8>, nat), c: u8)
    requires
        state_wf(s),
    ensures
        s.1 > 0 ==> edit(s, 127u8) == ((s.0, (s.1 - 1) as nat), ConsoleAction::Erase) && line_of(
            edit(s, 127u8).0,
        ) =~= line_of(s).drop_last(),
        s.1 == 0 ==> edit(s, 127u8) == (s, ConsoleAction::Ignore),
        s.1 == 0 ==> edit(s, 13u8).1 == ConsoleAction::Submit(None) && edit(s, 10u8).1
            == ConsoleAction::Submit(None),
        (c == 10 || c == 13) ==> edit(s, c).0.1 == 0 && edit(s, c).0.0[s.1 as int] == 0u8
            && edit(s, c).0.0.len() == s.0.len(),
        c >= 20 && c != 0x1Bu8 && c != 127u8 && s.1 + 1 == s.0.len() ==> edit(s, c) == (
            s,
            ConsoleAction::Ignore,
        ),
{
    if s.1 > 0 {
        assert(line_of(edit(s, 127u8).0) =~= line_of(s).drop_last());
    }
}

/// Typing a character that fits and then Backspace leaves the line as it
/// was, and the Backspace erases it on screen.
pub proof fn lemma_echo_then_erase(s: (Seq<u8>, nat), c: u8)
    requires
        state_wf(s),
        s.1 + 1 < s.0.len(),
        c >= 20u8,
        c != 0x1Bu8,
        c != 127u8,
    ensures
        ({
            let (s1, a1) = edit(s, c);
            let (s2, a2) = edit(s1, 127u8);
            &&& a1 == ConsoleAction::Echo(c)
            &&& a2 == ConsoleAction::Erase
            &&& line_of(s2) =~= line_of(s)
            &&& s2.1 == s.1
        }),
{
    let (s1, a1) = edit(s, c);
    assert(s1.0 == s.0.update(s.1 as int, c));
    assert(line_of(edit(s1, 127u8).0) =~= line_of(s));
}

} // verus!
