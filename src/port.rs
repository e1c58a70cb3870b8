//! One UART instance and the register traffic of each of its operations.
use vstd::prelude::*;
use vstd::string::StrSliceExecFns;

use crate::codes::{DivisorSpeed, Parity, Register};

verus! {

/// Line-control bit that opens the divisor latch.
pub const DIVISOR_LATCH_BIT: u8 = 0x80;

/// Line-status bit: a received byte is waiting.
pub const DATA_READY_BIT: u8 = 0x01;

/// Line-status bit: the transmit holding register is empty.
pub const TRANSMIT_EMPTY_BIT: u8 = 0x20;

/// FIFO-control value written at initialisation: enable and clear both FIFOs.
pub const FIFO_ENABLE_CLEAR: u8 = 0xC7;

/// One byte to be written to one I/O address.
#[derive(Clone, Copy, Debug, PartialEq, Eq, Structural)]
pub struct RegisterWrite {
    pub address: u16,
    pub value: u8,
}

pub open spec fn write_of(address: u16, value: u8) -> RegisterWrite {
    RegisterWrite { address, value }
}

/// One register access: a read of an address, or a write.
#[derive(Clone, Copy, Debug, PartialEq, Eq, Structural)]
pub enum Access {
    Read(u16),
    Write(RegisterWrite),
}

/// A simulated register file after the given writes, applied in order.
pub open spec fn apply_writes(regs: Map<u16, u8>, ws: Seq<RegisterWrite>) -> Map<u16, u8>
    decreases ws.len(),
{
    if ws.len() == 0 {
        regs
    } else {
        apply_writes(regs.insert(ws[0].address, ws[0].value), ws.drop_first())
    }
}

/// The line-control byte: data-length field, stop-bit flag in bit 1, parity bits.
pub open spec fn line_control_byte(data_bits: u8, stop_bits: bool, parity: Parity) -> u8 {
    data_bits | ((if stop_bits { 1u8 } else { 0u8 }) << 1u8) | parity.spec_bits()
}

/// The byte put on the wire for a character: its low eight bits.
pub open spec fn low_byte(c: char) -> u8 {
    (c as u32 % 256) as u8
}

/// A UART at a fixed base address. It holds the address of each of its eight
/// registers, at offsets 0 to 7 from the base in the order of `Register`.
pub struct Port {
    data_dlab_lsb: u16,
    interrupt_dlab_msb: u16,
    interrupt_ident_fifo: u16,
    line_control: u16,
    modem_control: u16,
    line_status: u16,
    modem_status: u16,
    scratch: u16,
}

impl Port {
    #[verifier::type_invariant]
    closed spec fn inv(self) -> bool {
        &&& self.data_dlab_lsb <= 0xFFF8
        &&& self.interrupt_dlab_msb == self.data_dlab_lsb + 1
        &&& self.interrupt_ident_fifo == self.data_dlab_lsb + 2
        &&& self.line_control == self.data_dlab_lsb + 3
        &&& self.modem_control == self.data_dlab_lsb + 4
        &&& self.line_status == self.data_dlab_lsb + 5
        &&& self.modem_status == self.data_dlab_lsb + 6
        &&& self.scratch == self.data_dlab_lsb + 7
    }

    /// The base address the port was built on.
    pub closed spec fn base(self) -> u16 {
        self.data_dlab_lsb
    }

    /// The I/O address of a register of this port.
    pub closed spec fn address(self, r: Register) -> u16 {
        match r {
            Register::DataDlabLsb => self.data_dlab_lsb,
            Register::InterruptDlabMsb => self.interrupt_dlab_msb,
            Register::InterruptIdentFifo => self.interrupt_ident_fifo,
            Register::LineControl => self.line_control,
            Register::ModemControl => self.modem_control,
            Register::LineStatus => self.line_status,
            Register::ModemStatus => self.modem_status,
            Register::Scratch => self.scratch,
        }
    }

    /// A port whose registers sit at `io_base + 0` through `io_base + 7`.
    /// No hardware is touched.
    pub fn new(io_base: u16) -> (r: Port)
        requires
            io_base as int + 7 <= u16::MAX as int,
        ensures
            r.base() == io_base,
            forall|reg: Register| #[trigger] r.address(reg) as int == io_base as int + reg.spec_offset() as int,
    {
        Port {
            data_dlab_lsb: io_base,
            interrupt_dlab_msb: io_base + Register::InterruptDlabMsb.offset(),
            interrupt_ident_fifo: io_base + Register::InterruptIdentFifo.offset(),
            line_control: io_base + Register::LineControl.offset(),
            modem_control: io_base + Register::ModemControl.offset(),
            line_status: io_base + Register::LineStatus.offset(),
            modem_status: io_base + Register::ModemStatus.offset(),
            scratch: io_base + Register::Scratch.offset(),
        }
    }

    /// The I/O address of a register of this port.
    pub fn register_address(&self, reg: Register) -> (r: u16)
        ensures
            r == self.address(reg),
            r as int == self.base() as int + reg.spec_offset() as int,
    {
        proof {
            use_type_invariant(self);
        }
        match reg {
            Register::DataDlabLsb => self.data_dlab_lsb,
            Register::InterruptDlabMsb => self.interrupt_dlab_msb,
            Register::InterruptIdentFifo => self.interrupt_ident_fifo,
            Register::LineControl => self.line_control,
            Register::ModemControl => self.modem_control,
            Register::LineStatus => self.line_status,
            Register::ModemStatus => self.modem_status,
            Register::Scratch => self.scratch,
        }
    }
    /// The writes that program a divisor, given the line-control value read
    /// just before: open the latch, low byte, high byte, close the latch.
    pub open spec fn divisor_writes(self, line_control: u8, div: DivisorSpeed) -> Seq<RegisterWrite> {
        seq![
            write_of(self.address(Register::LineControl), line_control | DIVISOR_LATCH_BIT),
            write_of(self.address(Register::DataDlabLsb), div.spec_code() as u8),
            write_of(self.address(Register::InterruptDlabMsb), (div.spec_code() >> 8u16) as u8),
            write_of(self.address(Register::LineControl), line_control & 0x7F),
        ]
    }

    /// The first step of initialisation: the write that turns every
    /// interrupt source off.
    pub open spec fn init_first(self) -> RegisterWrite {
        write_of(self.address(Register::InterruptDlabMsb), 0)
    }

    /// The rest of initialisation, given the line-control value read after
    /// the first step: 38400 baud through the divisor latch, then the framing
    /// byte of `set_line_options(7, true, NoParity)`, then FIFOs enabled and
    /// cleared.
    pub open spec fn init_rest(self, line_control: u8) -> Seq<RegisterWrite> {
        self.divisor_writes(line_control, DivisorSpeed::BAUD38400) + seq![
            write_of(self.address(Register::LineControl), line_control_byte(7, true, Parity::NoParity)),
            write_of(self.address(Register::InterruptIdentFifo), FIFO_ENABLE_CLEAR),
        ]
    }

    /// Every register access of initialisation, in order, when the
    /// line-control register reads `line_control`.
    pub open spec fn init_trace(self, line_control: u8) -> Seq<Access> {
        seq![Access::Write(self.init_first()), Access::Read(self.address(Register::LineControl))]
            + self.init_rest(line_control).map_values(|w: RegisterWrite| Access::Write(w))
    }

    /// Initialisation, first step: the write that disables interrupts. The
    /// caller makes it, then reads the line-control register and hands the
    /// value to `init_finish`.
    pub fn init(&self) -> (w: RegisterWrite)
        ensures
            w == self.init_first(),
    {
        self.set_interrupt_mask(0)
    }

    /// Initialisation, second step. `line_control` is the value read from the
    /// line-control register after the first step's write; the result is the
    /// remaining writes, in order.
    pub fn init_finish(&self, line_control: u8) -> (r: [RegisterWrite; 6])
        ensures
            r@ == self.init_rest(line_control),
    {
        let d = self.set_divisor_speed(line_control, DivisorSpeed::BAUD38400);
        let r = [
            d[0],
            d[1],
            d[2],
            d[3],
            self.set_line_options(7, true, Parity::NoParity),
            self.set_fifo_options(FIFO_ENABLE_CLEAR),
        ];
        assert(r@ =~= self.init_rest(line_control));
        r
    }

    /// The write that sets the FIFO-control register to `options`.
    pub fn set_fifo_options(&self, options: u8) -> (w: RegisterWrite)
        ensures
            w == write_of(self.address(Register::InterruptIdentFifo), options),
    {
        RegisterWrite { address: self.register_address(Register::InterruptIdentFifo), value: options }
    }

    /// The write that sets the interrupt-enable register to `mask`.
    pub fn set_interrupt_mask(&self, mask: u8) -> (w: RegisterWrite)
        ensures
            w == write_of(self.address(Register::InterruptDlabMsb), mask),
    {
        RegisterWrite { address: self.register_address(Register::InterruptDlabMsb), value: mask }
    }

    /// Programs the baud divisor through the divisor latch. `line_control` is
    /// the value just read from the line-control register; the result is the
    /// four writes to make, in order. The latch bit ends up cleared.
    pub fn set_divisor_speed(&self, line_control: u8, div: DivisorSpeed) -> (r: [RegisterWrite; 4])
        ensures
            r@ == self.divisor_writes(line_control, div),
    {
        let code = div.code();
        let r = [
            RegisterWrite {
                address: self.register_address(Register::LineControl),
                value: line_control | DIVISOR_LATCH_BIT,
            },
            RegisterWrite { address: self.register_address(Register::DataDlabLsb), value: code as u8 },
            RegisterWrite {
                address: self.register_address(Register::InterruptDlabMsb),
                value: (code >> 8u16) as u8,
            },
            RegisterWrite {
                address: self.register_address(Register::LineControl),
                value: line_control & 0x7F,
            },
        ];
        assert(r@ =~= self.divisor_writes(line_control, div));
        r
    }

    /// The write that sets the line framing. `data_bits` is the raw 2-bit
    /// data-length field (bits 0-1) and is not checked: larger values spill
    /// into the neighbouring control bits. The `stop_bits` flag is placed in
    /// bit 1, which overlaps the data-length field; on a 16550 the stop-bit
    /// selector is bit 2, where one extra stop bit means 1.5 stop bits with
    /// 5-bit data and 2 otherwise.
    pub fn set_line_options(&self, data_bits: u8, stop_bits: bool, parity: Parity) -> (w: RegisterWrite)
        ensures
            w == write_of(self.address(Register::LineControl), line_control_byte(data_bits, stop_bits, parity)),
    {
        let stop: u8 = if stop_bits { 1 } else { 0 };
        RegisterWrite {
            address: self.register_address(Register::LineControl),
            value: data_bits | (stop << 1u8) | parity.bits(),
        }
    }

    /// Whether a received byte is waiting, from a line-status value.
    pub fn packet_recieved(&self, line_status: u8) -> (r: bool)
        ensures
            r == (line_status & DATA_READY_BIT != 0),
    {
        line_status & DATA_READY_BIT != 0
    }

    /// Whether the transmitter can take a byte, from a line-status value.
    pub fn transmit_empty(&self, line_status: u8) -> (r: bool)
        ensures
            r == (line_status & TRANSMIT_EMPTY_BIT != 0),
    {
        line_status & TRANSMIT_EMPTY_BIT != 0
    }

    /// One round of sending a character, from a line-status value just read.
    /// While the transmitter is busy there is nothing to write and the caller
    /// polls again; once it is empty, the character's low eight bits go to
    /// the data register. Wider characters are truncated.
    pub fn write_char(&self, line_status: u8, c: char) -> (r: Option<RegisterWrite>)
        ensures
            r == (if line_status & TRANSMIT_EMPTY_BIT != 0 {
                Some(write_of(self.address(Register::DataDlabLsb), low_byte(c)))
            } else {
                None::<RegisterWrite>
            }),
    {
        if self.transmit_empty(line_status) {
            Some(RegisterWrite { address: self.register_address(Register::DataDlabLsb), value: (c as u32 % 256) as u8 })
        } else {
            None
        }
    }
}


/// A string being sent one character at a time: the characters, and how many
/// of them have been written to the data register so far.
pub struct TextWriter {
    text: Vec<char>,
    next: usize,
}

impl TextWriter {
    #[verifier::type_invariant]
    closed spec fn inv(self) -> bool {
        self.next <= self.text.len()
    }

    /// The characters to send.
    pub closed spec fn text(self) -> Seq<char> {
        self.text@
    }

    /// How many characters have been sent.
    pub closed spec fn sent(self) -> nat {
        self.next as nat
    }

    /// A writer that has sent nothing of `s` yet.
    pub fn new(s: &str) -> (r: TextWriter)
        ensures
            r.text() == s@,
            r.sent() == 0,
    {
        let n = s.unicode_len();
        let mut text: Vec<char> = Vec::new();
        let mut i: usize = 0;
        while i < n
            invariant
                n == s@.len(),
                i <= n,
                text@ == s@.subrange(0, i as int),
            decreases n - i,
        {
            text.push(s.get_char(i));
            i = i + 1;
            assert(text@ =~= s@.subrange(0, i as int));
        }
        assert(text@ =~= s@);
        TextWriter { text, next: 0 }
    }

    /// Whether every character has been sent.
    pub fn is_done(&self) -> (r: bool)
        ensures
            r == (self.sent() >= self.text().len()),
            self.sent() <= self.text().len(),
    {
        proof {
            use_type_invariant(self);
        }
        self.next >= self.text.len()
    }
}

impl Port {
    /// One round of sending `text` with `sent` characters already out: on an
    /// empty transmitter the next character's low byte goes to the data
    /// register and the count moves on; otherwise nothing happens.
    pub open spec fn str_round(self, text: Seq<char>, sent: nat, line_status: u8) -> (nat, Option<RegisterWrite>) {
        if line_status & TRANSMIT_EMPTY_BIT != 0 {
            (sent + 1, Some(write_of(self.address(Register::DataDlabLsb), low_byte(text[sent as int]))))
        } else {
            (sent, None)
        }
    }

    /// Rounds of `str_round`, one per line-status value, until the text is
    /// out: the final count and the writes made, in order.
    pub open spec fn str_run(self, text: Seq<char>, sent: nat, statuses: Seq<u8>) -> (nat, Seq<RegisterWrite>)
        decreases statuses.len(),
    {
        if statuses.len() == 0 || sent >= text.len() {
            (sent, Seq::empty())
        } else {
            let (next, w) = self.str_round(text, sent, statuses[0]);
            let (end, rest) = self.str_run(text, next, statuses.drop_first());
            match w {
                Some(x) => (end, seq![x] + rest),
                None => (end, rest),
            }
        }
    }

    /// Every register access of sending `text` from `sent` on: each round
    /// reads line status, and writes the next character when that read
    /// reports an empty transmitter.
    pub open spec fn str_trace(self, text: Seq<char>, sent: nat, statuses: Seq<u8>) -> Seq<Access>
        decreases statuses.len(),
    {
        if statuses.len() == 0 || sent >= text.len() {
            Seq::empty()
        } else {
            let (next, w) = self.str_round(text, sent, statuses[0]);
            let poll = Access::Read(self.address(Register::LineStatus));
            let round = match w {
                Some(x) => seq![poll, Access::Write(x)],
                None => seq![poll],
            };
            round + self.str_trace(text, next, statuses.drop_first())
        }
    }

    /// One round of sending a string, from a line-status value just read.
    /// While the transmitter is busy nothing changes and the caller polls
    /// again; once it is empty, the next character goes out as `write_char`
    /// sends it and the writer moves past it.
    pub fn write_str(&self, w: &mut TextWriter, line_status: u8) -> (r: Option<RegisterWrite>)
        requires
            old(w).sent() < old(w).text().len(),
        ensures
            final(w).text() == old(w).text(),
            (final(w).sent(), r) == self.str_round(old(w).text(), old(w).sent(), line_status),
    {
        proof {
            use_type_invariant(&*w);
        }
        let c = w.text[w.next];
        let r = self.write_char(line_status, c);
        if r.is_some() {
            w.next = w.next + 1;
        }
        r
    }
}

/// Sending a string writes its characters' low bytes to the data register in
/// order, one per character and nothing else, however many busy polls come in
/// between; the run ends with every character sent once enough polls found the
/// transmitter empty.
pub proof fn lemma_write_str_in_order(p: Port, text: Seq<char>, sent: nat, statuses: Seq<u8>)
    requires
        sent <= text.len(),
    ensures
        ({
            let (end, ws) = p.str_run(text, sent, statuses);
            &&& sent <= end <= text.len()
            &&& ws.len() == end - sent
            &&& forall|i: int|
                0 <= i < ws.len() ==> #[trigger] ws[i] == write_of(
                    p.address(Register::DataDlabLsb),
                    low_byte(text[sent + i]),
                )
            &&& end < text.len() ==> end - sent == ready_count(statuses)
        }),
    decreases statuses.len(),
{
    if statuses.len() == 0 || sent >= text.len() {
    } else {
        let (next, w) = p.str_round(text, sent, statuses[0]);
        lemma_write_str_in_order(p, text, next, statuses.drop_first());
        let (end, rest) = p.str_run(text, next, statuses.drop_first());
        match w {
            Some(x) => {
                let ws = seq![x] + rest;
                assert forall|i: int| 0 <= i < ws.len() implies #[trigger] ws[i] == write_of(
                    p.address(Register::DataDlabLsb),
                    low_byte(text[sent + i]),
                ) by {
                    if i > 0 {
                        assert(ws[i] == rest[i - 1]);
                    }
                }
            },
            None => {},
        }
    }
}

/// How many of the line-status values report an empty transmitter.
pub open spec fn ready_count(statuses: Seq<u8>) -> nat
    decreases statuses.len(),
{
    if statuses.len() == 0 {
        0
    } else {
        (if statuses[0] & TRANSMIT_EMPTY_BIT != 0 { 1nat } else { 0nat }) + ready_count(statuses.drop_first())
    }
}

/// The writes of an access trace, in order.
pub open spec fn writes_of(t: Seq<Access>) -> Seq<RegisterWrite>
    decreases t.len(),
{
    if t.len() == 0 {
        Seq::empty()
    } else {
        match t[0] {
            Access::Write(w) => seq![w] + writes_of(t.drop_first()),
            Access::Read(_) => writes_of(t.drop_first()),
        }
    }
}

/// Sending a string, polls included: whatever the line-status reads return,
/// every write is directly preceded by a read of line status, and the writes
/// are the characters' low bytes to the data register, in order, one per
/// character; once as many polls as there are characters have found the
/// transmitter empty, the whole string is out.
pub proof fn lemma_write_str_trace(p: Port, text: Seq<char>, sent: nat, statuses: Seq<u8>)
    requires
        sent <= text.len(),
    ensures
        ({
            let t = p.str_trace(text, sent, statuses);
            let ws = writes_of(t);
            let (end, _) = p.str_run(text, sent, statuses);
            &&& forall|i: int|
                0 <= i < t.len() && (#[trigger] t[i]) is Write ==> i >= 1 && t[i - 1] == Access::Read(
                    p.address(Register::LineStatus),
                )
            &&& ws == p.str_run(text, sent, statuses).1
            &&& ws.len() == end - sent
            &&& forall|i: int|
                0 <= i < ws.len() ==> #[trigger] ws[i] == write_of(
                    p.address(Register::DataDlabLsb),
                    low_byte(text[sent + i]),
                )
            &&& end < text.len() ==> end - sent == ready_count(statuses)
        }),
    decreases statuses.len(),
{
    lemma_write_str_in_order(p, text, sent, statuses);
    if statuses.len() == 0 || sent >= text.len() {
    } else {
        let (next, w) = p.str_round(text, sent, statuses[0]);
        lemma_write_str_trace(p, text, next, statuses.drop_first());
        let rest = p.str_trace(text, next, statuses.drop_first());
        let poll = Access::Read(p.address(Register::LineStatus));
        let t = p.str_trace(text, sent, statuses);
        match w {
            Some(x) => {
                let round = seq![poll, Access::Write(x)];
                assert(t == round + rest);
                assert(t.drop_first() =~= seq![Access::Write(x)] + rest);
                assert((seq![Access::Write(x)] + rest).drop_first() =~= rest);
                assert(writes_of(seq![Access::Write(x)] + rest) == seq![x] + writes_of(rest));
                assert forall|i: int| 0 <= i < t.len() && (#[trigger] t[i]) is Write implies i >= 1 && t[i
                    - 1] == poll by {
                    if i >= 3 {
                        assert(t[i] == rest[i - 2]);
                        assert(t[i - 1] == rest[i - 3]);
                    }
                }
            },
            None => {
                let round = seq![poll];
                assert(t == round + rest);
                assert(t.drop_first() =~= rest);
                assert forall|i: int| 0 <= i < t.len() && (#[trigger] t[i]) is Write implies i >= 1 && t[i
                    - 1] == poll by {
                    if i >= 2 {
                        assert(t[i] == rest[i - 1]);
                        assert(t[i - 1] == rest[i - 2]);
                    }
                }
            },
        }
    }
}

/// Initialisation, access by access: interrupts off first, then the read of
/// line control that opens the divisor protocol, divisor 3 written while the
/// latch is open, the latch closed again, the framing byte 0x07, and last the
/// FIFO control value 0xC7.
pub proof fn lemma_init_trace(p: Port, line_control: u8)
    ensures
        p.init_trace(line_control) == seq![
            Access::Write(write_of(p.address(Register::InterruptDlabMsb), 0x00)),
            Access::Read(p.address(Register::LineControl)),
            Access::Write(write_of(p.address(Register::LineControl), line_control | 0x80)),
            Access::Write(write_of(p.address(Register::DataDlabLsb), 0x03)),
            Access::Write(write_of(p.address(Register::InterruptDlabMsb), 0x00)),
            Access::Write(write_of(p.address(Register::LineControl), line_control & 0x7F)),
            Access::Write(write_of(p.address(Register::LineControl), 0x07)),
            Access::Write(write_of(p.address(Register::InterruptIdentFifo), 0xC7)),
        ],
{
    assert(line_control_byte(7, true, Parity::NoParity) == 0x07) by (bit_vector);
    assert((3u16 >> 8u16) as u8 == 0) by (bit_vector);
    assert(p.init_trace(line_control) =~= seq![
        Access::Write(write_of(p.address(Register::InterruptDlabMsb), 0x00)),
        Access::Read(p.address(Register::LineControl)),
        Access::Write(write_of(p.address(Register::LineControl), line_control | 0x80)),
        Access::Write(write_of(p.address(Register::DataDlabLsb), 0x03)),
        Access::Write(write_of(p.address(Register::InterruptDlabMsb), 0x00)),
        Access::Write(write_of(p.address(Register::LineControl), line_control & 0x7F)),
        Access::Write(write_of(p.address(Register::LineControl), 0x07)),
        Access::Write(write_of(p.address(Register::InterruptIdentFifo), 0xC7)),
    ]);
}

/// Programming the divisor leaves the latch closed: whatever the register file
/// held before, afterwards the line-control register holds the value read
/// before the call with bit 7 cleared, while the two divisor bytes were written
/// with the latch open.
pub proof fn lemma_divisor_restores_line_control(
    p: Port,
    regs: Map<u16, u8>,
    line_control: u8,
    div: DivisorSpeed,
)
    ensures
        ({
            let after = apply_writes(regs, p.divisor_writes(line_control, div));
            &&& after[p.address(Register::LineControl)] == line_control & 0x7F
            &&& after[p.address(Register::LineControl)] & DIVISOR_LATCH_BIT == 0
        }),
        p.divisor_writes(line_control, div)[0].value & DIVISOR_LATCH_BIT == DIVISOR_LATCH_BIT,
{
    let ws = p.divisor_writes(line_control, div);
    let lc = p.address(Register::LineControl);
    let r1 = regs.insert(ws[0].address, ws[0].value);
    let r2 = r1.insert(ws[1].address, ws[1].value);
    let r3 = r2.insert(ws[2].address, ws[2].value);
    let r4 = r3.insert(ws[3].address, ws[3].value);
    let s1 = ws.drop_first();
    let s2 = s1.drop_first();
    let s3 = s2.drop_first();
    let s4 = s3.drop_first();
    assert(s1[0] == ws[1] && s2[0] == ws[2] && s3[0] == ws[3] && s4.len() == 0);
    assert(apply_writes(r4, s4) == r4);
    assert(apply_writes(r3, s3) == r4);
    assert(apply_writes(r2, s2) == r4);
    assert(apply_writes(r1, s1) == r4);
    assert(apply_writes(regs, ws) == r4);
    assert(r4[lc] == line_control & 0x7F);
    assert((line_control & 0x7F) & 0x80 == 0) by (bit_vector);
    assert((line_control | 0x80) & 0x80 == 0x80) by (bit_vector);
}

} // verus!
