use std::collections::HashMap;

use serial::{DivisorSpeed, Interrupt, KnownPorts, Parity, Port, Register, RegisterWrite, TextWriter};

const ALL_REGISTERS: [Register; 8] = [
    Register::DataDlabLsb,
    Register::InterruptDlabMsb,
    Register::InterruptIdentFifo,
    Register::LineControl,
    Register::ModemControl,
    Register::LineStatus,
    Register::ModemStatus,
    Register::Scratch,
];

#[derive(Debug, PartialEq)]
enum Access {
    Read(u16),
    Write(u16, u8),
}

/// A register file that records every access. Reads of the line-status
/// register are answered from a script, the last answer repeating.
struct SimUart {
    regs: HashMap<u16, u8>,
    trace: Vec<Access>,
    status: Vec<u8>,
    status_at: u16,
}

impl SimUart {
    fn new(status_at: u16, status: Vec<u8>) -> SimUart {
        SimUart { regs: HashMap::new(), trace: Vec::new(), status, status_at }
    }

    fn read(&mut self, address: u16) -> u8 {
        self.trace.push(Access::Read(address));
        if address == self.status_at {
            if self.status.len() > 1 {
                self.status.remove(0)
            } else {
                self.status[0]
            }
        } else {
            *self.regs.get(&address).unwrap_or(&0)
        }
    }

    fn write(&mut self, w: RegisterWrite) {
        self.trace.push(Access::Write(w.address, w.value));
        self.regs.insert(w.address, w.value);
    }

    fn send_char(&mut self, port: &Port, c: char) {
        loop {
            let st = self.read(port.register_address(Register::LineStatus));
            if let Some(w) = port.write_char(st, c) {
                self.write(w);
                return;
            }
        }
    }

    fn send_str(&mut self, port: &Port, s: &str) {
        let mut tx = TextWriter::new(s);
        while !tx.is_done() {
            let st = self.read(port.register_address(Register::LineStatus));
            if let Some(w) = port.write_str(&mut tx, st) {
                self.write(w);
            }
        }
    }
}

#[test]
fn registers_sit_at_consecutive_offsets() {
    for base in [0x3F8u16, 0x2F8, 0x3E8, 0x2E8, 0, 0xFFF8] {
        let port = Port::new(base);
        for (i, reg) in ALL_REGISTERS.iter().enumerate() {
            assert_eq!(port.register_address(*reg), base + i as u16);
            assert_eq!(reg.offset(), i as u16);
        }
    }
}

#[test]
fn known_port_bases() {
    assert_eq!(KnownPorts::COM1.base(), 0x3F8);
    assert_eq!(KnownPorts::COM2.base(), 0x2F8);
    assert_eq!(KnownPorts::COM3.base(), 0x3E8);
    assert_eq!(KnownPorts::COM4.base(), 0x2E8);
}

#[test]
fn value_tables() {
    assert_eq!(DivisorSpeed::BAUD115200.code(), 1);
    assert_eq!(DivisorSpeed::BAUD57600.code(), 2);
    assert_eq!(DivisorSpeed::BAUD38400.code(), 3);
    assert_eq!(Parity::NoParity.bits(), 0x00);
    assert_eq!(Parity::Odd.bits(), 0x04);
    assert_eq!(Parity::Even.bits(), 0x12);
    assert_eq!(Parity::Mark.bits(), 0x14);
    assert_eq!(Parity::Space.bits(), 0x1C);
    assert_eq!(Interrupt::DataAvailable.bits(), 0x0);
    assert_eq!(Interrupt::TransmitterEmpty.bits(), 0x2);
    assert_eq!(Interrupt::BreakError.bits(), 0x4);
    assert_eq!(Interrupt::StatusChange.bits(), 0x8);
}

#[test]
fn divisor_latch_is_closed_afterwards() {
    let port = Port::new(0x3F8);
    for v in [0x00u8, 0x03, 0x7F, 0x80, 0x83, 0xFF] {
        for div in [DivisorSpeed::BAUD115200, DivisorSpeed::BAUD57600, DivisorSpeed::BAUD38400] {
            let mut sim = SimUart::new(0x3FD, vec![0]);
            sim.regs.insert(0x3FB, v);
            let lc = sim.read(port.register_address(Register::LineControl));
            let ws = port.set_divisor_speed(lc, div);
            assert_eq!(ws.len(), 4);
            assert_eq!(ws[0], RegisterWrite { address: 0x3FB, value: v | 0x80 });
            assert_eq!(ws[1], RegisterWrite { address: 0x3F8, value: div.code() as u8 });
            assert_eq!(ws[2], RegisterWrite { address: 0x3F9, value: 0 });
            assert_eq!(ws[3], RegisterWrite { address: 0x3FB, value: v & 0x7F });
            for w in ws {
                sim.write(w);
            }
            assert_eq!(sim.regs[&0x3FB] & 0x80, 0);
            assert_eq!(sim.regs[&0x3FB], v & 0x7F);
        }
    }
}

#[test]
fn line_options_seven_stop_no_parity() {
    let port = Port::new(0x3F8);
    // 0x07 | 0x02 | 0x00: the stop-bit flag lands on a bit the data field already sets.
    let w = port.set_line_options(7, true, Parity::NoParity);
    assert_eq!(w, RegisterWrite { address: 0x3FB, value: 0x07 });
}

#[test]
fn line_options_combine_fields() {
    let port = Port::new(0x2F8);
    assert_eq!(port.set_line_options(3, false, Parity::Odd).value, 0x07);
    assert_eq!(port.set_line_options(0, true, Parity::Space).value, 0x1E);
    assert_eq!(port.set_line_options(2, false, Parity::Even).value, 0x12);
    assert_eq!(port.set_line_options(1, true, Parity::Mark).value, 0x17);
}

#[test]
fn status_bits_decide_alone() {
    let port = Port::new(0x3F8);
    for st in 0..=255u8 {
        assert_eq!(port.transmit_empty(st), st & 0x20 != 0);
        assert_eq!(port.packet_recieved(st), st & 0x01 != 0);
    }
    assert!(port.transmit_empty(0x20));
    assert!(!port.transmit_empty(0xDF));
    assert!(port.packet_recieved(0x01));
    assert!(!port.packet_recieved(0xFE));
}

#[test]
fn fifo_and_interrupt_writes() {
    let port = Port::new(0x3E8);
    assert_eq!(port.set_fifo_options(0xC7), RegisterWrite { address: 0x3EA, value: 0xC7 });
    assert_eq!(port.set_interrupt_mask(0x0F), RegisterWrite { address: 0x3E9, value: 0x0F });
}

#[test]
fn write_char_when_ready_writes_once() {
    let port = Port::new(0x3F8);
    let mut sim = SimUart::new(0x3FD, vec![0x20]);
    sim.send_char(&port, 'A');
    assert_eq!(sim.trace, vec![Access::Read(0x3FD), Access::Write(0x3F8, 0x41)]);
}

#[test]
fn write_char_waits_while_busy() {
    let port = Port::new(0x3F8);
    assert_eq!(port.write_char(0x00, 'A'), None);
    assert_eq!(port.write_char(0xDF, 'A'), None);
    let mut sim = SimUart::new(0x3FD, vec![0x00, 0x01, 0x60]);
    sim.send_char(&port, 'z');
    assert_eq!(
        sim.trace,
        vec![
            Access::Read(0x3FD),
            Access::Read(0x3FD),
            Access::Read(0x3FD),
            Access::Write(0x3F8, 0x7A)
        ]
    );
}

#[test]
fn write_char_truncates_wide_characters() {
    let port = Port::new(0x3F8);
    assert_eq!(port.write_char(0x20, '\u{E9}'), Some(RegisterWrite { address: 0x3F8, value: 0xE9 }));
    assert_eq!(port.write_char(0x20, '\u{20AC}'), Some(RegisterWrite { address: 0x3F8, value: 0xAC }));
}

#[test]
fn write_str_polls_before_each_byte() {
    let port = Port::new(0x3F8);
    let mut sim = SimUart::new(0x3FD, vec![0x00, 0x20, 0x00, 0x00, 0x20]);
    sim.send_str(&port, "Hi");
    let writes: Vec<&Access> = sim.trace.iter().filter(|a| matches!(a, Access::Write(..))).collect();
    assert_eq!(writes, vec![&Access::Write(0x3F8, 0x48), &Access::Write(0x3F8, 0x69)]);
    assert_eq!(
        sim.trace,
        vec![
            Access::Read(0x3FD),
            Access::Read(0x3FD),
            Access::Write(0x3F8, 0x48),
            Access::Read(0x3FD),
            Access::Read(0x3FD),
            Access::Read(0x3FD),
            Access::Write(0x3F8, 0x69)
        ]
    );
}

#[test]
fn write_str_step_keeps_place_while_busy() {
    let port = Port::new(0x2E8);
    let mut tx = TextWriter::new("ok");
    assert!(!tx.is_done());
    assert_eq!(port.write_str(&mut tx, 0x00), None);
    assert_eq!(port.write_str(&mut tx, 0x20), Some(RegisterWrite { address: 0x2E8, value: b'o' }));
    assert_eq!(port.write_str(&mut tx, 0x01), None);
    assert_eq!(port.write_str(&mut tx, 0x21), Some(RegisterWrite { address: 0x2E8, value: b'k' }));
    assert!(tx.is_done());
}

#[test]
fn write_str_empty_sends_nothing() {
    let port = Port::new(0x3F8);
    assert!(TextWriter::new("").is_done());
    let mut sim = SimUart::new(0x3FD, vec![0x20]);
    sim.send_str(&port, "");
    assert!(sim.trace.is_empty());
}

#[test]
fn init_trace() {
    let port = Port::new(0x3F8);
    let mut sim = SimUart::new(0x3FD, vec![0]);
    sim.write(port.init());
    let lc = sim.read(port.register_address(Register::LineControl));
    for w in port.init_finish(lc) {
        sim.write(w);
    }
    assert_eq!(
        sim.trace,
        vec![
            Access::Write(0x3F9, 0x00),
            Access::Read(0x3FB),
            Access::Write(0x3FB, 0x80),
            Access::Write(0x3F8, 0x03),
            Access::Write(0x3F9, 0x00),
            Access::Write(0x3FB, 0x00),
            Access::Write(0x3FB, 0x07),
            Access::Write(0x3FA, 0xC7)
        ]
    );
}

#[test]
fn init_keeps_other_line_control_bits_through_latch() {
    let port = Port::new(0x2F8);
    assert_eq!(port.init(), RegisterWrite { address: 0x2F9, value: 0x00 });
    let ws = port.init_finish(0x1B);
    assert_eq!(ws.len(), 6);
    assert_eq!(ws[0], RegisterWrite { address: 0x2FB, value: 0x9B });
    assert_eq!(ws[3], RegisterWrite { address: 0x2FB, value: 0x1B });
    assert_eq!(ws[4], RegisterWrite { address: 0x2FB, value: 0x07 });
    assert_eq!(ws[5], RegisterWrite { address: 0x2FA, value: 0xC7 });
}
