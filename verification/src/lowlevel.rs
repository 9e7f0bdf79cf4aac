//! Low level unrestricted access to the CC1101 radio chip.
//!
//! Every access is one SPI transfer: a header byte (and for a single
//! register, one data byte) goes out while the chip clocks back its status
//! byte (and the register's value). The functions here build the bytes that
//! go out and take in the bytes that came back; moving them over the bus is
//! the caller's part.
use vstd::prelude::*;

pub mod access;
pub mod convert;
pub mod fields;
pub mod registers;
pub mod types;

use self::access::{Access, Mode};
use self::registers::{Command, MultiByte, Register, StatusByte};

verus! {

/// Crystal oscillator frequency of the reference design, in Hertz.
pub const FXOSC: u64 = 26_000_000;

/// The byte clocked out where only the reply matters.
pub const BLANK_BYTE: u8 = 0;

/// Bytes that read a single register: the read header and a blank byte.
pub open spec fn read_frame(reg: Register) -> Seq<u8> {
    seq![reg.header(Access::Read, Mode::Single), BLANK_BYTE]
}

/// Bytes that write `byte` to a single register.
pub open spec fn write_frame(reg: Register, byte: u8) -> Seq<u8> {
    seq![reg.header(Access::Write, Mode::Single), byte]
}

/// The byte that issues a command strobe.
pub open spec fn strobe_frame(cmd: Command) -> Seq<u8> {
    seq![Register::Command(cmd).header(Access::Write, Mode::Single)]
}

/// The header of a burst read of the RX FIFO, followed by two blank bytes
/// that clock out the packet length and address bytes.
pub open spec fn fifo_read_frame() -> Seq<u8> {
    seq![Register::MultiByte(MultiByte::FIFO).header(Access::Read, Mode::Burst), BLANK_BYTE, BLANK_BYTE]
}

/// The bytes to send to read register `reg`.
pub fn read_register_frame(reg: Register) -> (f: Vec<u8>)
    ensures
        f@ == read_frame(reg),
{
    vec![reg.raddr(Mode::Single), BLANK_BYTE]
}

/// The bytes to send to write `byte` to register `reg`.
pub fn write_register_frame(reg: Register, byte: u8) -> (f: Vec<u8>)
    ensures
        f@ == write_frame(reg, byte),
{
    vec![reg.waddr(Mode::Single), byte]
}

/// The byte to send to issue command strobe `cmd`.
pub fn cmd_strobe_frame(cmd: Command) -> (f: Vec<u8>)
    ensures
        f@ == strobe_frame(cmd),
{
    vec![Register::Command(cmd).addr(Access::Write, Mode::Single)]
}

/// The header bytes of a burst read of a received packet.
pub fn read_fifo_frame() -> (f: Vec<u8>)
    ensures
        f@ == fifo_read_frame(),
{
    vec![Register::MultiByte(MultiByte::FIFO).addr(Access::Read, Mode::Burst), BLANK_BYTE, BLANK_BYTE]
}

/// The header byte of a burst access of the FIFO.
pub fn access_fifo_frame(access: Access) -> (f: Vec<u8>)
    ensures
        f@ == seq![Register::MultiByte(MultiByte::FIFO).header(access, Mode::Burst)],
{
    vec![Register::MultiByte(MultiByte::FIFO).addr(access, Mode::Burst)]
}

/// The status that a chip status byte reports.
pub open spec fn status_of(byte: u8) -> Option<StatusByte> {
    Some(StatusByte { bits: byte })
}

/// The status known after a strobe whose reply was `byte`: only SNOP, which
/// changes nothing, leaves a status byte that reflects the chip's state.
pub open spec fn status_after_strobe(cmd: Command, byte: u8) -> Option<StatusByte> {
    if cmd == Command::SNOP {
        status_of(byte)
    } else {
        None
    }
}

/// What the driver knows of the chip between accesses.
pub struct Cc1101 {
    /// The chip status byte of the last access that reported a valid one.
    pub status: Option<StatusByte>,
}

impl Cc1101 {
    pub fn new() -> (c: Cc1101)
        ensures
            c.status is None,
    {
        Cc1101 { status: None }
    }

    /// Takes in the two bytes that came back while `read_frame` went out:
    /// the status byte and the register's value, which is returned.
    pub fn read_register(&mut self, reply: &Vec<u8>) -> (value: u8)
        requires
            reply@.len() == 2,
        ensures
            final(self).status == status_of(reply@[0]),
            value == reply@[1],
    {
        self.status = Some(StatusByte::from(reply[0]));
        reply[1]
    }

    /// Takes in the bytes that came back while a FIFO read header went out:
    /// the status byte, the packet length and the address byte, of which the
    /// last two are returned.
    pub fn read_fifo(&mut self, reply: &Vec<u8>) -> (r: (u8, u8))
        requires
            reply@.len() == 3,
        ensures
            final(self).status == status_of(reply@[0]),
            r == (reply@[1], reply@[2]),
    {
        self.status = Some(StatusByte::from(reply[0]));
        (reply[1], reply[2])
    }

    /// Takes in the byte that came back while a FIFO burst header went out.
    pub fn access_fifo(&mut self, reply: &Vec<u8>)
        requires
            reply@.len() >= 1,
        ensures
            final(self).status == status_of(reply@[0]),
    {
        self.status = Some(StatusByte::from(reply[0]));
    }

    /// Takes in the byte that came back while strobe `cmd` went out. Every
    /// strobe but SNOP changes the chip's state, so the byte most probably
    /// reflects the previous one and the status becomes unknown.
    pub fn write_cmd_strobe(&mut self, cmd: Command, reply: &Vec<u8>)
        requires
            reply@.len() == 1,
        ensures
            final(self).status == status_after_strobe(cmd, reply@[0]),
    {
        if cmd == Command::SNOP {
            self.status = Some(StatusByte::from(reply[0]));
        } else {
            self.status = None;
        }
    }

    /// Takes in the two bytes that came back while `write_frame` went out.
    pub fn write_register(&mut self, reply: &Vec<u8>)
        requires
            reply@.len() == 2,
        ensures
            final(self).status == status_of(reply@[0]),
    {
        self.status = Some(StatusByte::from(reply[0]));
    }

    /// Takes in the reply to the read half of a read-modify-write and returns
    /// the byte that the write half writes back: `f` of the value read.
    pub fn modify_register<F: FnOnce(u8) -> u8>(&mut self, f: F, reply: &Vec<u8>) -> (byte: u8)
        requires
            reply@.len() == 2,
            call_requires(f, (reply@[1],)),
        ensures
            final(self).status == status_of(reply@[0]),
            call_ensures(f, (reply@[1],), byte),
    {
        let r = self.read_register(reply);
        f(r)
    }
}

} // verus!
