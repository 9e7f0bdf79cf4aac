//! Driver for the Texas Instruments CC1101 sub-1 GHz radio transceiver.
//!
//! The driver decides what goes over the SPI bus and what the replies mean;
//! moving bytes over the bus is left to its caller. Each operation of the
//! high level API starts a job and returns its first [`Step`]: either bytes
//! to transfer, after which the caller hands the bytes that came back to
//! [`Cc1101::resume`], or the job's result.
use vstd::prelude::*;

pub mod lowlevel;
mod types;
pub mod laws;

pub use lowlevel::registers::StatusByte;
pub use lowlevel::types::MachineState;
pub use types::{
    AddressFilter, AutoCalibration, CcaMode, FilterLength, ModulationFormat, NumPreamble,
    PacketLength, RadioMode, SyncMode, TargetAmplitude,
};

use lowlevel::convert::{
    data_rate_word, deviation_word, frequency_word, rssi_dbm, setting_for, from_chanbw,
    from_deviation, from_drate, from_freq_if, from_frequency, from_rssi_to_rssi_dbm, chanbw_word,
};
use lowlevel::fields::{Field, Update};
use lowlevel::registers::{Command, Config, Register, Status};
use lowlevel::types::{state_of, AddressCheck, LengthConfig, MachineStateError, SyncCheck};
use lowlevel::{
    cmd_strobe_frame, fifo_read_frame, read_fifo_frame, read_frame, read_register_frame,
    status_after_strobe, status_of, strobe_frame, write_frame, write_register_frame,
};

verus! {

/// CC1101 errors.
#[derive(Debug, PartialEq, Eq)]
pub enum Error<SpiE> {
    /// The TX FIFO buffer underflowed, too large packet for configured packet length.
    TxUnderflow,
    /// The RX FIFO buffer overflowed, too small buffer for configured packet length.
    RxOverflow,
    /// Corrupt packet received with invalid CRC.
    CrcMismatch,
    /// Invalid state read from MARCSTATE register
    InvalidState(u8),
    /// Platform-dependent SPI-errors, such as IO errors.
    Spi(SpiE),
}

impl<SpiE> From<SpiE> for Error<SpiE> {
    fn from(e: SpiE) -> (r: Self) {
        Error::Spi(e)
    }
}

impl<SpiE> vstd::std_specs::convert::FromSpecImpl<SpiE> for Error<SpiE> {
    open spec fn obeys_from_spec() -> bool {
        true
    }

    open spec fn from_spec(e: SpiE) -> Error<SpiE> {
        Error::Spi(e)
    }
}

impl<SpiE> Error<SpiE> {
    /// The text that describes the error: the whole message for the errors
    /// that carry nothing, the text that comes before the invalid state's
    /// value or the SPI error's own text for the others.
    pub fn message(&self) -> (m: &'static str)
        ensures
            self is TxUnderflow ==> m@ == "TX FIFO buffer underflowed"@,
            self is RxOverflow ==> m@ == "RX FIFO buffer overflowed"@,
            self is CrcMismatch ==> m@ == "CRC mismatch"@,
            self is InvalidState ==> m@ == "Invalid state: "@,
            self is Spi ==> m@ == "SPI error: "@,
    {
        match self {
            Error::TxUnderflow => "TX FIFO buffer underflowed",
            Error::RxOverflow => "RX FIFO buffer overflowed",
            Error::CrcMismatch => "CRC mismatch",
            Error::InvalidState(_) => "Invalid state: ",
            Error::Spi(_) => "SPI error: ",
        }
    }
}

/// One register level operation of a job.
#[derive(Clone, Copy, PartialEq, Eq, Structural, Debug)]
pub enum RegOp {
    /// Issue a command strobe.
    Strobe(Command),
    /// Write a byte to a configuration register.
    Write(Config, u8),
    /// Read a register and keep its value.
    Read(Register),
    /// Read a configuration register and write it back with an update applied.
    Modify(Config, Update),
    /// Read MARCSTATE until it shows the given state.
    AwaitState(MachineState),
    /// Read RXBYTES until two readings in a row agree on a nonzero count, and
    /// keep the count; if this fails, the RX FIFO is flushed before the job ends.
    AwaitRxBytes,
    /// Read the length and address bytes of a received packet, while the
    /// caller reads the payload in the same transaction.
    ReadFifo,
}

/// What a job makes of the values it read, once all its operations are done.
#[derive(Clone, Copy, PartialEq, Eq, Structural, Debug)]
pub enum Finish {
    Nothing,
    HwInfo,
    RssiDbm,
    Lqi,
    TxBytes,
    RxBytes,
    MachineState,
    Packet,
}

/// The value a finished job returns.
#[derive(Clone, Copy, PartialEq, Eq, Structural, Debug)]
pub enum Reply {
    Nothing,
    /// Part number and version.
    HwInfo(u8, u8),
    RssiDbm(i16),
    Lqi(u8),
    /// Number of bytes in a FIFO.
    Bytes(u8),
    State(MachineState),
    /// Length byte of a received packet.
    Packet(u8),
}

/// What the caller is to do next.
#[derive(Debug)]
pub enum Step<SpiE> {
    /// Transfer these bytes in place in one transaction and resume with what came back.
    Transfer(Vec<u8>),
    /// Transfer these header bytes in place and then the receive buffer, in
    /// one transaction, and resume with what came back in place of the header.
    FifoTransfer(Vec<u8>),
    /// The job is over, with this result.
    Done(Result<Reply, Error<SpiE>>),
}

/// A [`Step`] with its bytes as a sequence.
pub enum StepView<SpiE> {
    Transfer(Seq<u8>),
    FifoTransfer(Seq<u8>),
    Done(Result<Reply, Error<SpiE>>),
}

impl<SpiE> View for Step<SpiE> {
    type V = StepView<SpiE>;

    open spec fn view(&self) -> StepView<SpiE> {
        match self {
            Step::Transfer(b) => StepView::Transfer(b@),
            Step::FifoTransfer(b) => StepView::FifoTransfer(b@),
            Step::Done(r) => StepView::Done(*r),
        }
    }
}

/// Where a job stands.
#[derive(Debug)]
pub enum Phase<SpiE> {
    /// No job.
    Idle,
    /// The first transfer of the current operation is out.
    Issue,
    /// The write half of a read-modify-write, with this byte, is out.
    Write(u8),
    /// A read of RXBYTES is out; the previous reading counted this many bytes.
    Poll(u8),
    /// The flush of the RX FIFO after this error is out.
    Recover(Error<SpiE>),
}

/// The driver as a value: the chip status and the current job.
pub struct DriverView<SpiE> {
    pub status: Option<StatusByte>,
    pub ops: Seq<RegOp>,
    pub pc: int,
    pub phase: Phase<SpiE>,
    pub finish: Finish,
    pub reads: Seq<u8>,
    pub fifo: Option<(u8, u8)>,
}

/// High level API for interacting with the CC1101 radio chip.
pub struct Cc1101<SpiE> {
    ll: lowlevel::Cc1101,
    ops: Vec<RegOp>,
    pc: usize,
    phase: Phase<SpiE>,
    finish: Finish,
    reads: Vec<u8>,
    fifo: Option<(u8, u8)>,
}

impl<SpiE> View for Cc1101<SpiE> {
    type V = DriverView<SpiE>;

    closed spec fn view(&self) -> DriverView<SpiE> {
        DriverView {
            status: self.ll.status,
            ops: self.ops@,
            pc: self.pc as int,
            phase: self.phase,
            finish: self.finish,
            reads: self.reads@,
            fifo: self.fifo,
        }
    }
}

// ---------------------------------------------------------------------------
// What the replies of the chip mean.

/// What a TXBYTES reading says: the number of bytes in the TX FIFO, unless it
/// underflowed (bit 7).
pub open spec fn tx_bytes_outcome<SpiE>(raw: u8) -> Result<u8, Error<SpiE>> {
    if raw >= 128 {
        Err(Error::TxUnderflow)
    } else {
        Ok(raw)
    }
}

/// What an RXBYTES reading says: the number of bytes in the RX FIFO, unless it
/// overflowed (bit 7).
pub open spec fn rx_bytes_outcome<SpiE>(raw: u8) -> Result<u8, Error<SpiE>> {
    if raw >= 128 {
        Err(Error::RxOverflow)
    } else {
        Ok(raw)
    }
}

/// What a MARCSTATE reading says: the state in MARC_STATE (bits 4:0), if that
/// value stands for one.
pub open spec fn machine_state_outcome<SpiE>(raw: u8) -> Result<MachineState, Error<SpiE>> {
    if raw % 32 < 23 {
        Ok(state_of((raw % 32) as u8))
    } else {
        Err(Error::InvalidState((raw % 32) as u8))
    }
}

/// Whether a MARCSTATE reading shows the target state.
pub open spec fn await_outcome<SpiE>(target: MachineState, raw: u8) -> Result<bool, Error<SpiE>> {
    match machine_state_outcome::<SpiE>(raw) {
        Ok(s) => Ok(s == target),
        Err(e) => Err(e),
    }
}

/// Whether RXBYTES has settled: `Some(count)` when the reading agrees with the
/// previous one on a nonzero count.
pub open spec fn rx_available_outcome<SpiE>(last: u8, raw: u8) -> Result<Option<u8>, Error<SpiE>> {
    match rx_bytes_outcome::<SpiE>(raw) {
        Ok(n) => if n > 0 && n == last {
            Ok(Some(n))
        } else {
            Ok(None)
        },
        Err(e) => Err(e),
    }
}

/// A received packet is good when the CRC_OK bit (bit 7) of LQI is set.
pub open spec fn packet_outcome<SpiE>(lqi: u8, length: u8) -> Result<u8, Error<SpiE>> {
    if lqi >= 128 {
        Ok(length)
    } else {
        Err(Error::CrcMismatch)
    }
}

/// The number of bytes in the TX FIFO from a TXBYTES reading.
pub fn decode_tx_bytes<SpiE>(raw: u8) -> (r: Result<u8, Error<SpiE>>)
    ensures
        r == tx_bytes_outcome::<SpiE>(raw),
{
    let num_txbytes: u8 = raw & 0x7f;
    let underflow: u8 = raw >> 7;
    assert(raw & 0x7f == raw % 128 && raw >> 7 == raw / 128) by (bit_vector);
    if underflow != 0 {
        return Err(Error::TxUnderflow);
    }
    Ok(num_txbytes)
}

/// The number of bytes in the RX FIFO from an RXBYTES reading.
pub fn decode_rx_bytes<SpiE>(raw: u8) -> (r: Result<u8, Error<SpiE>>)
    ensures
        r == rx_bytes_outcome::<SpiE>(raw),
{
    let num_rxbytes: u8 = raw & 0x7f;
    let overflow: u8 = raw >> 7;
    assert(raw & 0x7f == raw % 128 && raw >> 7 == raw / 128) by (bit_vector);
    if overflow != 0 {
        return Err(Error::RxOverflow);
    }
    Ok(num_rxbytes)
}

/// The machine state from a MARCSTATE reading.
pub fn decode_machine_state<SpiE>(raw: u8) -> (r: Result<MachineState, Error<SpiE>>)
    ensures
        r == machine_state_outcome::<SpiE>(raw),
{
    let marc_state: u8 = raw & 0x1f;
    assert(raw & 0x1f == raw % 32) by (bit_vector);
    match MachineState::try_from(marc_state) {
        Ok(state) => Ok(state),
        Err(e) => match e {
            MachineStateError::InvalidState(value) => Err(Error::InvalidState(value)),
        },
    }
}

/// The length of a received packet, if the CRC_OK bit of its LQI is set.
pub fn crc_checked_length<SpiE>(lqi: u8, length: u8) -> (r: Result<u8, Error<SpiE>>)
    ensures
        r == packet_outcome::<SpiE>(lqi, length),
        lqi & 0x80 == 0x80 ==> r == Ok::<u8, Error<SpiE>>(length),
        lqi & 0x80 == 0 ==> r == Err::<u8, Error<SpiE>>(Error::CrcMismatch),
{
    assert(lqi & 0x80 == 0x80 <==> lqi >= 128) by (bit_vector);
    assert(lqi & 0x80 == 0 <==> lqi < 128) by (bit_vector);
    assert(lqi >> 7 == lqi / 128) by (bit_vector);
    if (lqi >> 7) != 1 {
        Err(Error::CrcMismatch)
    } else {
        Ok(length)
    }
}

/// The Link Quality Indicator without the CRC_OK bit.
pub fn lqi_value(raw: u8) -> (v: u8)
    ensures
        v == raw % 128,
{
    assert(raw & !(1u8 << 7u8) == raw % 128) by (bit_vector);
    raw & !(1u8 << 7u8)
}

// ---------------------------------------------------------------------------
// The job machine.

/// The value a job read at position `i`, or 0 when it read fewer.
pub open spec fn read_at(reads: Seq<u8>, i: int) -> u8 {
    if 0 <= i < reads.len() {
        reads[i]
    } else {
        0
    }
}

/// The result of a finished job.
pub open spec fn finish_outcome<SpiE>(finish: Finish, reads: Seq<u8>, fifo: Option<(u8, u8)>) -> Result<Reply, Error<SpiE>> {
    match finish {
        Finish::Nothing => Ok(Reply::Nothing),
        Finish::HwInfo => Ok(Reply::HwInfo(read_at(reads, 0), read_at(reads, 1))),
        Finish::RssiDbm => Ok(Reply::RssiDbm(rssi_dbm(read_at(reads, 0)) as i16)),
        Finish::Lqi => Ok(Reply::Lqi(read_at(reads, 0) % 128)),
        Finish::TxBytes => match tx_bytes_outcome::<SpiE>(read_at(reads, 0)) {
            Ok(n) => Ok(Reply::Bytes(n)),
            Err(e) => Err(e),
        },
        Finish::RxBytes => match rx_bytes_outcome::<SpiE>(read_at(reads, 0)) {
            Ok(n) => Ok(Reply::Bytes(n)),
            Err(e) => Err(e),
        },
        Finish::MachineState => match machine_state_outcome::<SpiE>(read_at(reads, 0)) {
            Ok(s) => Ok(Reply::State(s)),
            Err(e) => Err(e),
        },
        Finish::Packet => {
            let length = match fifo {
                Some(h) => h.0,
                None => 0,
            };
            match packet_outcome::<SpiE>(read_at(reads, 1), length) {
                Ok(n) => Ok(Reply::Packet(n)),
                Err(e) => Err(e),
            }
        },
    }
}

/// The bytes that start an operation.
pub open spec fn op_frame(op: RegOp) -> Seq<u8> {
    match op {
        RegOp::Strobe(c) => strobe_frame(c),
        RegOp::Write(r, b) => write_frame(Register::Config(r), b),
        RegOp::Read(r) => read_frame(r),
        RegOp::Modify(r, _) => read_frame(Register::Config(r)),
        RegOp::AwaitState(_) => read_frame(Register::Status(Status::MARCSTATE)),
        RegOp::AwaitRxBytes => read_frame(Register::Status(Status::RXBYTES)),
        RegOp::ReadFifo => fifo_read_frame(),
    }
}

/// The bytes of the transfer that is out.
pub open spec fn pending_frame<SpiE>(v: DriverView<SpiE>) -> Seq<u8> {
    match v.phase {
        Phase::Issue => op_frame(v.ops[v.pc]),
        Phase::Write(b) => write_frame(Register::Config(v.ops[v.pc]->Modify_0), b),
        Phase::Poll(_) => read_frame(Register::Status(Status::RXBYTES)),
        Phase::Recover(_) => strobe_frame(Command::SFRX),
        Phase::Idle => Seq::empty(),
    }
}

impl<SpiE> DriverView<SpiE> {
    /// A transfer is out and the driver can take in its reply.
    pub open spec fn awaiting(self) -> bool {
        match self.phase {
            Phase::Idle => false,
            Phase::Issue => 0 <= self.pc < self.ops.len(),
            Phase::Write(_) => 0 <= self.pc < self.ops.len() && self.ops[self.pc] is Modify,
            Phase::Poll(_) => 0 <= self.pc < self.ops.len() && self.ops[self.pc] is AwaitRxBytes,
            Phase::Recover(_) => true,
        }
    }

    /// The driver is about to issue its next transfer, or to finish.
    pub open spec fn ready(self) -> bool {
        match self.phase {
            Phase::Issue => 0 <= self.pc <= self.ops.len(),
            _ => self.awaiting(),
        }
    }

    /// The job is to flush the RX FIFO when the current operation fails.
    pub open spec fn flushes_on_error(self) -> bool {
        self.ops[self.pc] is AwaitRxBytes
    }

    pub open spec fn with_status(self, status: Option<StatusByte>) -> DriverView<SpiE> {
        DriverView { status, ..self }
    }

    pub open spec fn with_phase(self, phase: Phase<SpiE>) -> DriverView<SpiE> {
        DriverView { phase, ..self }
    }

    /// On to the next operation.
    pub open spec fn advanced(self) -> DriverView<SpiE> {
        DriverView { pc: self.pc + 1, phase: Phase::Issue, ..self }
    }

    pub open spec fn with_read(self, b: u8) -> DriverView<SpiE> {
        DriverView { reads: self.reads.push(b), ..self }
    }
}

/// A driver about to run `ops` from the start.
pub open spec fn fresh<SpiE>(status: Option<StatusByte>, ops: Seq<RegOp>, finish: Finish) -> DriverView<SpiE> {
    DriverView { status, ops, pc: 0, phase: Phase::Issue, finish, reads: Seq::empty(), fifo: None }
}

/// The next step from a driver that is ready, and the driver after it.
pub open spec fn emit_spec<SpiE>(v: DriverView<SpiE>) -> (DriverView<SpiE>, StepView<SpiE>) {
    match v.phase {
        Phase::Issue => if v.pc >= v.ops.len() {
            (v.with_phase(Phase::Idle), StepView::Done(finish_outcome(v.finish, v.reads, v.fifo)))
        } else if v.ops[v.pc] is ReadFifo {
            (v, StepView::FifoTransfer(fifo_read_frame()))
        } else {
            (v, StepView::Transfer(op_frame(v.ops[v.pc])))
        },
        Phase::Idle => (v, StepView::Done(Ok(Reply::Nothing))),
        _ => (v, StepView::Transfer(pending_frame(v))),
    }
}

/// Taking in an RXBYTES reading while waiting for the RX FIFO to settle; on
/// an overflow the RX FIFO is flushed.
pub open spec fn poll_rx_spec<SpiE>(v: DriverView<SpiE>, last: u8, r: Seq<u8>) -> (DriverView<SpiE>, StepView<SpiE>) {
    let w = v.with_status(status_of(r[0]));
    match rx_available_outcome::<SpiE>(last, r[1]) {
        Err(e) => emit_spec(w.with_phase(Phase::Recover(e))),
        Ok(Some(n)) => emit_spec(w.with_read(n).advanced()),
        Ok(None) => emit_spec(w.with_phase(Phase::Poll(r[1]))),
    }
}

/// Taking in the reply to the first transfer of the current operation.
pub open spec fn issue_spec<SpiE>(v: DriverView<SpiE>, r: Seq<u8>) -> (DriverView<SpiE>, StepView<SpiE>) {
    let w = v.with_status(status_of(r[0]));
    match v.ops[v.pc] {
        RegOp::Strobe(c) => emit_spec(v.with_status(status_after_strobe(c, r[0])).advanced()),
        RegOp::Write(_, _) => emit_spec(w.advanced()),
        RegOp::Read(_) => emit_spec(w.with_read(r[1]).advanced()),
        RegOp::Modify(_, u) => emit_spec(w.with_phase(Phase::Write(u.apply_to(r[1])))),
        RegOp::AwaitState(t) => match await_outcome::<SpiE>(t, r[1]) {
            Err(e) => (w.with_phase(Phase::Idle), StepView::Done(Err(e))),
            Ok(reached) => if reached {
                emit_spec(w.advanced())
            } else {
                emit_spec(w)
            },
        },
        RegOp::AwaitRxBytes => poll_rx_spec(v, 0, r),
        RegOp::ReadFifo => emit_spec(DriverView { fifo: Some((r[1], r[2])), ..w }.advanced()),
    }
}

/// Taking in the reply to the transfer that is out (or the bus error instead),
/// and the next step.
pub open spec fn resume_spec<SpiE>(v: DriverView<SpiE>, reply: Result<Seq<u8>, SpiE>) -> (DriverView<SpiE>, StepView<SpiE>) {
    match reply {
        Err(e) => {
            let recover = match v.phase {
                Phase::Issue => v.flushes_on_error(),
                Phase::Poll(_) => v.flushes_on_error(),
                _ => false,
            };
            if recover {
                emit_spec(v.with_phase(Phase::Recover(Error::Spi(e))))
            } else {
                (v.with_phase(Phase::Idle), StepView::Done(Err(Error::Spi(e))))
            }
        },
        Ok(r) => match v.phase {
            Phase::Recover(err) => (v.with_status(None).with_phase(Phase::Idle), StepView::Done(Err(err))),
            Phase::Write(_) => emit_spec(v.with_status(status_of(r[0])).advanced()),
            Phase::Poll(last) => poll_rx_spec(v, last, r),
            Phase::Issue => issue_spec(v, r),
            Phase::Idle => (v, StepView::Done(Ok(Reply::Nothing))),
        },
    }
}

/// The reply as a sequence of bytes.
pub open spec fn reply_view<SpiE>(reply: Result<Vec<u8>, SpiE>) -> Result<Seq<u8>, SpiE> {
    match reply {
        Ok(r) => Ok(r@),
        Err(e) => Err(e),
    }
}

/// `new` is the driver after starting the job `ops` from `old`, and `s` is the job's first step.
pub open spec fn started<SpiE>(old: DriverView<SpiE>, new: DriverView<SpiE>, s: StepView<SpiE>, ops: Seq<RegOp>, finish: Finish) -> bool {
    (new, s) == emit_spec(fresh::<SpiE>(old.status, ops, finish))
}

/// The bytes of a reset sync word: SYNC1 and SYNC0 after a reset.
pub open spec fn reset_sync_word() -> u16 {
    (Config::SYNC1.reset_value() * 256 + Config::SYNC0.reset_value()) as u16
}

/// The sync word that a sync mode writes.
pub open spec fn sync_word(mode: SyncMode) -> u16 {
    match mode {
        SyncMode::Disabled => reset_sync_word(),
        SyncMode::MatchPartial(w) => w,
        SyncMode::MatchPartialRepeated(w) => w,
        SyncMode::MatchFull(w) => w,
    }
}

/// The device address that an address filter writes.
pub open spec fn filter_address(filter: AddressFilter) -> u8 {
    match filter {
        AddressFilter::Disabled => Config::ADDR.reset_value(),
        AddressFilter::Device(a) => a,
        AddressFilter::DeviceLowBroadcast(a) => a,
        AddressFilter::DeviceHighLowBroadcast(a) => a,
    }
}

/// The packet length that a packet length mode writes.
pub open spec fn packet_length_limit(length: PacketLength) -> u8 {
    match length {
        PacketLength::Fixed(l) => l,
        PacketLength::Variable(l) => l,
        PacketLength::Infinite => Config::PKTLEN.reset_value(),
    }
}

/// The strobes and waits that put the radio in a mode: to IDLE first, then on.
pub open spec fn radio_mode_ops(mode: RadioMode) -> Seq<RegOp> {
    let idle = seq![RegOp::Strobe(Command::SIDLE), RegOp::AwaitState(MachineState::IDLE)];
    match mode {
        RadioMode::Idle => idle,
        RadioMode::Sleep => idle + seq![RegOp::Strobe(Command::SPWD), RegOp::AwaitState(MachineState::SLEEP)],
        RadioMode::Calibrate => idle + seq![RegOp::Strobe(Command::SCAL), RegOp::AwaitState(MachineState::MANCAL)],
        RadioMode::Transmit => idle + seq![RegOp::Strobe(Command::STX), RegOp::AwaitState(MachineState::TX)],
        RadioMode::Receive => idle + seq![RegOp::Strobe(Command::SRX), RegOp::AwaitState(MachineState::RX)],
    }
}

pub open spec fn bit(b: bool) -> u8 {
    if b {
        1
    } else {
        0
    }
}

fn bit_of(b: bool) -> (v: u8)
    ensures
        v == bit(b),
{
    if b {
        1
    } else {
        0
    }
}

/// The bytes that start an operation.
fn frame_for(op: RegOp) -> (f: Vec<u8>)
    ensures
        f@ == op_frame(op),
{
    match op {
        RegOp::Strobe(c) => cmd_strobe_frame(c),
        RegOp::Write(r, b) => write_register_frame(Register::Config(r), b),
        RegOp::Read(r) => read_register_frame(r),
        RegOp::Modify(r, _) => read_register_frame(Register::Config(r)),
        RegOp::AwaitState(_) => read_register_frame(Register::Status(Status::MARCSTATE)),
        RegOp::AwaitRxBytes => read_register_frame(Register::Status(Status::RXBYTES)),
        RegOp::ReadFifo => read_fifo_frame(),
    }
}

// ---------------------------------------------------------------------------
// Laws of the job machine.

/// The step and the driver after it agree: a step that asks for a transfer
/// leaves the driver waiting for the reply to exactly those bytes (a FIFO
/// transfer exactly when the operation reads a packet), and a finished job
/// leaves the driver idle.
pub open spec fn step_agrees<SpiE>(w: DriverView<SpiE>, s: StepView<SpiE>) -> bool {
    match s {
        StepView::Done(_) => w.phase is Idle,
        StepView::Transfer(b) => w.awaiting() && b == pending_frame(w)
            && !(w.phase is Issue && w.ops[w.pc] is ReadFifo),
        StepView::FifoTransfer(b) => w.awaiting() && b == pending_frame(w) && w.phase is Issue
            && w.ops[w.pc] is ReadFifo,
    }
}

/// Issuing the next step from a driver that is ready agrees with the driver after it.
pub proof fn lemma_emit_agrees<SpiE>(v: DriverView<SpiE>)
    requires
        v.ready(),
        !(v.phase is Idle),
    ensures
        step_agrees(emit_spec(v).0, emit_spec(v).1),
{
}

/// Taking in the reply to the transfer that is out, or a bus error, gives a
/// step that agrees with the driver after it: the caller can always resume
/// after a transfer, with as many bytes as it sent.
pub proof fn lemma_resume_agrees<SpiE>(v: DriverView<SpiE>, reply: Result<Seq<u8>, SpiE>)
    requires
        v.awaiting(),
        reply matches Ok(r) ==> r.len() == pending_frame(v).len(),
    ensures
        step_agrees(resume_spec(v, reply).0, resume_spec(v, reply).1),
{
    match reply {
        Err(e) => {
            if !(v.phase is Recover) && !(v.phase is Write) && v.flushes_on_error() {
                lemma_emit_agrees(v.with_phase(Phase::Recover(Error::Spi(e))));
            }
        },
        Ok(r) => match v.phase {
            Phase::Write(_) => lemma_emit_agrees(v.with_status(status_of(r[0])).advanced()),
            Phase::Poll(last) => lemma_poll_agrees(v, last, r),
            Phase::Issue => {
                let w = v.with_status(status_of(r[0]));
                match v.ops[v.pc] {
                    RegOp::Strobe(c) => lemma_emit_agrees(v.with_status(status_after_strobe(c, r[0])).advanced()),
                    RegOp::Write(_, _) => lemma_emit_agrees(w.advanced()),
                    RegOp::Read(_) => lemma_emit_agrees(w.with_read(r[1]).advanced()),
                    RegOp::Modify(_, u) => lemma_emit_agrees(w.with_phase(Phase::Write(u.apply_to(r[1])))),
                    RegOp::AwaitState(t) => {
                        lemma_emit_agrees(w.advanced());
                        lemma_emit_agrees(w);
                    },
                    RegOp::AwaitRxBytes => lemma_poll_agrees(v, 0, r),
                    RegOp::ReadFifo => lemma_emit_agrees(DriverView { fifo: Some((r[1], r[2])), ..w }.advanced()),
                }
            },
            _ => {},
        },
    }
}

proof fn lemma_poll_agrees<SpiE>(v: DriverView<SpiE>, last: u8, r: Seq<u8>)
    requires
        0 <= v.pc < v.ops.len(),
        v.ops[v.pc] is AwaitRxBytes,
        r.len() == 2,
    ensures
        step_agrees(poll_rx_spec(v, last, r).0, poll_rx_spec(v, last, r).1),
{
    let w = v.with_status(status_of(r[0]));
    match rx_available_outcome::<SpiE>(last, r[1]) {
        Err(e) => lemma_emit_agrees(w.with_phase(Phase::Recover(e))),
        Ok(Some(n)) => lemma_emit_agrees(w.with_read(n).advanced()),
        Ok(None) => lemma_emit_agrees(w.with_phase(Phase::Poll(r[1]))),
    }
}

/// A job moves past a wait for a machine state only on a MARCSTATE reading
/// that shows that state, and fails on one that shows no state.
pub proof fn lemma_await_moves_on_only_at_target<SpiE>(v: DriverView<SpiE>, r: Seq<u8>, target: MachineState)
    requires
        v.phase is Issue,
        0 <= v.pc < v.ops.len(),
        v.ops[v.pc] == RegOp::AwaitState(target),
        r.len() == 2,
    ensures
        issue_spec(v, r).0.pc == v.pc + 1 ==> r[1] % 32 < 23 && state_of((r[1] % 32) as u8) == target,
        r[1] % 32 < 23 && state_of((r[1] % 32) as u8) != target ==> issue_spec(v, r).0.pc == v.pc
            && issue_spec(v, r).1 == StepView::<SpiE>::Transfer(read_frame(Register::Status(Status::MARCSTATE))),
        r[1] % 32 >= 23 ==> issue_spec(v, r).1 == StepView::<SpiE>::Done(Err(Error::InvalidState((r[1] % 32) as u8))),
{
}

/// Every state reads back from MARCSTATE as itself, whatever the three unused
/// bits hold.
pub proof fn lemma_machine_state_round_trip<SpiE>(s: MachineState, unused: u8)
    requires
        unused < 8,
    ensures
        machine_state_outcome::<SpiE>((unused * 32 + s.spec_encoding()) as u8) == Ok::<MachineState, Error<SpiE>>(s),
{
    let v = s.spec_encoding();
    assert((unused * 32 + v) % 32 == v);
    lowlevel::types::lemma_machine_state_encoding_injective(s, state_of(v));
}

/// The two bytes that a sync mode writes to SYNC1 and SYNC0 make up its sync word.
pub proof fn lemma_sync_word_bytes(mode: SyncMode)
    ensures
        (sync_word(mode) / 256) as u8 * 256 + (sync_word(mode) % 256) as u8 == sync_word(mode),
        mode is Disabled ==> sync_word(mode) == 0xD391,
{
}

// ---------------------------------------------------------------------------
// The chip status over a sequence of calls.

/// A call that changes the driver: starting a job (what every operation of
/// the high level API does, see [`started`]) or resuming it with a reply.
pub enum Call<SpiE> {
    Start(Seq<RegOp>, Finish),
    Resume(Result<Seq<u8>, SpiE>),
}

/// The driver after a sequence of calls.
pub open spec fn run_calls<SpiE>(v: DriverView<SpiE>, calls: Seq<Call<SpiE>>) -> DriverView<SpiE>
    decreases calls.len(),
{
    if calls.len() == 0 {
        v
    } else {
        let w = run_calls(v, calls.drop_last());
        match calls.last() {
            Call::Start(ops, finish) => emit_spec(fresh::<SpiE>(w.status, ops, finish)).0,
            Call::Resume(reply) => resume_spec(w, reply).0,
        }
    }
}

/// Every resume in the sequence comes while a transfer is out, with as many
/// bytes as were sent, as [`Cc1101::resume`] requires.
pub open spec fn calls_valid<SpiE>(v: DriverView<SpiE>, calls: Seq<Call<SpiE>>) -> bool
    decreases calls.len(),
{
    if calls.len() == 0 {
        true
    } else {
        let w = run_calls(v, calls.drop_last());
        &&& calls_valid(v, calls.drop_last())
        &&& (calls.last() matches Call::Resume(reply) ==> {
            &&& w.awaiting()
            &&& (reply matches Ok(r) ==> r.len() == pending_frame(w).len())
        })
    }
}

/// The SPI transfers a sequence of calls made: the bytes sent, and what came
/// back or the bus error.
pub open spec fn transfers_of<SpiE>(v: DriverView<SpiE>, calls: Seq<Call<SpiE>>) -> Seq<(Seq<u8>, Result<Seq<u8>, SpiE>)>
    decreases calls.len(),
{
    if calls.len() == 0 {
        Seq::empty()
    } else {
        let t = transfers_of(v, calls.drop_last());
        match calls.last() {
            Call::Start(_, _) => t,
            Call::Resume(reply) => t.push((pending_frame(run_calls(v, calls.drop_last())), reply)),
        }
    }
}

/// The status known after a transfer: unchanged by a failed one; none after a
/// strobe other than SNOP (a single byte other than 0x3D); otherwise the first
/// byte that came back.
pub open spec fn status_after_transfer<SpiE>(prev: Option<StatusByte>, sent: Seq<u8>, reply: Result<Seq<u8>, SpiE>) -> Option<StatusByte> {
    match reply {
        Err(_) => prev,
        Ok(r) => if sent.len() == 1 && sent[0] != 0x3D {
            None
        } else {
            status_of(r[0])
        },
    }
}

/// The status known after a sequence of transfers.
pub open spec fn status_after_transfers<SpiE>(init: Option<StatusByte>, ts: Seq<(Seq<u8>, Result<Seq<u8>, SpiE>)>) -> Option<StatusByte>
    decreases ts.len(),
{
    if ts.len() == 0 {
        init
    } else {
        status_after_transfer(status_after_transfers(init, ts.drop_last()), ts.last().0, ts.last().1)
    }
}

proof fn lemma_emit_keeps_status<SpiE>(v: DriverView<SpiE>)
    ensures
        emit_spec(v).0.status == v.status,
{
}

/// Taking in one reply sets the status as [`status_after_transfer`] says.
pub proof fn lemma_resume_status<SpiE>(v: DriverView<SpiE>, reply: Result<Seq<u8>, SpiE>)
    requires
        v.awaiting(),
        reply matches Ok(r) ==> r.len() == pending_frame(v).len(),
    ensures
        resume_spec(v, reply).0.status == status_after_transfer(v.status, pending_frame(v), reply),
{
    match reply {
        Err(e) => {
            lemma_emit_keeps_status(v.with_phase(Phase::Recover(Error::Spi(e))));
        },
        Ok(r) => match v.phase {
            Phase::Write(_) => lemma_emit_keeps_status(v.with_status(status_of(r[0])).advanced()),
            Phase::Poll(last) => lemma_poll_status(v, last, r),
            Phase::Issue => {
                let w = v.with_status(status_of(r[0]));
                match v.ops[v.pc] {
                    RegOp::Strobe(c) => lemma_emit_keeps_status(v.with_status(status_after_strobe(c, r[0])).advanced()),
                    RegOp::Write(_, _) => lemma_emit_keeps_status(w.advanced()),
                    RegOp::Read(_) => lemma_emit_keeps_status(w.with_read(r[1]).advanced()),
                    RegOp::Modify(_, u) => lemma_emit_keeps_status(w.with_phase(Phase::Write(u.apply_to(r[1])))),
                    RegOp::AwaitState(t) => {
                        lemma_emit_keeps_status(w.advanced());
                        lemma_emit_keeps_status(w);
                    },
                    RegOp::AwaitRxBytes => lemma_poll_status(v, 0, r),
                    RegOp::ReadFifo => lemma_emit_keeps_status(DriverView { fifo: Some((r[1], r[2])), ..w }.advanced()),
                }
            },
            _ => {},
        },
    }
}

proof fn lemma_poll_status<SpiE>(v: DriverView<SpiE>, last: u8, r: Seq<u8>)
    requires
        0 <= v.pc < v.ops.len(),
        r.len() == 2,
    ensures
        poll_rx_spec(v, last, r).0.status == status_of(r[0]),
{
    let w = v.with_status(status_of(r[0]));
    match rx_available_outcome::<SpiE>(last, r[1]) {
        Err(e) => lemma_emit_keeps_status(w.with_phase(Phase::Recover(e))),
        Ok(Some(n)) => lemma_emit_keeps_status(w.with_read(n).advanced()),
        Ok(None) => lemma_emit_keeps_status(w.with_phase(Phase::Poll(r[1]))),
    }
}

/// Over any sequence of calls, the chip status that [`Cc1101::get_chip_status`]
/// reports is the first byte that came back in the last transfer that did not
/// fail, or none when that transfer was a strobe other than SNOP; starting a
/// job and a failed transfer leave it as it was. A new driver starts with none.
pub proof fn lemma_status_over_calls<SpiE>(v: DriverView<SpiE>, calls: Seq<Call<SpiE>>)
    requires
        calls_valid(v, calls),
    ensures
        run_calls(v, calls).status == status_after_transfers(v.status, transfers_of(v, calls)),
    decreases calls.len(),
{
    if calls.len() > 0 {
        let prev = calls.drop_last();
        lemma_status_over_calls(v, prev);
        let w = run_calls(v, prev);
        match calls.last() {
            Call::Start(ops, finish) => lemma_emit_keeps_status(fresh::<SpiE>(w.status, ops, finish)),
            Call::Resume(reply) => {
                lemma_resume_status(w, reply);
                let t = transfers_of(v, prev);
                assert(transfers_of(v, calls).drop_last() =~= t);
            },
        }
    }
}

impl<SpiE> Cc1101<SpiE> {
    pub fn new() -> (c: Cc1101<SpiE>)
        ensures
            c@.status is None,
            c@.phase is Idle,
    {
        Cc1101 {
            ll: lowlevel::Cc1101::new(),
            ops: Vec::new(),
            pc: 0,
            phase: Phase::Idle,
            finish: Finish::Nothing,
            reads: Vec::new(),
            fifo: None,
        }
    }

    /// Last Chip Status Byte
    pub fn get_chip_status(&self) -> (s: Option<StatusByte>)
        ensures
            s == self@.status,
    {
        self.ll.status
    }

    /// The length and address bytes of the last packet read from the RX FIFO
    /// by the current or last job, if it read one.
    pub fn received_header(&self) -> (h: Option<(u8, u8)>)
        ensures
            h == self@.fifo,
    {
        self.fifo
    }

    /// Whether a transfer is out whose reply the driver waits for.
    pub fn is_awaiting(&self) -> (b: bool)
        ensures
            b == self@.awaiting(),
    {
        let n = self.ops.len();
        match self.phase {
            Phase::Idle => false,
            Phase::Issue => self.pc < n,
            Phase::Write(_) => self.pc < n && matches!(self.ops[self.pc], RegOp::Modify(_, _)),
            Phase::Poll(_) => self.pc < n && matches!(self.ops[self.pc], RegOp::AwaitRxBytes),
            Phase::Recover(_) => true,
        }
    }

    /// The bytes the driver currently expects back.
    pub fn expected_reply_len(&self) -> (n: usize)
        requires
            self@.awaiting(),
        ensures
            n == pending_frame(self@).len(),
    {
        match self.phase {
            Phase::Issue => {
                let op = self.ops[self.pc];
                match op {
                    RegOp::Strobe(_) => 1,
                    RegOp::ReadFifo => 3,
                    _ => 2,
                }
            },
            Phase::Write(_) => 2,
            Phase::Poll(_) => 2,
            Phase::Recover(_) => 1,
            Phase::Idle => 0,
        }
    }

    fn finish_result(&self) -> (r: Result<Reply, Error<SpiE>>)
        ensures
            r == finish_outcome::<SpiE>(self.finish, self.reads@, self.fifo),
    {
        let n = self.reads.len();
        let r0: u8 = if n > 0 { self.reads[0] } else { 0 };
        let r1: u8 = if n > 1 { self.reads[1] } else { 0 };
        match self.finish {
            Finish::Nothing => Ok(Reply::Nothing),
            Finish::HwInfo => Ok(Reply::HwInfo(r0, r1)),
            Finish::RssiDbm => Ok(Reply::RssiDbm(from_rssi_to_rssi_dbm(r0))),
            Finish::Lqi => Ok(Reply::Lqi(lqi_value(r0))),
            Finish::TxBytes => match decode_tx_bytes(r0) {
                Ok(b) => Ok(Reply::Bytes(b)),
                Err(e) => Err(e),
            },
            Finish::RxBytes => match decode_rx_bytes(r0) {
                Ok(b) => Ok(Reply::Bytes(b)),
                Err(e) => Err(e),
            },
            Finish::MachineState => match decode_machine_state(r0) {
                Ok(s) => Ok(Reply::State(s)),
                Err(e) => Err(e),
            },
            Finish::Packet => {
                let length: u8 = match self.fifo {
                    Some(h) => h.0,
                    None => 0,
                };
                match crc_checked_length(r1, length) {
                    Ok(l) => Ok(Reply::Packet(l)),
                    Err(e) => Err(e),
                }
            },
        }
    }

    fn emit(&mut self) -> (s: Step<SpiE>)
        requires
            old(self)@.ready(),
        ensures
            (final(self)@, s@) == emit_spec(old(self)@),
    {
        match self.phase {
            Phase::Issue => {
                if self.pc >= self.ops.len() {
                    self.phase = Phase::Idle;
                    Step::Done(self.finish_result())
                } else {
                    let op = self.ops[self.pc];
                    match op {
                        RegOp::ReadFifo => Step::FifoTransfer(read_fifo_frame()),
                        _ => Step::Transfer(frame_for(op)),
                    }
                }
            },
            Phase::Write(b) => {
                let op = self.ops[self.pc];
                match op {
                    RegOp::Modify(reg, _) => Step::Transfer(write_register_frame(Register::Config(reg), b)),
                    _ => Step::Done(Ok(Reply::Nothing)),
                }
            },
            Phase::Poll(_) => Step::Transfer(read_register_frame(Register::Status(Status::RXBYTES))),
            Phase::Recover(_) => Step::Transfer(cmd_strobe_frame(Command::SFRX)),
            Phase::Idle => Step::Done(Ok(Reply::Nothing)),
        }
    }

    fn advance(&mut self) -> (s: Step<SpiE>)
        requires
            0 <= old(self)@.pc < old(self)@.ops.len(),
        ensures
            (final(self)@, s@) == emit_spec(old(self)@.advanced()),
    {
        let n = self.ops.len();
        assert(self.pc < n);
        self.pc = self.pc + 1;
        self.phase = Phase::Issue;
        self.emit()
    }

    fn start(&mut self, ops: Vec<RegOp>, finish: Finish) -> (s: Step<SpiE>)
        ensures
            started(old(self)@, final(self)@, s@, ops@, finish),
    {
        self.ops = ops;
        self.pc = 0;
        self.phase = Phase::Issue;
        self.finish = finish;
        self.reads = Vec::new();
        self.fifo = None;
        self.emit()
    }

    fn flush_on_error(&self) -> (b: bool)
        requires
            0 <= self@.pc < self@.ops.len(),
        ensures
            b == self@.flushes_on_error(),
    {
        matches!(self.ops[self.pc], RegOp::AwaitRxBytes)
    }

    /// One reading of MARCSTATE while waiting for `target_state`: whether it
    /// has been reached, or the reading shows no valid state.
    pub fn await_machine_state(target_state: MachineState, raw: u8) -> (r: Result<bool, Error<SpiE>>)
        ensures
            r == await_outcome::<SpiE>(target_state, raw),
    {
        match decode_machine_state(raw) {
            Ok(machine_state) => Ok(target_state == machine_state),
            Err(e) => Err(e),
        }
    }

    /// One reading of RXBYTES while waiting for received bytes to settle:
    /// `Some(count)` when the reading agrees with the previous one, `last`,
    /// on a nonzero count.
    pub fn rx_bytes_available(last: u8, raw: u8) -> (r: Result<Option<u8>, Error<SpiE>>)
        ensures
            r == rx_available_outcome::<SpiE>(last, raw),
    {
        match decode_rx_bytes(raw) {
            Ok(num_rxbytes) => {
                if (num_rxbytes > 0) && (num_rxbytes == last) {
                    Ok(Some(num_rxbytes))
                } else {
                    Ok(None)
                }
            },
            Err(e) => Err(e),
        }
    }

    fn poll_rx(&mut self, last: u8, reply: &Vec<u8>) -> (s: Step<SpiE>)
        requires
            0 <= old(self)@.pc < old(self)@.ops.len(),
            old(self)@.ops[old(self)@.pc] is AwaitRxBytes,
            reply@.len() == 2,
        ensures
            (final(self)@, s@) == poll_rx_spec(old(self)@, last, reply@),
    {
        let raw = self.ll.read_register(reply);
        match Self::rx_bytes_available(last, raw) {
            Err(e) => {
                self.phase = Phase::Recover(e);
                self.emit()
            },
            Ok(Some(n)) => {
                self.reads.push(n);
                self.advance()
            },
            Ok(None) => {
                self.phase = Phase::Poll(raw);
                self.emit()
            },
        }
    }

    fn issue(&mut self, reply: &Vec<u8>) -> (s: Step<SpiE>)
        requires
            old(self)@.phase is Issue,
            0 <= old(self)@.pc < old(self)@.ops.len(),
            reply@.len() == op_frame(old(self)@.ops[old(self)@.pc]).len(),
        ensures
            (final(self)@, s@) == issue_spec(old(self)@, reply@),
    {
        let op = self.ops[self.pc];
        match op {
            RegOp::Strobe(c) => {
                self.ll.write_cmd_strobe(c, reply);
                self.advance()
            },
            RegOp::Write(_, _) => {
                self.ll.write_register(reply);
                self.advance()
            },
            RegOp::Read(_) => {
                let v = self.ll.read_register(reply);
                self.reads.push(v);
                self.advance()
            },
            RegOp::Modify(_, u) => {
                let update = (|r: u8| -> (o: u8)
                    ensures
                        o == u.apply_to(r),
                    { u.apply(r) });
                let b = self.ll.modify_register(update, reply);
                self.phase = Phase::Write(b);
                self.emit()
            },
            RegOp::AwaitState(target) => {
                let raw = self.ll.read_register(reply);
                match Self::await_machine_state(target, raw) {
                    Err(e) => {
                        self.phase = Phase::Idle;
                        Step::Done(Err(e))
                    },
                    Ok(reached) => {
                        if reached {
                            self.advance()
                        } else {
                            self.emit()
                        }
                    },
                }
            },
            RegOp::AwaitRxBytes => self.poll_rx(0, reply),
            RegOp::ReadFifo => {
                let header = self.ll.read_fifo(reply);
                self.fifo = Some(header);
                self.advance()
            },
        }
    }

    /// Takes in what came back from the transfer of the last step (or the
    /// bus error instead) and returns the next step.
    pub fn resume(&mut self, reply: Result<Vec<u8>, SpiE>) -> (s: Step<SpiE>)
        requires
            old(self)@.awaiting(),
            reply matches Ok(r) ==> r@.len() == pending_frame(old(self)@).len(),
        ensures
            (final(self)@, s@) == resume_spec(old(self)@, reply_view(reply)),
    {
        match reply {
            Err(e) => {
                let recover = match self.phase {
                    Phase::Issue => self.flush_on_error(),
                    Phase::Poll(_) => self.flush_on_error(),
                    _ => false,
                };
                if recover {
                    self.phase = Phase::Recover(Error::Spi(e));
                    self.emit()
                } else {
                    self.phase = Phase::Idle;
                    Step::Done(Err(Error::Spi(e)))
                }
            },
            Ok(r) => {
                match self.phase {
                    Phase::Write(_) => {
                        self.ll.write_register(&r);
                        self.advance()
                    },
                    Phase::Poll(last) => self.poll_rx(last, &r),
                    Phase::Issue => self.issue(&r),
                    Phase::Idle => Step::Done(Ok(Reply::Nothing)),
                    Phase::Recover(_) => {
                        let mut phase = Phase::Idle;
                        core::mem::swap(&mut phase, &mut self.phase);
                        self.ll.write_cmd_strobe(Command::SFRX, &r);
                        match phase {
                            Phase::Recover(err) => Step::Done(Err(err)),
                            _ => Step::Done(Ok(Reply::Nothing)),
                        }
                    },
                }
            },
        }
    }
}

impl<SpiE> Cc1101<SpiE> {
    fn start_one(&mut self, op: RegOp, finish: Finish) -> (s: Step<SpiE>)
        ensures
            started(old(self)@, final(self)@, s@, seq![op], finish),
    {
        let ops = vec![op];
        assert(ops@ =~= seq![op]);
        self.start(ops, finish)
    }

    fn strobe(&mut self, cmd: Command) -> (s: Step<SpiE>)
        ensures
            started(old(self)@, final(self)@, s@, seq![RegOp::Strobe(cmd)], Finish::Nothing),
    {
        self.start_one(RegOp::Strobe(cmd), Finish::Nothing)
    }

    fn modify(&mut self, reg: Config, update: Update) -> (s: Step<SpiE>)
        ensures
            started(old(self)@, final(self)@, s@, seq![RegOp::Modify(reg, update)], Finish::Nothing),
    {
        self.start_one(RegOp::Modify(reg, update), Finish::Nothing)
    }

    /// Command Strobe: Reset chip
    pub fn reset_chip(&mut self) -> (s: Step<SpiE>)
        ensures
            started(old(self)@, final(self)@, s@, seq![RegOp::Strobe(Command::SRES)], Finish::Nothing),
    {
        self.strobe(Command::SRES)
    }

    /// Command Strobe: Enable and calibrate frequency synthesizer
    pub fn enable_and_cal_freq_synth(&mut self) -> (s: Step<SpiE>)
        ensures
            started(old(self)@, final(self)@, s@, seq![RegOp::Strobe(Command::SFSTXON)], Finish::Nothing),
    {
        self.strobe(Command::SFSTXON)
    }

    /// Command Strobe: Turn off crystal oscillator
    pub fn turn_off_xosc(&mut self) -> (s: Step<SpiE>)
        ensures
            started(old(self)@, final(self)@, s@, seq![RegOp::Strobe(Command::SXOFF)], Finish::Nothing),
    {
        self.strobe(Command::SXOFF)
    }

    /// Command Strobe: Calibrate frequency synthesizer and turn it off
    pub fn cal_freq_synth_and_turn_off(&mut self) -> (s: Step<SpiE>)
        ensures
            started(old(self)@, final(self)@, s@, seq![RegOp::Strobe(Command::SCAL)], Finish::Nothing),
    {
        self.strobe(Command::SCAL)
    }

    /// Command Strobe: Enable RX
    pub fn enable_rx(&mut self) -> (s: Step<SpiE>)
        ensures
            started(old(self)@, final(self)@, s@, seq![RegOp::Strobe(Command::SRX)], Finish::Nothing),
    {
        self.strobe(Command::SRX)
    }

    /// Command Strobe: Enable TX
    pub fn enable_tx(&mut self) -> (s: Step<SpiE>)
        ensures
            started(old(self)@, final(self)@, s@, seq![RegOp::Strobe(Command::STX)], Finish::Nothing),
    {
        self.strobe(Command::STX)
    }

    /// Command Strobe: Exit RX / TX, turn off frequency synthesizer
    pub fn exit_rx_tx(&mut self) -> (s: Step<SpiE>)
        ensures
            started(old(self)@, final(self)@, s@, seq![RegOp::Strobe(Command::SIDLE)], Finish::Nothing),
    {
        self.strobe(Command::SIDLE)
    }

    /// Command Strobe: Start automatic RX polling sequence (Wake-on-Radio)
    pub fn start_wake_on_radio(&mut self) -> (s: Step<SpiE>)
        ensures
            started(old(self)@, final(self)@, s@, seq![RegOp::Strobe(Command::SWOR)], Finish::Nothing),
    {
        self.strobe(Command::SWOR)
    }

    /// Command Strobe: Enter power down mode when CSn goes high
    pub fn enter_power_down_mode(&mut self) -> (s: Step<SpiE>)
        ensures
            started(old(self)@, final(self)@, s@, seq![RegOp::Strobe(Command::SPWD)], Finish::Nothing),
    {
        self.strobe(Command::SPWD)
    }

    /// Command Strobe: Flush the RX FIFO buffer
    pub fn flush_rx_fifo_buffer(&mut self) -> (s: Step<SpiE>)
        ensures
            started(old(self)@, final(self)@, s@, seq![RegOp::Strobe(Command::SFRX)], Finish::Nothing),
    {
        self.strobe(Command::SFRX)
    }

    /// Command Strobe: Flush the TX FIFO buffer
    pub fn flush_tx_fifo_buffer(&mut self) -> (s: Step<SpiE>)
        ensures
            started(old(self)@, final(self)@, s@, seq![RegOp::Strobe(Command::SFTX)], Finish::Nothing),
    {
        self.strobe(Command::SFTX)
    }

    /// Command Strobe: Reset real time clock to Event1 value
    pub fn reset_rtc_to_event1(&mut self) -> (s: Step<SpiE>)
        ensures
            started(old(self)@, final(self)@, s@, seq![RegOp::Strobe(Command::SWORRST)], Finish::Nothing),
    {
        self.strobe(Command::SWORRST)
    }

    /// Command Strobe: No operation. May be used to get access to the chip status byte
    pub fn no_operation(&mut self) -> (s: Step<SpiE>)
        ensures
            started(old(self)@, final(self)@, s@, seq![RegOp::Strobe(Command::SNOP)], Finish::Nothing),
    {
        self.strobe(Command::SNOP)
    }

    /// Sets the target value for the averaged amplitude from the digital channel filter.
    pub fn set_magn_target(&mut self, target: TargetAmplitude) -> (s: Step<SpiE>)
        ensures
            started(
                old(self)@,
                final(self)@,
                s@,
                seq![RegOp::Modify(Config::AGCCTRL2, Update::of(Field::MagnTarget, target.spec_value()))],
                Finish::Nothing,
            ),
    {
        self.modify(Config::AGCCTRL2, Update::field(Field::MagnTarget, target.value()))
    }

    /// Sets the filter length (in FSK/MSK mode) or decision boundary (in OOK/ASK mode) for the AGC.
    pub fn set_filter_length(&mut self, filter_length: FilterLength) -> (s: Step<SpiE>)
        ensures
            started(
                old(self)@,
                final(self)@,
                s@,
                seq![RegOp::Modify(Config::AGCCTRL0, Update::of(Field::FilterLength, filter_length.spec_value()))],
                Finish::Nothing,
            ),
    {
        self.modify(Config::AGCCTRL0, Update::field(Field::FilterLength, filter_length.value()))
    }

    /// Configures when to run automatic calibration.
    pub fn set_autocalibration(&mut self, autocal: AutoCalibration) -> (s: Step<SpiE>)
        ensures
            started(
                old(self)@,
                final(self)@,
                s@,
                seq![RegOp::Modify(Config::MCSM0, Update::of(Field::FsAutocal, autocal.spec_value()))],
                Finish::Nothing,
            ),
    {
        self.modify(Config::MCSM0, Update::field(Field::FsAutocal, autocal.value()))
    }

    /// Enable Forward Error Correction (FEC) with interleaving for packet payload
    pub fn fec_enable(&mut self, enable: bool) -> (s: Step<SpiE>)
        ensures
            started(
                old(self)@,
                final(self)@,
                s@,
                seq![RegOp::Modify(Config::MDMCFG1, Update::of(Field::FecEn, bit(enable)))],
                Finish::Nothing,
            ),
    {
        self.modify(Config::MDMCFG1, Update::field(Field::FecEn, bit_of(enable)))
    }

    /// Sets the minimum number of preamble bytes to be transmitted
    pub fn set_num_preamble(&mut self, num_preamble: NumPreamble) -> (s: Step<SpiE>)
        ensures
            started(
                old(self)@,
                final(self)@,
                s@,
                seq![RegOp::Modify(Config::MDMCFG1, Update::of(Field::NumPreamble, num_preamble.spec_value()))],
                Finish::Nothing,
            ),
    {
        self.modify(Config::MDMCFG1, Update::field(Field::NumPreamble, num_preamble.value()))
    }

    /// Selects CCA_MODE; Reflected in CCA signal.
    pub fn set_cca_mode(&mut self, cca_mode: CcaMode) -> (s: Step<SpiE>)
        ensures
            started(
                old(self)@,
                final(self)@,
                s@,
                seq![RegOp::Modify(Config::MCSM1, Update::of(Field::CcaMode, cca_mode.spec_value()))],
                Finish::Nothing,
            ),
    {
        self.modify(Config::MCSM1, Update::field(Field::CcaMode, cca_mode.value()))
    }

    /// Set the modulation format of the radio signal.
    pub fn set_modulation_format(&mut self, mod_format: ModulationFormat) -> (s: Step<SpiE>)
        ensures
            started(
                old(self)@,
                final(self)@,
                s@,
                seq![RegOp::Modify(Config::MDMCFG2, Update::of(Field::ModFormat, mod_format.spec_format().spec_value()))],
                Finish::Nothing,
            ),
    {
        self.modify(Config::MDMCFG2, Update::field(Field::ModFormat, mod_format.format().value()))
    }

    /// Turn data whitening on / off.
    pub fn white_data_enable(&mut self, enable: bool) -> (s: Step<SpiE>)
        ensures
            started(
                old(self)@,
                final(self)@,
                s@,
                seq![RegOp::Modify(Config::PKTCTRL0, Update::of(Field::WhiteData, bit(enable)))],
                Finish::Nothing,
            ),
    {
        self.modify(Config::PKTCTRL0, Update::field(Field::WhiteData, bit_of(enable)))
    }

    /// Enable CRC calculation in TX and CRC check in RX
    pub fn crc_enable(&mut self, enable: bool) -> (s: Step<SpiE>)
        ensures
            started(
                old(self)@,
                final(self)@,
                s@,
                seq![RegOp::Modify(Config::PKTCTRL0, Update::of(Field::CrcEn, bit(enable)))],
                Finish::Nothing,
            ),
    {
        self.modify(Config::PKTCTRL0, Update::field(Field::CrcEn, bit_of(enable)))
    }

    /// Reads the part number and the version of the chip.
    pub fn get_hw_info(&mut self) -> (s: Step<SpiE>)
        ensures
            started(old(self)@, final(self)@, s@, seq![RegOp::Read(Register::Status(Status::PARTNUM)), RegOp::Read(Register::Status(Status::VERSION))], Finish::HwInfo),
    {
        self.start(vec![RegOp::Read(Register::Status(Status::PARTNUM)), RegOp::Read(Register::Status(Status::VERSION))], Finish::HwInfo)
    }

    /// Received Signal Strength Indicator is an estimate of the signal power level in the chosen channel.
    pub fn get_rssi_dbm(&mut self) -> (s: Step<SpiE>)
        ensures
            started(old(self)@, final(self)@, s@, seq![RegOp::Read(Register::Status(Status::RSSI))], Finish::RssiDbm),
    {
        self.start_one(RegOp::Read(Register::Status(Status::RSSI)), Finish::RssiDbm)
    }

    /// The Link Quality Indicator metric of the current quality of the received signal.
    pub fn get_lqi(&mut self) -> (s: Step<SpiE>)
        ensures
            started(old(self)@, final(self)@, s@, seq![RegOp::Read(Register::Status(Status::LQI))], Finish::Lqi),
    {
        self.start_one(RegOp::Read(Register::Status(Status::LQI)), Finish::Lqi)
    }

    /// Read number of bytes in TX FIFO
    pub fn read_tx_bytes(&mut self) -> (s: Step<SpiE>)
        ensures
            started(old(self)@, final(self)@, s@, seq![RegOp::Read(Register::Status(Status::TXBYTES))], Finish::TxBytes),
    {
        self.start_one(RegOp::Read(Register::Status(Status::TXBYTES)), Finish::TxBytes)
    }

    /// Read number of bytes in RX FIFO
    pub fn read_rx_bytes(&mut self) -> (s: Step<SpiE>)
        ensures
            started(old(self)@, final(self)@, s@, seq![RegOp::Read(Register::Status(Status::RXBYTES))], Finish::RxBytes),
    {
        self.start_one(RegOp::Read(Register::Status(Status::RXBYTES)), Finish::RxBytes)
    }

    /// Read the Machine State
    pub fn read_machine_state(&mut self) -> (s: Step<SpiE>)
        ensures
            started(old(self)@, final(self)@, s@, seq![RegOp::Read(Register::Status(Status::MARCSTATE))], Finish::MachineState),
    {
        self.start_one(RegOp::Read(Register::Status(Status::MARCSTATE)), Finish::MachineState)
    }

    /// Configures raw data to be passed through, without any packet handling: serial data output on GDO0; data whitening and CRC off, fixed packet length, asynchronous serial mode.
    pub fn set_raw_mode(&mut self) -> (s: Step<SpiE>)
        ensures
            started(old(self)@, final(self)@, s@, seq![RegOp::Write(Config::IOCFG0, 0x0d), RegOp::Write(Config::PKTCTRL0, 0x30)], Finish::Nothing),
    {
        self.start(vec![RegOp::Write(Config::IOCFG0, 0x0d), RegOp::Write(Config::PKTCTRL0, 0x30)], Finish::Nothing)
    }

    /// Sets the carrier frequency (in Hertz).
    pub fn set_frequency(&mut self, hz: u64) -> (s: Step<SpiE>)
        ensures
            started(
                old(self)@,
                final(self)@,
                s@,
                seq![
                    RegOp::Write(Config::FREQ0, (frequency_word(hz) % 256) as u8),
                    RegOp::Write(Config::FREQ1, ((frequency_word(hz) / 256) % 256) as u8),
                    RegOp::Write(Config::FREQ2, ((frequency_word(hz) / 65536) % 256) as u8),
                ],
                Finish::Nothing,
            ),
    {
        let (freq0, freq1, freq2) = from_frequency(hz);
        self.start(
            vec![
                RegOp::Write(Config::FREQ0, freq0),
                RegOp::Write(Config::FREQ1, freq1),
                RegOp::Write(Config::FREQ2, freq2),
            ],
            Finish::Nothing,
        )
    }

    /// Sets the frequency synthesizer intermediate frequency (in Hertz).
    pub fn set_freq_if(&mut self, hz: u64) -> (s: Step<SpiE>)
        ensures
            started(
                old(self)@,
                final(self)@,
                s@,
                seq![
                    RegOp::Write(
                        Config::FSCTRL1,
                        Update::of(Field::FreqIf, (((hz * 1024) / (lowlevel::FXOSC as int)) % 256) as u8)
                            .apply_to(Config::FSCTRL1.reset_value()),
                    ),
                ],
                Finish::Nothing,
            ),
    {
        let byte = Update::field(Field::FreqIf, from_freq_if(hz)).apply(Config::FSCTRL1.reset());
        self.start_one(RegOp::Write(Config::FSCTRL1, byte), Finish::Nothing)
    }

    /// Set Modem deviation setting.
    pub fn set_deviation(&mut self, deviation: u64) -> (s: Step<SpiE>)
        ensures
            started(
                old(self)@,
                final(self)@,
                s@,
                seq![
                    RegOp::Write(
                        Config::DEVIATN,
                        Update::of(Field::DeviationE, setting_for(deviation_word(deviation), 8, 7).1 as u8)
                            .apply_to(
                            Update::of(Field::DeviationM, setting_for(deviation_word(deviation), 8, 7).0 as u8)
                                .apply_to(Config::DEVIATN.reset_value()),
                        ),
                    ),
                ],
                Finish::Nothing,
            ),
    {
        let (mantissa, exponent) = from_deviation(deviation);
        let byte = Update::field(Field::DeviationE, exponent).apply(
            Update::field(Field::DeviationM, mantissa).apply(Config::DEVIATN.reset()),
        );
        self.start_one(RegOp::Write(Config::DEVIATN, byte), Finish::Nothing)
    }

    /// Sets the data rate (in bits per second).
    pub fn set_data_rate(&mut self, baud: u64) -> (s: Step<SpiE>)
        ensures
            started(
                old(self)@,
                final(self)@,
                s@,
                seq![
                    RegOp::Modify(
                        Config::MDMCFG4,
                        Update::of(Field::DrateE, setting_for(data_rate_word(baud), 256, 15).1 as u8),
                    ),
                    RegOp::Write(
                        Config::MDMCFG3,
                        Update::of(Field::DrateM, setting_for(data_rate_word(baud), 256, 15).0 as u8)
                            .apply_to(Config::MDMCFG3.reset_value()),
                    ),
                ],
                Finish::Nothing,
            ),
    {
        let (mantissa, exponent) = from_drate(baud);
        let rate_m = Update::field(Field::DrateM, mantissa).apply(Config::MDMCFG3.reset());
        self.start(
            vec![
                RegOp::Modify(Config::MDMCFG4, Update::field(Field::DrateE, exponent)),
                RegOp::Write(Config::MDMCFG3, rate_m),
            ],
            Finish::Nothing,
        )
    }

    /// Sets the channel bandwidth (in Hertz).
    pub fn set_chanbw(&mut self, bandwidth: u64) -> (s: Step<SpiE>)
        requires
            0 < bandwidth,
        ensures
            started(
                old(self)@,
                final(self)@,
                s@,
                seq![
                    RegOp::Modify(
                        Config::MDMCFG4,
                        Update::of(Field::ChanbwM, setting_for(chanbw_word(bandwidth), 4, 3).0 as u8).with(
                            Update::of(Field::ChanbwE, setting_for(chanbw_word(bandwidth), 4, 3).1 as u8),
                        ),
                    ),
                ],
                Finish::Nothing,
            ),
    {
        let (mantissa, exponent) = from_chanbw(bandwidth);
        self.modify(
            Config::MDMCFG4,
            Update::field(Field::ChanbwM, mantissa).and(Field::ChanbwE, exponent),
        )
    }

    /// Configure the sync word to use, and at what level it should be verified.
    pub fn set_sync_mode(&mut self, sync_mode: SyncMode) -> (s: Step<SpiE>)
        ensures
            started(
                old(self)@,
                final(self)@,
                s@,
                seq![
                    RegOp::Modify(Config::MDMCFG2, Update::of(Field::SyncMode, sync_mode.spec_check().spec_value())),
                    RegOp::Write(Config::SYNC1, (sync_word(sync_mode) / 256) as u8),
                    RegOp::Write(Config::SYNC0, (sync_word(sync_mode) % 256) as u8),
                ],
                Finish::Nothing,
            ),
    {
        let reset: u16 = (Config::SYNC1.reset() as u16) << 8u16 | (Config::SYNC0.reset() as u16);
        assert((0xD3u16 << 8u16) | 0x91u16 == 0xD391u16) by (bit_vector);
        let (mode, word) = match sync_mode {
            SyncMode::Disabled => (SyncCheck::DISABLED, reset),
            SyncMode::MatchPartial(word) => (SyncCheck::CHECK_15_16, word),
            SyncMode::MatchPartialRepeated(word) => (SyncCheck::CHECK_30_32, word),
            SyncMode::MatchFull(word) => (SyncCheck::CHECK_16_16, word),
        };
        assert(((word >> 8u16) & 0xffu16) == word / 256 && (word & 0xffu16) == word % 256) by (bit_vector);
        self.start(
            vec![
                RegOp::Modify(Config::MDMCFG2, Update::field(Field::SyncMode, mode.value())),
                RegOp::Write(Config::SYNC1, ((word >> 8u16) & 0xff) as u8),
                RegOp::Write(Config::SYNC0, (word & 0xff) as u8),
            ],
            Finish::Nothing,
        )
    }

    /// Configure device address, and address filtering.
    pub fn set_address_filter(&mut self, filter: AddressFilter) -> (s: Step<SpiE>)
        ensures
            started(
                old(self)@,
                final(self)@,
                s@,
                seq![
                    RegOp::Modify(Config::PKTCTRL1, Update::of(Field::AdrChk, filter.spec_check().spec_value())),
                    RegOp::Write(Config::ADDR, filter_address(filter)),
                ],
                Finish::Nothing,
            ),
    {
        let (mode, addr) = match filter {
            AddressFilter::Disabled => (AddressCheck::DISABLED, Config::ADDR.reset()),
            AddressFilter::Device(addr) => (AddressCheck::SELF, addr),
            AddressFilter::DeviceLowBroadcast(addr) => (AddressCheck::SELF_LOW_BROADCAST, addr),
            AddressFilter::DeviceHighLowBroadcast(addr) => (AddressCheck::SELF_HIGH_LOW_BROADCAST, addr),
        };
        self.start(
            vec![
                RegOp::Modify(Config::PKTCTRL1, Update::field(Field::AdrChk, mode.value())),
                RegOp::Write(Config::ADDR, addr),
            ],
            Finish::Nothing,
        )
    }

    /// Configure packet mode, and length.
    pub fn set_packet_length(&mut self, length: PacketLength) -> (s: Step<SpiE>)
        ensures
            started(
                old(self)@,
                final(self)@,
                s@,
                seq![
                    RegOp::Modify(Config::PKTCTRL0, Update::of(Field::LengthConfig, length.spec_config().spec_value())),
                    RegOp::Write(Config::PKTLEN, packet_length_limit(length)),
                ],
                Finish::Nothing,
            ),
    {
        let (format, pktlen) = match length {
            PacketLength::Fixed(limit) => (LengthConfig::FIXED, limit),
            PacketLength::Variable(max_limit) => (LengthConfig::VARIABLE, max_limit),
            PacketLength::Infinite => (LengthConfig::INFINITE, Config::PKTLEN.reset()),
        };
        self.start(
            vec![
                RegOp::Modify(Config::PKTCTRL0, Update::field(Field::LengthConfig, format.value())),
                RegOp::Write(Config::PKTLEN, pktlen),
            ],
            Finish::Nothing,
        )
    }

    /// Configure some default settings: reset the chip, turn data whitening
    /// off, set an intermediate frequency of 203125 Hz, turn the DC blocking
    /// filter off, calibrate when leaving IDLE, and cap the LNA gain.
    pub fn set_defaults(&mut self) -> (s: Step<SpiE>)
        ensures
            started(
                old(self)@,
                final(self)@,
                s@,
                seq![
                    RegOp::Strobe(Command::SRES),
                    RegOp::Write(Config::PKTCTRL0, Update::of(Field::WhiteData, 0).apply_to(Config::PKTCTRL0.reset_value())),
                    RegOp::Write(Config::FSCTRL1, Update::of(Field::FreqIf, 8).apply_to(Config::FSCTRL1.reset_value())),
                    RegOp::Write(Config::MDMCFG2, Update::of(Field::DemDcfiltOff, 1).apply_to(Config::MDMCFG2.reset_value())),
                    RegOp::Modify(Config::MCSM0, Update::of(Field::FsAutocal, AutoCalibration::FromIdle.spec_value())),
                    RegOp::Write(Config::AGCCTRL2, Update::of(Field::MaxLnaGain, 0x04).apply_to(Config::AGCCTRL2.reset_value())),
                ],
                Finish::Nothing,
            ),
    {
        let freq_if = from_freq_if(203_125);
        let pktctrl0 = Update::field(Field::WhiteData, 0).apply(Config::PKTCTRL0.reset());
        let fsctrl1 = Update::field(Field::FreqIf, freq_if).apply(Config::FSCTRL1.reset());
        let mdmcfg2 = Update::field(Field::DemDcfiltOff, 1).apply(Config::MDMCFG2.reset());
        let agcctrl2 = Update::field(Field::MaxLnaGain, 0x04).apply(Config::AGCCTRL2.reset());
        self.start(
            vec![
                RegOp::Strobe(Command::SRES),
                RegOp::Write(Config::PKTCTRL0, pktctrl0),
                RegOp::Write(Config::FSCTRL1, fsctrl1),
                RegOp::Write(Config::MDMCFG2, mdmcfg2),
                RegOp::Modify(Config::MCSM0, Update::field(Field::FsAutocal, AutoCalibration::FromIdle.value())),
                RegOp::Write(Config::AGCCTRL2, agcctrl2),
            ],
            Finish::Nothing,
        )
    }

    /// Set radio in Idle/Sleep/Calibrate/Transmit/Receive mode: exit RX / TX
    /// and wait for IDLE, then issue the mode's strobe and wait for its state.
    pub fn set_radio_mode(&mut self, radio_mode: RadioMode) -> (s: Step<SpiE>)
        ensures
            started(old(self)@, final(self)@, s@, radio_mode_ops(radio_mode), Finish::Nothing),
    {
        let mut ops = vec![RegOp::Strobe(Command::SIDLE), RegOp::AwaitState(MachineState::IDLE)];
        match radio_mode {
            RadioMode::Idle => {},
            RadioMode::Sleep => {
                ops.push(RegOp::Strobe(Command::SPWD));
                ops.push(RegOp::AwaitState(MachineState::SLEEP));
            },
            RadioMode::Calibrate => {
                ops.push(RegOp::Strobe(Command::SCAL));
                ops.push(RegOp::AwaitState(MachineState::MANCAL));
            },
            RadioMode::Transmit => {
                ops.push(RegOp::Strobe(Command::STX));
                ops.push(RegOp::AwaitState(MachineState::TX));
            },
            RadioMode::Receive => {
                ops.push(RegOp::Strobe(Command::SRX));
                ops.push(RegOp::AwaitState(MachineState::RX));
            },
        }
        proof {
            assert(ops@ =~= radio_mode_ops(radio_mode));
        }
        self.start(ops, Finish::Nothing)
    }

    /// Receives a packet: waits until the number of bytes in the RX FIFO
    /// settles, reads the packet (the length and address bytes come back
    /// through [`Cc1101::received_header`], the payload in the caller's
    /// buffer), reads LQI, waits for IDLE, flushes the RX FIFO, and returns
    /// the length if the CRC was OK. If waiting for the bytes fails, the RX
    /// FIFO is flushed before the error is returned.
    pub fn receive(&mut self) -> (s: Step<SpiE>)
        ensures
            started(old(self)@, final(self)@, s@, laws::receive_ops(), Finish::Packet),
    {
        self.start(
            vec![
                RegOp::AwaitRxBytes,
                RegOp::ReadFifo,
                RegOp::Read(Register::Status(Status::LQI)),
                RegOp::AwaitState(MachineState::IDLE),
                RegOp::Strobe(Command::SFRX),
            ],
            Finish::Packet,
        )
    }
}

} // verus!
