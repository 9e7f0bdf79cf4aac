//! The register map of the CC1101: configuration registers, status registers,
//! command strobes and the multi-byte registers, with their header bytes.
use vstd::prelude::*;

use super::access::{Access, Mode};

verus! {

/// Configuration registers (read/write).
#[allow(non_camel_case_types)]
#[derive(Clone, Copy, PartialEq, Eq, Structural, Debug)]
pub enum Config {
    /// GDO2 output pin configuration
    IOCFG2,
    /// GDO1 output pin configuration
    IOCFG1,
    /// GDO0 output pin configuration
    IOCFG0,
    /// RX FIFO and TX FIFO thresholds
    FIFOTHR,
    /// Sync word, high byte
    SYNC1,
    /// Sync word, low byte
    SYNC0,
    /// Packet length
    PKTLEN,
    /// Packet automation control
    PKTCTRL1,
    /// Packet automation control
    PKTCTRL0,
    /// Device address
    ADDR,
    /// Channel number
    CHANNR,
    /// Frequency synthesizer control
    FSCTRL1,
    /// Frequency synthesizer control
    FSCTRL0,
    /// Frequency control word, high byte
    FREQ2,
    /// Frequency control word, middle byte
    FREQ1,
    /// Frequency control word, low byte
    FREQ0,
    /// Modem configuration
    MDMCFG4,
    /// Modem configuration
    MDMCFG3,
    /// Modem configuration
    MDMCFG2,
    /// Modem configuration
    MDMCFG1,
    /// Modem configuration
    MDMCFG0,
    /// Modem deviation setting
    DEVIATN,
    /// Main Radio Control State Machine configuration
    MCSM2,
    /// Main Radio Control State Machine configuration
    MCSM1,
    /// Main Radio Control State Machine configuration
    MCSM0,
    /// Frequency Offset Compensation configuration
    FOCCFG,
    /// Bit Synchronization configuration
    BSCFG,
    /// AGC control
    AGCCTRL2,
    /// AGC control
    AGCCTRL1,
    /// AGC control
    AGCCTRL0,
    /// High byte Event 0 timeout
    WOREVT1,
    /// Low byte Event 0 timeout
    WOREVT0,
    /// Wake On Radio control
    WORCTRL,
    /// Front end RX configuration
    FREND1,
    /// Front end TX configuration
    FREND0,
    /// Frequency synthesizer calibration
    FSCAL3,
    /// Frequency synthesizer calibration
    FSCAL2,
    /// Frequency synthesizer calibration
    FSCAL1,
    /// Frequency synthesizer calibration
    FSCAL0,
    /// RC oscillator configuration
    RCCTRL1,
    /// RC oscillator configuration
    RCCTRL0,
    /// Frequency synthesizer calibration control
    FSTEST,
    /// Production test
    PTEST,
    /// AGC test
    AGCTEST,
    /// Various test settings
    TEST2,
    /// Various test settings
    TEST1,
    /// Various test settings
    TEST0,
}

/// Status registers (read only, always accessed with the burst bit set).
#[allow(non_camel_case_types)]
#[derive(Clone, Copy, PartialEq, Eq, Structural, Debug)]
pub enum Status {
    /// Part number
    PARTNUM,
    /// Current version number
    VERSION,
    /// Frequency offset estimate
    FREQEST,
    /// Demodulator estimate for link quality
    LQI,
    /// Received signal strength indication
    RSSI,
    /// Control state machine state
    MARCSTATE,
    /// High byte of WOR timer
    WORTIME1,
    /// Low byte of WOR timer
    WORTIME0,
    /// Current GDOx status and packet status
    PKTSTATUS,
    /// Current setting from PLL calibration module
    VCO_VC_DAC,
    /// Underflow and number of bytes in the TX FIFO
    TXBYTES,
    /// Overflow and number of bytes in the RX FIFO
    RXBYTES,
    /// Last RC oscillator calibration result
    RCCTRL1_STATUS,
    /// Last RC oscillator calibration result
    RCCTRL0_STATUS,
}

/// Command strobes.
#[allow(non_camel_case_types)]
#[derive(Clone, Copy, PartialEq, Eq, Structural, Debug)]
pub enum Command {
    /// Reset chip
    SRES,
    /// Enable and calibrate frequency synthesizer
    SFSTXON,
    /// Turn off crystal oscillator
    SXOFF,
    /// Calibrate frequency synthesizer and turn it off
    SCAL,
    /// Enable RX
    SRX,
    /// Enable TX
    STX,
    /// Exit RX / TX, turn off frequency synthesizer
    SIDLE,
    /// Start automatic RX polling sequence (Wake-on-Radio)
    SWOR,
    /// Enter power down mode when CSn goes high
    SPWD,
    /// Flush the RX FIFO buffer
    SFRX,
    /// Flush the TX FIFO buffer
    SFTX,
    /// Reset real time clock to Event1 value
    SWORRST,
    /// No operation
    SNOP,
}

/// Registers that are accessed as a sequence of bytes.
#[allow(non_camel_case_types)]
#[derive(Clone, Copy, PartialEq, Eq, Structural, Debug)]
pub enum MultiByte {
    /// Power amplifier table
    PATABLE,
    /// Transmit and receive FIFO
    FIFO,
}

/// Any addressable register or strobe of the chip.
#[derive(Clone, Copy, PartialEq, Eq, Structural, Debug)]
pub enum Register {
    Config(Config),
    Status(Status),
    Command(Command),
    MultiByte(MultiByte),
}

impl Config {
    /// The address of the register, in `0x00..=0x2E`.
    pub open spec fn address(self) -> u8 {
        match self {
            Config::IOCFG2 => 0x00,
            Config::IOCFG1 => 0x01,
            Config::IOCFG0 => 0x02,
            Config::FIFOTHR => 0x03,
            Config::SYNC1 => 0x04,
            Config::SYNC0 => 0x05,
            Config::PKTLEN => 0x06,
            Config::PKTCTRL1 => 0x07,
            Config::PKTCTRL0 => 0x08,
            Config::ADDR => 0x09,
            Config::CHANNR => 0x0A,
            Config::FSCTRL1 => 0x0B,
            Config::FSCTRL0 => 0x0C,
            Config::FREQ2 => 0x0D,
            Config::FREQ1 => 0x0E,
            Config::FREQ0 => 0x0F,
            Config::MDMCFG4 => 0x10,
            Config::MDMCFG3 => 0x11,
            Config::MDMCFG2 => 0x12,
            Config::MDMCFG1 => 0x13,
            Config::MDMCFG0 => 0x14,
            Config::DEVIATN => 0x15,
            Config::MCSM2 => 0x16,
            Config::MCSM1 => 0x17,
            Config::MCSM0 => 0x18,
            Config::FOCCFG => 0x19,
            Config::BSCFG => 0x1A,
            Config::AGCCTRL2 => 0x1B,
            Config::AGCCTRL1 => 0x1C,
            Config::AGCCTRL0 => 0x1D,
            Config::WOREVT1 => 0x1E,
            Config::WOREVT0 => 0x1F,
            Config::WORCTRL => 0x20,
            Config::FREND1 => 0x21,
            Config::FREND0 => 0x22,
            Config::FSCAL3 => 0x23,
            Config::FSCAL2 => 0x24,
            Config::FSCAL1 => 0x25,
            Config::FSCAL0 => 0x26,
            Config::RCCTRL1 => 0x27,
            Config::RCCTRL0 => 0x28,
            Config::FSTEST => 0x29,
            Config::PTEST => 0x2A,
            Config::AGCTEST => 0x2B,
            Config::TEST2 => 0x2C,
            Config::TEST1 => 0x2D,
            Config::TEST0 => 0x2E,
        }
    }

    /// The value that the chip holds in this register after a reset.
    pub open spec fn reset_value(self) -> u8 {
        match self {
            Config::IOCFG2 => 0x29,
            Config::IOCFG1 => 0x2E,
            Config::IOCFG0 => 0x3F,
            Config::FIFOTHR => 0x07,
            Config::SYNC1 => 0xD3,
            Config::SYNC0 => 0x91,
            Config::PKTLEN => 0xFF,
            Config::PKTCTRL1 => 0x04,
            Config::PKTCTRL0 => 0x45,
            Config::ADDR => 0x00,
            Config::CHANNR => 0x00,
            Config::FSCTRL1 => 0x0F,
            Config::FSCTRL0 => 0x00,
            Config::FREQ2 => 0x1E,
            Config::FREQ1 => 0xC4,
            Config::FREQ0 => 0xEC,
            Config::MDMCFG4 => 0x8C,
            Config::MDMCFG3 => 0x22,
            Config::MDMCFG2 => 0x02,
            Config::MDMCFG1 => 0x22,
            Config::MDMCFG0 => 0xF8,
            Config::DEVIATN => 0x47,
            Config::MCSM2 => 0x07,
            Config::MCSM1 => 0x30,
            Config::MCSM0 => 0x04,
            Config::FOCCFG => 0x36,
            Config::BSCFG => 0x6C,
            Config::AGCCTRL2 => 0x03,
            Config::AGCCTRL1 => 0x40,
            Config::AGCCTRL0 => 0x91,
            Config::WOREVT1 => 0x87,
            Config::WOREVT0 => 0x6B,
            Config::WORCTRL => 0xF8,
            Config::FREND1 => 0x56,
            Config::FREND0 => 0x10,
            Config::FSCAL3 => 0xA9,
            Config::FSCAL2 => 0x0A,
            Config::FSCAL1 => 0x20,
            Config::FSCAL0 => 0x0D,
            Config::RCCTRL1 => 0x41,
            Config::RCCTRL0 => 0x00,
            Config::FSTEST => 0x59,
            Config::PTEST => 0x7F,
            Config::AGCTEST => 0x3F,
            Config::TEST2 => 0x88,
            Config::TEST1 => 0x31,
            Config::TEST0 => 0x0B,
        }
    }

    #[verifier::when_used_as_spec(address)]
    pub fn addr(self) -> (a: u8)
        ensures
            a == self.address(),
    {
        match self {
            Config::IOCFG2 => 0x00,
            Config::IOCFG1 => 0x01,
            Config::IOCFG0 => 0x02,
            Config::FIFOTHR => 0x03,
            Config::SYNC1 => 0x04,
            Config::SYNC0 => 0x05,
            Config::PKTLEN => 0x06,
            Config::PKTCTRL1 => 0x07,
            Config::PKTCTRL0 => 0x08,
            Config::ADDR => 0x09,
            Config::CHANNR => 0x0A,
            Config::FSCTRL1 => 0x0B,
            Config::FSCTRL0 => 0x0C,
            Config::FREQ2 => 0x0D,
            Config::FREQ1 => 0x0E,
            Config::FREQ0 => 0x0F,
            Config::MDMCFG4 => 0x10,
            Config::MDMCFG3 => 0x11,
            Config::MDMCFG2 => 0x12,
            Config::MDMCFG1 => 0x13,
            Config::MDMCFG0 => 0x14,
            Config::DEVIATN => 0x15,
            Config::MCSM2 => 0x16,
            Config::MCSM1 => 0x17,
            Config::MCSM0 => 0x18,
            Config::FOCCFG => 0x19,
            Config::BSCFG => 0x1A,
            Config::AGCCTRL2 => 0x1B,
            Config::AGCCTRL1 => 0x1C,
            Config::AGCCTRL0 => 0x1D,
            Config::WOREVT1 => 0x1E,
            Config::WOREVT0 => 0x1F,
            Config::WORCTRL => 0x20,
            Config::FREND1 => 0x21,
            Config::FREND0 => 0x22,
            Config::FSCAL3 => 0x23,
            Config::FSCAL2 => 0x24,
            Config::FSCAL1 => 0x25,
            Config::FSCAL0 => 0x26,
            Config::RCCTRL1 => 0x27,
            Config::RCCTRL0 => 0x28,
            Config::FSTEST => 0x29,
            Config::PTEST => 0x2A,
            Config::AGCTEST => 0x2B,
            Config::TEST2 => 0x2C,
            Config::TEST1 => 0x2D,
            Config::TEST0 => 0x2E,
        }
    }

    /// The value that the chip holds in this register after a reset.
    #[verifier::when_used_as_spec(reset_value)]
    pub fn reset(self) -> (v: u8)
        ensures
            v == self.reset_value(),
    {
        match self {
            Config::IOCFG2 => 0x29,
            Config::IOCFG1 => 0x2E,
            Config::IOCFG0 => 0x3F,
            Config::FIFOTHR => 0x07,
            Config::SYNC1 => 0xD3,
            Config::SYNC0 => 0x91,
            Config::PKTLEN => 0xFF,
            Config::PKTCTRL1 => 0x04,
            Config::PKTCTRL0 => 0x45,
            Config::ADDR => 0x00,
            Config::CHANNR => 0x00,
            Config::FSCTRL1 => 0x0F,
            Config::FSCTRL0 => 0x00,
            Config::FREQ2 => 0x1E,
            Config::FREQ1 => 0xC4,
            Config::FREQ0 => 0xEC,
            Config::MDMCFG4 => 0x8C,
            Config::MDMCFG3 => 0x22,
            Config::MDMCFG2 => 0x02,
            Config::MDMCFG1 => 0x22,
            Config::MDMCFG0 => 0xF8,
            Config::DEVIATN => 0x47,
            Config::MCSM2 => 0x07,
            Config::MCSM1 => 0x30,
            Config::MCSM0 => 0x04,
            Config::FOCCFG => 0x36,
            Config::BSCFG => 0x6C,
            Config::AGCCTRL2 => 0x03,
            Config::AGCCTRL1 => 0x40,
            Config::AGCCTRL0 => 0x91,
            Config::WOREVT1 => 0x87,
            Config::WOREVT0 => 0x6B,
            Config::WORCTRL => 0xF8,
            Config::FREND1 => 0x56,
            Config::FREND0 => 0x10,
            Config::FSCAL3 => 0xA9,
            Config::FSCAL2 => 0x0A,
            Config::FSCAL1 => 0x20,
            Config::FSCAL0 => 0x0D,
            Config::RCCTRL1 => 0x41,
            Config::RCCTRL0 => 0x00,
            Config::FSTEST => 0x59,
            Config::PTEST => 0x7F,
            Config::AGCTEST => 0x3F,
            Config::TEST2 => 0x88,
            Config::TEST1 => 0x31,
            Config::TEST0 => 0x0B,
        }
    }
}

impl Status {
    /// The address of the register, in `0x30..=0x3D`.
    pub open spec fn address(self) -> u8 {
        match self {
            Status::PARTNUM => 0x30,
            Status::VERSION => 0x31,
            Status::FREQEST => 0x32,
            Status::LQI => 0x33,
            Status::RSSI => 0x34,
            Status::MARCSTATE => 0x35,
            Status::WORTIME1 => 0x36,
            Status::WORTIME0 => 0x37,
            Status::PKTSTATUS => 0x38,
            Status::VCO_VC_DAC => 0x39,
            Status::TXBYTES => 0x3A,
            Status::RXBYTES => 0x3B,
            Status::RCCTRL1_STATUS => 0x3C,
            Status::RCCTRL0_STATUS => 0x3D,
        }
    }

    #[verifier::when_used_as_spec(address)]
    pub fn addr(self) -> (a: u8)
        ensures
            a == self.address(),
    {
        match self {
            Status::PARTNUM => 0x30,
            Status::VERSION => 0x31,
            Status::FREQEST => 0x32,
            Status::LQI => 0x33,
            Status::RSSI => 0x34,
            Status::MARCSTATE => 0x35,
            Status::WORTIME1 => 0x36,
            Status::WORTIME0 => 0x37,
            Status::PKTSTATUS => 0x38,
            Status::VCO_VC_DAC => 0x39,
            Status::TXBYTES => 0x3A,
            Status::RXBYTES => 0x3B,
            Status::RCCTRL1_STATUS => 0x3C,
            Status::RCCTRL0_STATUS => 0x3D,
        }
    }
}

impl Command {
    /// The address of the strobe, in `0x30..=0x3D`.
    pub open spec fn address(self) -> u8 {
        match self {
            Command::SRES => 0x30,
            Command::SFSTXON => 0x31,
            Command::SXOFF => 0x32,
            Command::SCAL => 0x33,
            Command::SRX => 0x34,
            Command::STX => 0x35,
            Command::SIDLE => 0x36,
            Command::SWOR => 0x38,
            Command::SPWD => 0x39,
            Command::SFRX => 0x3A,
            Command::SFTX => 0x3B,
            Command::SWORRST => 0x3C,
            Command::SNOP => 0x3D,
        }
    }

    #[verifier::when_used_as_spec(address)]
    pub fn addr(self) -> (a: u8)
        ensures
            a == self.address(),
    {
        match self {
            Command::SRES => 0x30,
            Command::SFSTXON => 0x31,
            Command::SXOFF => 0x32,
            Command::SCAL => 0x33,
            Command::SRX => 0x34,
            Command::STX => 0x35,
            Command::SIDLE => 0x36,
            Command::SWOR => 0x38,
            Command::SPWD => 0x39,
            Command::SFRX => 0x3A,
            Command::SFTX => 0x3B,
            Command::SWORRST => 0x3C,
            Command::SNOP => 0x3D,
        }
    }
}

impl MultiByte {
    pub open spec fn address(self) -> u8 {
        match self {
            MultiByte::PATABLE => 0x3E,
            MultiByte::FIFO => 0x3F,
        }
    }

    #[verifier::when_used_as_spec(address)]
    pub fn addr(self) -> (a: u8)
        ensures
            a == self.address(),
    {
        match self {
            MultiByte::PATABLE => 0x3E,
            MultiByte::FIFO => 0x3F,
        }
    }
}

impl Register {
    /// The six address bits of the register.
    pub open spec fn address(self) -> u8 {
        match self {
            Register::Config(r) => r.address(),
            Register::Status(r) => r.address(),
            Register::Command(r) => r.address(),
            Register::MultiByte(r) => r.address(),
        }
    }

    /// The header byte that starts an access: the R/W bit, the burst bit and
    /// the address. Status registers share their addresses with the command
    /// strobes and are told apart by the burst bit, which is therefore always
    /// set when one of them is named.
    pub open spec fn header(self, access: Access, mode: Mode) -> u8 {
        match self {
            Register::Status(r) => (access.spec_bits() + Mode::Burst.spec_bits() + r.address()) as u8,
            _ => (access.spec_bits() + mode.spec_bits() + self.address()) as u8,
        }
    }

    #[verifier::when_used_as_spec(header)]
    pub fn addr(self, access: Access, mode: Mode) -> (h: u8)
        ensures
            h == self.header(access, mode),
    {
        match self {
            Register::Config(r) => access.bits() + mode.bits() + r.addr(),
            Register::Status(r) => access.bits() + Mode::Burst.bits() + r.addr(),
            Register::Command(r) => access.bits() + mode.bits() + r.addr(),
            Register::MultiByte(r) => access.bits() + mode.bits() + r.addr(),
        }
    }

    /// Header byte of a read access.
    pub fn raddr(self, mode: Mode) -> (h: u8)
        ensures
            h == self.header(Access::Read, mode),
    {
        self.addr(Access::Read, mode)
    }

    /// Header byte of a write access.
    pub fn waddr(self, mode: Mode) -> (h: u8)
        ensures
            h == self.header(Access::Write, mode),
    {
        self.addr(Access::Write, mode)
    }
}

/// The chip status byte, clocked out by the chip while the header byte of
/// every access is clocked in.
#[derive(Clone, Copy, PartialEq, Eq, Structural, Debug)]
pub struct StatusByte {
    pub bits: u8,
}

impl From<u8> for StatusByte {
    fn from(bits: u8) -> (s: StatusByte) {
        StatusByte { bits }
    }
}

impl vstd::std_specs::convert::FromSpecImpl<u8> for StatusByte {
    open spec fn obeys_from_spec() -> bool {
        true
    }

    open spec fn from_spec(bits: u8) -> StatusByte {
        StatusByte { bits }
    }
}

impl From<Config> for Register {
    fn from(r: Config) -> (reg: Register) {
        Register::Config(r)
    }
}

impl vstd::std_specs::convert::FromSpecImpl<Config> for Register {
    open spec fn obeys_from_spec() -> bool {
        true
    }

    open spec fn from_spec(r: Config) -> Register {
        Register::Config(r)
    }
}

impl From<Status> for Register {
    fn from(r: Status) -> (reg: Register) {
        Register::Status(r)
    }
}

impl vstd::std_specs::convert::FromSpecImpl<Status> for Register {
    open spec fn obeys_from_spec() -> bool {
        true
    }

    open spec fn from_spec(r: Status) -> Register {
        Register::Status(r)
    }
}

impl From<Command> for Register {
    fn from(r: Command) -> (reg: Register) {
        Register::Command(r)
    }
}

impl vstd::std_specs::convert::FromSpecImpl<Command> for Register {
    open spec fn obeys_from_spec() -> bool {
        true
    }

    open spec fn from_spec(r: Command) -> Register {
        Register::Command(r)
    }
}

impl From<MultiByte> for Register {
    fn from(r: MultiByte) -> (reg: Register) {
        Register::MultiByte(r)
    }
}

impl vstd::std_specs::convert::FromSpecImpl<MultiByte> for Register {
    open spec fn obeys_from_spec() -> bool {
        true
    }

    open spec fn from_spec(r: MultiByte) -> Register {
        Register::MultiByte(r)
    }
}

impl StatusByte {
    pub fn from_bits(bits: u8) -> (s: StatusByte)
        ensures
            s.bits == bits,
    {
        StatusByte { bits }
    }

    pub fn bits(&self) -> (b: u8)
        ensures
            b == self.bits,
    {
        self.bits
    }

    /// CHIP_RDYn, bit 7: 1 while the crystal oscillator is not yet stable.
    pub fn chip_rdyn(&self) -> (v: u8)
        ensures
            v == self.bits / 128,
    {
        self.bits / 128
    }

    /// STATE, bits 6:4: the main state of the chip.
    pub fn state(&self) -> (v: u8)
        ensures
            v == (self.bits / 16) % 8,
    {
        (self.bits / 16) % 8
    }

    /// FIFO_BYTES_AVAILABLE, bits 3:0: free bytes in the TX FIFO (on a write
    /// access) or bytes in the RX FIFO (on a read access).
    pub fn fifo_bytes_available(&self) -> (v: u8)
        ensures
            v == self.bits % 16,
    {
        self.bits % 16
    }
}

} // verus!
