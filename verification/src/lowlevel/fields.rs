//! Bit fields of the configuration registers, and updates that set them.
use vstd::prelude::*;

use super::registers::Config;

verus! {

/// A bit field of a configuration register: `width` bits starting at bit `offset`.
#[derive(Clone, Copy, PartialEq, Eq, Structural, Debug)]
pub enum Field {
    /// FSCTRL1[4:0]: Intermediate frequency
    FreqIf,
    /// AGCCTRL2[7:6]: Reduces the maximum allowable DVGA gain
    MaxDvgaGain,
    /// AGCCTRL2[5:3]: Maximum allowable LNA + LNA 2 gain relative to the maximum possible gain
    MaxLnaGain,
    /// AGCCTRL2[2:0]: Target value for the averaged amplitude from the digital channel filter
    MagnTarget,
    /// AGCCTRL0[7:6]: Level of hysteresis on the magnitude deviation
    HystLevel,
    /// AGCCTRL0[5:4]: Number of channel filter samples to wait after a gain adjustment
    WaitTime,
    /// AGCCTRL0[3:2]: When the AGC gain is frozen
    AgcFreeze,
    /// AGCCTRL0[1:0]: Averaging length (FSK/MSK) or decision boundary (OOK/ASK)
    FilterLength,
    /// MCSM0[5:4]: When to calibrate the frequency synthesizer automatically
    FsAutocal,
    /// MCSM0[3:2]: Expire count of the timeout after the XOSC has stabilised
    PoTimeout,
    /// MCSM0[1:1]: Enables the pin radio control option
    PinCtrlEn,
    /// MCSM0[0:0]: Force the XOSC to stay on in the SLEEP state
    XoscForceOn,
    /// DEVIATN[6:4]: Deviation exponent
    DeviationE,
    /// DEVIATN[2:0]: Deviation mantissa
    DeviationM,
    /// MDMCFG4[7:6]: Channel bandwidth exponent
    ChanbwE,
    /// MDMCFG4[5:4]: Channel bandwidth mantissa
    ChanbwM,
    /// MDMCFG4[3:0]: Data rate exponent
    DrateE,
    /// MDMCFG3[7:0]: Data rate mantissa
    DrateM,
    /// MDMCFG2[7:7]: Disables the digital DC blocking filter
    DemDcfiltOff,
    /// MDMCFG2[6:4]: Modulation format
    ModFormat,
    /// MDMCFG2[3:3]: Enables Manchester encoding and decoding
    ManchesterEn,
    /// MDMCFG2[2:0]: Sync word qualifier mode
    SyncMode,
    /// MDMCFG1[7:7]: Enables Forward Error Correction
    FecEn,
    /// MDMCFG1[6:4]: Minimum number of preamble bytes to transmit
    NumPreamble,
    /// MDMCFG1[1:0]: Channel spacing exponent
    ChanspcE,
    /// MCSM1[5:4]: Clear channel indication mode
    CcaMode,
    /// MCSM1[3:2]: State to enter when a packet has been received
    RxoffMode,
    /// MCSM1[1:0]: State to enter when a packet has been sent
    TxoffMode,
    /// PKTCTRL1[7:5]: Preamble quality estimator threshold
    Pqt,
    /// PKTCTRL1[3:3]: Flush the RX FIFO when the CRC is not OK
    CrcAutoflush,
    /// PKTCTRL1[2:2]: Append two status bytes to the payload
    AppendStatus,
    /// PKTCTRL1[1:0]: Address check configuration
    AdrChk,
    /// PKTCTRL0[6:6]: Turns data whitening on / off
    WhiteData,
    /// PKTCTRL0[5:4]: Format of RX and TX data
    PktFormat,
    /// PKTCTRL0[2:2]: CRC calculation in TX and CRC check in RX
    CrcEn,
    /// PKTCTRL0[1:0]: Packet length configuration
    LengthConfig,
}

impl Field {
    /// The register that holds the field.
    pub open spec fn register(self) -> Config {
        match self {
            Field::FreqIf => Config::FSCTRL1,
            Field::MaxDvgaGain => Config::AGCCTRL2,
            Field::MaxLnaGain => Config::AGCCTRL2,
            Field::MagnTarget => Config::AGCCTRL2,
            Field::HystLevel => Config::AGCCTRL0,
            Field::WaitTime => Config::AGCCTRL0,
            Field::AgcFreeze => Config::AGCCTRL0,
            Field::FilterLength => Config::AGCCTRL0,
            Field::FsAutocal => Config::MCSM0,
            Field::PoTimeout => Config::MCSM0,
            Field::PinCtrlEn => Config::MCSM0,
            Field::XoscForceOn => Config::MCSM0,
            Field::DeviationE => Config::DEVIATN,
            Field::DeviationM => Config::DEVIATN,
            Field::ChanbwE => Config::MDMCFG4,
            Field::ChanbwM => Config::MDMCFG4,
            Field::DrateE => Config::MDMCFG4,
            Field::DrateM => Config::MDMCFG3,
            Field::DemDcfiltOff => Config::MDMCFG2,
            Field::ModFormat => Config::MDMCFG2,
            Field::ManchesterEn => Config::MDMCFG2,
            Field::SyncMode => Config::MDMCFG2,
            Field::FecEn => Config::MDMCFG1,
            Field::NumPreamble => Config::MDMCFG1,
            Field::ChanspcE => Config::MDMCFG1,
            Field::CcaMode => Config::MCSM1,
            Field::RxoffMode => Config::MCSM1,
            Field::TxoffMode => Config::MCSM1,
            Field::Pqt => Config::PKTCTRL1,
            Field::CrcAutoflush => Config::PKTCTRL1,
            Field::AppendStatus => Config::PKTCTRL1,
            Field::AdrChk => Config::PKTCTRL1,
            Field::WhiteData => Config::PKTCTRL0,
            Field::PktFormat => Config::PKTCTRL0,
            Field::CrcEn => Config::PKTCTRL0,
            Field::LengthConfig => Config::PKTCTRL0,
        }
    }

    /// Position of the lowest bit of the field.
    pub open spec fn offset(self) -> u8 {
        match self {
            Field::FreqIf => 0,
            Field::MaxDvgaGain => 6,
            Field::MaxLnaGain => 3,
            Field::MagnTarget => 0,
            Field::HystLevel => 6,
            Field::WaitTime => 4,
            Field::AgcFreeze => 2,
            Field::FilterLength => 0,
            Field::FsAutocal => 4,
            Field::PoTimeout => 2,
            Field::PinCtrlEn => 1,
            Field::XoscForceOn => 0,
            Field::DeviationE => 4,
            Field::DeviationM => 0,
            Field::ChanbwE => 6,
            Field::ChanbwM => 4,
            Field::DrateE => 0,
            Field::DrateM => 0,
            Field::DemDcfiltOff => 7,
            Field::ModFormat => 4,
            Field::ManchesterEn => 3,
            Field::SyncMode => 0,
            Field::FecEn => 7,
            Field::NumPreamble => 4,
            Field::ChanspcE => 0,
            Field::CcaMode => 4,
            Field::RxoffMode => 2,
            Field::TxoffMode => 0,
            Field::Pqt => 5,
            Field::CrcAutoflush => 3,
            Field::AppendStatus => 2,
            Field::AdrChk => 0,
            Field::WhiteData => 6,
            Field::PktFormat => 4,
            Field::CrcEn => 2,
            Field::LengthConfig => 0,
        }
    }

    /// Number of bits of the field.
    pub open spec fn width(self) -> u8 {
        match self {
            Field::FreqIf => 5,
            Field::MaxDvgaGain => 2,
            Field::MaxLnaGain => 3,
            Field::MagnTarget => 3,
            Field::HystLevel => 2,
            Field::WaitTime => 2,
            Field::AgcFreeze => 2,
            Field::FilterLength => 2,
            Field::FsAutocal => 2,
            Field::PoTimeout => 2,
            Field::PinCtrlEn => 1,
            Field::XoscForceOn => 1,
            Field::DeviationE => 3,
            Field::DeviationM => 3,
            Field::ChanbwE => 2,
            Field::ChanbwM => 2,
            Field::DrateE => 4,
            Field::DrateM => 8,
            Field::DemDcfiltOff => 1,
            Field::ModFormat => 3,
            Field::ManchesterEn => 1,
            Field::SyncMode => 3,
            Field::FecEn => 1,
            Field::NumPreamble => 3,
            Field::ChanspcE => 2,
            Field::CcaMode => 2,
            Field::RxoffMode => 2,
            Field::TxoffMode => 2,
            Field::Pqt => 3,
            Field::CrcAutoflush => 1,
            Field::AppendStatus => 1,
            Field::AdrChk => 2,
            Field::WhiteData => 1,
            Field::PktFormat => 2,
            Field::CrcEn => 1,
            Field::LengthConfig => 2,
        }
    }

    /// The low `width` bits set: the largest value the field holds.
    pub open spec fn mask(self) -> u8 {
        0xffu8 >> ((8 - self.width()) as u8)
    }

    /// The bits of a register byte that belong to the field.
    pub open spec fn placed_mask(self) -> u8 {
        (self.mask() << self.offset()) as u8
    }

    /// The value of the field in a register byte.
    pub open spec fn get(self, bits: u8) -> u8 {
        (bits >> self.offset()) & self.mask()
    }

    #[verifier::when_used_as_spec(register)]
    pub fn reg(self) -> (r: Config)
        ensures
            r == self.register(),
    {
        match self {
            Field::FreqIf => Config::FSCTRL1,
            Field::MaxDvgaGain => Config::AGCCTRL2,
            Field::MaxLnaGain => Config::AGCCTRL2,
            Field::MagnTarget => Config::AGCCTRL2,
            Field::HystLevel => Config::AGCCTRL0,
            Field::WaitTime => Config::AGCCTRL0,
            Field::AgcFreeze => Config::AGCCTRL0,
            Field::FilterLength => Config::AGCCTRL0,
            Field::FsAutocal => Config::MCSM0,
            Field::PoTimeout => Config::MCSM0,
            Field::PinCtrlEn => Config::MCSM0,
            Field::XoscForceOn => Config::MCSM0,
            Field::DeviationE => Config::DEVIATN,
            Field::DeviationM => Config::DEVIATN,
            Field::ChanbwE => Config::MDMCFG4,
            Field::ChanbwM => Config::MDMCFG4,
            Field::DrateE => Config::MDMCFG4,
            Field::DrateM => Config::MDMCFG3,
            Field::DemDcfiltOff => Config::MDMCFG2,
            Field::ModFormat => Config::MDMCFG2,
            Field::ManchesterEn => Config::MDMCFG2,
            Field::SyncMode => Config::MDMCFG2,
            Field::FecEn => Config::MDMCFG1,
            Field::NumPreamble => Config::MDMCFG1,
            Field::ChanspcE => Config::MDMCFG1,
            Field::CcaMode => Config::MCSM1,
            Field::RxoffMode => Config::MCSM1,
            Field::TxoffMode => Config::MCSM1,
            Field::Pqt => Config::PKTCTRL1,
            Field::CrcAutoflush => Config::PKTCTRL1,
            Field::AppendStatus => Config::PKTCTRL1,
            Field::AdrChk => Config::PKTCTRL1,
            Field::WhiteData => Config::PKTCTRL0,
            Field::PktFormat => Config::PKTCTRL0,
            Field::CrcEn => Config::PKTCTRL0,
            Field::LengthConfig => Config::PKTCTRL0,
        }
    }

    #[verifier::when_used_as_spec(offset)]
    pub fn off(self) -> (o: u8)
        ensures
            o == self.offset(),
    {
        match self {
            Field::FreqIf => 0,
            Field::MaxDvgaGain => 6,
            Field::MaxLnaGain => 3,
            Field::MagnTarget => 0,
            Field::HystLevel => 6,
            Field::WaitTime => 4,
            Field::AgcFreeze => 2,
            Field::FilterLength => 0,
            Field::FsAutocal => 4,
            Field::PoTimeout => 2,
            Field::PinCtrlEn => 1,
            Field::XoscForceOn => 0,
            Field::DeviationE => 4,
            Field::DeviationM => 0,
            Field::ChanbwE => 6,
            Field::ChanbwM => 4,
            Field::DrateE => 0,
            Field::DrateM => 0,
            Field::DemDcfiltOff => 7,
            Field::ModFormat => 4,
            Field::ManchesterEn => 3,
            Field::SyncMode => 0,
            Field::FecEn => 7,
            Field::NumPreamble => 4,
            Field::ChanspcE => 0,
            Field::CcaMode => 4,
            Field::RxoffMode => 2,
            Field::TxoffMode => 0,
            Field::Pqt => 5,
            Field::CrcAutoflush => 3,
            Field::AppendStatus => 2,
            Field::AdrChk => 0,
            Field::WhiteData => 6,
            Field::PktFormat => 4,
            Field::CrcEn => 2,
            Field::LengthConfig => 0,
        }
    }

    #[verifier::when_used_as_spec(width)]
    pub fn bit_width(self) -> (w: u8)
        ensures
            w == self.width(),
    {
        match self {
            Field::FreqIf => 5,
            Field::MaxDvgaGain => 2,
            Field::MaxLnaGain => 3,
            Field::MagnTarget => 3,
            Field::HystLevel => 2,
            Field::WaitTime => 2,
            Field::AgcFreeze => 2,
            Field::FilterLength => 2,
            Field::FsAutocal => 2,
            Field::PoTimeout => 2,
            Field::PinCtrlEn => 1,
            Field::XoscForceOn => 1,
            Field::DeviationE => 3,
            Field::DeviationM => 3,
            Field::ChanbwE => 2,
            Field::ChanbwM => 2,
            Field::DrateE => 4,
            Field::DrateM => 8,
            Field::DemDcfiltOff => 1,
            Field::ModFormat => 3,
            Field::ManchesterEn => 1,
            Field::SyncMode => 3,
            Field::FecEn => 1,
            Field::NumPreamble => 3,
            Field::ChanspcE => 2,
            Field::CcaMode => 2,
            Field::RxoffMode => 2,
            Field::TxoffMode => 2,
            Field::Pqt => 3,
            Field::CrcAutoflush => 1,
            Field::AppendStatus => 1,
            Field::AdrChk => 2,
            Field::WhiteData => 1,
            Field::PktFormat => 2,
            Field::CrcEn => 1,
            Field::LengthConfig => 2,
        }
    }

    /// The value of the field in a register byte.
    pub fn read(self, bits: u8) -> (v: u8)
        ensures
            v == self.get(bits),
    {
        let w = self.bit_width();
        let o = self.off();
        (bits >> o) & (0xffu8 >> (8 - w))
    }
}

/// A change of some bits of a register byte: the bits in `mask` take the
/// corresponding bits of `value`, the others keep theirs.
#[derive(Clone, Copy, PartialEq, Eq, Structural, Debug)]
pub struct Update {
    pub mask: u8,
    pub value: u8,
}

impl Update {
    /// The update that sets `field` to `v`, of which only the low `width` bits count.
    pub open spec fn of(field: Field, v: u8) -> Update {
        Update { mask: field.placed_mask(), value: (((v & field.mask()) as u8) << field.offset()) as u8 }
    }

    /// Both updates at once.
    pub open spec fn with(self, other: Update) -> Update {
        Update { mask: self.mask | other.mask, value: self.value | other.value }
    }

    /// The register byte after the update.
    pub open spec fn apply_to(self, bits: u8) -> u8 {
        (bits & !self.mask) | (self.value & self.mask)
    }

    /// The update that sets `field` to `v`.
    pub fn field(field: Field, v: u8) -> (u: Update)
        ensures
            u == Update::of(field, v),
    {
        let w = field.bit_width();
        let o = field.off();
        let m: u8 = 0xffu8 >> (8 - w);
        Update { mask: m << o, value: (v & m) << o }
    }

    /// This update and the one that sets `field` to `v`.
    pub fn and(self, field: Field, v: u8) -> (u: Update)
        ensures
            u == self.with(Update::of(field, v)),
    {
        let other = Update::field(field, v);
        Update { mask: self.mask | other.mask, value: self.value | other.value }
    }

    /// The register byte after the update.
    pub fn apply(self, bits: u8) -> (r: u8)
        ensures
            r == self.apply_to(bits),
    {
        (bits & !self.mask) | (self.value & self.mask)
    }
}

/// Reading a field back after setting it gives the value it was set to, cut
/// to the field's width; the bits outside the field keep their value.
pub proof fn lemma_update_field(field: Field, v: u8, bits: u8)
    ensures
        field.get(Update::of(field, v).apply_to(bits)) == v & field.mask(),
        Update::of(field, v).apply_to(bits) & !field.placed_mask() == bits & !field.placed_mask(),
{
    let o = field.offset();
    let w = field.width();
    assert(1 <= w && o + w <= 8);
    lemma_field_bits(o, w, v, bits);
}

/// Two updates of disjoint fields: each field reads back the value it was set to.
pub proof fn lemma_update_two_fields(f1: Field, v1: u8, f2: Field, v2: u8, bits: u8)
    requires
        f1.placed_mask() & f2.placed_mask() == 0,
    ensures
        f1.get(Update::of(f1, v1).with(Update::of(f2, v2)).apply_to(bits)) == v1 & f1.mask(),
        f2.get(Update::of(f1, v1).with(Update::of(f2, v2)).apply_to(bits)) == v2 & f2.mask(),
        Update::of(f1, v1).with(Update::of(f2, v2)).apply_to(bits) & !(f1.placed_mask() | f2.placed_mask())
            == bits & !(f1.placed_mask() | f2.placed_mask()),
{
    let (o1, w1, o2, w2) = (f1.offset(), f1.width(), f2.offset(), f2.width());
    assert(1 <= w1 && o1 + w1 <= 8);
    assert(1 <= w2 && o2 + w2 <= 8);
    lemma_two_field_bits(o1, w1, v1, o2, w2, v2, bits);
}

proof fn lemma_field_bits(o: u8, w: u8, v: u8, bits: u8)
    requires
        1 <= w,
        o + w <= 8,
    ensures
        ({
            let m: u8 = 0xffu8 >> ((8 - w) as u8);
            let pm: u8 = (m << o) as u8;
            let val: u8 = (((v & m) as u8) << o) as u8;
            let r: u8 = (bits & !pm) | (val & pm);
            &&& (r >> o) & m == v & m
            &&& r & !pm == bits & !pm
        }),
{
    assert({
        let m: u8 = 0xffu8 >> ((8 - w) as u8);
        let pm: u8 = (m << o) as u8;
        let val: u8 = (((v & m) as u8) << o) as u8;
        let r: u8 = (bits & !pm) | (val & pm);
        &&& (r >> o) & m == v & m
        &&& r & !pm == bits & !pm
    }) by (bit_vector)
        requires
            1 <= w,
            o + w <= 8,
    ;
}

proof fn lemma_two_field_bits(o1: u8, w1: u8, v1: u8, o2: u8, w2: u8, v2: u8, bits: u8)
    requires
        1 <= w1,
        o1 + w1 <= 8,
        1 <= w2,
        o2 + w2 <= 8,
        ((0xffu8 >> ((8 - w1) as u8)) << o1) as u8 & ((0xffu8 >> ((8 - w2) as u8)) << o2) as u8 == 0,
    ensures
        ({
            let m1: u8 = 0xffu8 >> ((8 - w1) as u8);
            let pm1: u8 = (m1 << o1) as u8;
            let val1: u8 = (((v1 & m1) as u8) << o1) as u8;
            let m2: u8 = 0xffu8 >> ((8 - w2) as u8);
            let pm2: u8 = (m2 << o2) as u8;
            let val2: u8 = (((v2 & m2) as u8) << o2) as u8;
            let r: u8 = (bits & !(pm1 | pm2)) | ((val1 | val2) & (pm1 | pm2));
            &&& (r >> o1) & m1 == v1 & m1
            &&& (r >> o2) & m2 == v2 & m2
            &&& r & !(pm1 | pm2) == bits & !(pm1 | pm2)
        }),
{
    assert({
        let m1: u8 = 0xffu8 >> ((8 - w1) as u8);
        let pm1: u8 = (m1 << o1) as u8;
        let val1: u8 = (((v1 & m1) as u8) << o1) as u8;
        let m2: u8 = 0xffu8 >> ((8 - w2) as u8);
        let pm2: u8 = (m2 << o2) as u8;
        let val2: u8 = (((v2 & m2) as u8) << o2) as u8;
        let r: u8 = (bits & !(pm1 | pm2)) | ((val1 | val2) & (pm1 | pm2));
        &&& (r >> o1) & m1 == v1 & m1
        &&& (r >> o2) & m2 == v2 & m2
        &&& r & !(pm1 | pm2) == bits & !(pm1 | pm2)
    }) by (bit_vector)
        requires
            1 <= w1,
            o1 + w1 <= 8,
            1 <= w2,
            o2 + w2 <= 8,
            ((0xffu8 >> ((8 - w1) as u8)) << o1) as u8 & ((0xffu8 >> ((8 - w2) as u8)) << o2) as u8 == 0,
    ;
}

} // verus!
