//! Settings of the radio, as the high level API takes them.
use vstd::prelude::*;

use crate::lowlevel::types::{AddressCheck, LengthConfig, ModFormat, SyncCheck};

verus! {

/// Target value for the averaged amplitude from the digital channel filter (AGCCTRL2.MAGN_TARGET).
#[derive(Clone, Copy, PartialEq, Eq, Structural, Debug)]
pub enum TargetAmplitude {
    /// 24 dB
    Db24,
    /// 27 dB
    Db27,
    /// 30 dB
    Db30,
    /// 33 dB
    Db33,
    /// 36 dB
    Db36,
    /// 38 dB
    Db38,
    /// 40 dB
    Db40,
    /// 42 dB
    Db42,
}

impl TargetAmplitude {
    pub open spec fn spec_value(self) -> u8 {
        match self {
            TargetAmplitude::Db24 => 0,
            TargetAmplitude::Db27 => 1,
            TargetAmplitude::Db30 => 2,
            TargetAmplitude::Db33 => 3,
            TargetAmplitude::Db36 => 4,
            TargetAmplitude::Db38 => 5,
            TargetAmplitude::Db40 => 6,
            TargetAmplitude::Db42 => 7,
        }
    }

    /// The value of MAGN_TARGET.
    #[verifier::when_used_as_spec(spec_value)]
    pub fn value(self) -> (v: u8)
        ensures
            v == self.spec_value(),
    {
        match self {
            TargetAmplitude::Db24 => 0,
            TargetAmplitude::Db27 => 1,
            TargetAmplitude::Db30 => 2,
            TargetAmplitude::Db33 => 3,
            TargetAmplitude::Db36 => 4,
            TargetAmplitude::Db38 => 5,
            TargetAmplitude::Db40 => 6,
            TargetAmplitude::Db42 => 7,
        }
    }
}

/// Channel filter samples averaged by the AGC in FSK/MSK mode, or the OOK/ASK decision boundary (AGCCTRL0.FILTER_LENGTH).
#[derive(Clone, Copy, PartialEq, Eq, Structural, Debug)]
pub enum FilterLength {
    /// 8 samples (4 dB boundary)
    Samples8,
    /// 16 samples (8 dB boundary)
    Samples16,
    /// 32 samples (12 dB boundary)
    Samples32,
    /// 64 samples (16 dB boundary)
    Samples64,
}

impl FilterLength {
    pub open spec fn spec_value(self) -> u8 {
        match self {
            FilterLength::Samples8 => 0,
            FilterLength::Samples16 => 1,
            FilterLength::Samples32 => 2,
            FilterLength::Samples64 => 3,
        }
    }

    /// The value of FILTER_LENGTH.
    #[verifier::when_used_as_spec(spec_value)]
    pub fn value(self) -> (v: u8)
        ensures
            v == self.spec_value(),
    {
        match self {
            FilterLength::Samples8 => 0,
            FilterLength::Samples16 => 1,
            FilterLength::Samples32 => 2,
            FilterLength::Samples64 => 3,
        }
    }
}

/// When the frequency synthesizer is calibrated automatically (MCSM0.FS_AUTOCAL).
#[derive(Clone, Copy, PartialEq, Eq, Structural, Debug)]
pub enum AutoCalibration {
    /// Never (manually calibrate using the SCAL strobe)
    Disabled,
    /// When going from IDLE to RX or TX (or FSTXON)
    FromIdle,
    /// When going from RX or TX back to IDLE automatically
    ToIdle,
    /// Every 4th time when going from RX or TX to IDLE automatically
    ToIdleEvery4th,
}

impl AutoCalibration {
    pub open spec fn spec_value(self) -> u8 {
        match self {
            AutoCalibration::Disabled => 0,
            AutoCalibration::FromIdle => 1,
            AutoCalibration::ToIdle => 2,
            AutoCalibration::ToIdleEvery4th => 3,
        }
    }

    /// The value of FS_AUTOCAL.
    #[verifier::when_used_as_spec(spec_value)]
    pub fn value(self) -> (v: u8)
        ensures
            v == self.spec_value(),
    {
        match self {
            AutoCalibration::Disabled => 0,
            AutoCalibration::FromIdle => 1,
            AutoCalibration::ToIdle => 2,
            AutoCalibration::ToIdleEvery4th => 3,
        }
    }
}

/// Minimum number of preamble bytes to be transmitted (MDMCFG1.NUM_PREAMBLE).
#[derive(Clone, Copy, PartialEq, Eq, Structural, Debug)]
pub enum NumPreamble {
    /// 2 bytes
    Two,
    /// 3 bytes
    Three,
    /// 4 bytes
    Four,
    /// 6 bytes
    Six,
    /// 8 bytes
    Eight,
    /// 12 bytes
    Twelve,
    /// 16 bytes
    Sixteen,
    /// 24 bytes
    TwentyFour,
}

impl NumPreamble {
    pub open spec fn spec_value(self) -> u8 {
        match self {
            NumPreamble::Two => 0,
            NumPreamble::Three => 1,
            NumPreamble::Four => 2,
            NumPreamble::Six => 3,
            NumPreamble::Eight => 4,
            NumPreamble::Twelve => 5,
            NumPreamble::Sixteen => 6,
            NumPreamble::TwentyFour => 7,
        }
    }

    /// The value of NUM_PREAMBLE.
    #[verifier::when_used_as_spec(spec_value)]
    pub fn value(self) -> (v: u8)
        ensures
            v == self.spec_value(),
    {
        match self {
            NumPreamble::Two => 0,
            NumPreamble::Three => 1,
            NumPreamble::Four => 2,
            NumPreamble::Six => 3,
            NumPreamble::Eight => 4,
            NumPreamble::Twelve => 5,
            NumPreamble::Sixteen => 6,
            NumPreamble::TwentyFour => 7,
        }
    }
}

/// Clear channel indication mode (MCSM1.CCA_MODE).
#[derive(Clone, Copy, PartialEq, Eq, Structural, Debug)]
pub enum CcaMode {
    /// Always
    CciAlways,
    /// If RSSI below threshold
    CciRssiBelowThreshold,
    /// Unless currently receiving a packet
    CciRcvPacket,
    /// If RSSI below threshold unless currently receiving a packet
    CciRssiBelowThresholdRcvPacket,
}

impl CcaMode {
    pub open spec fn spec_value(self) -> u8 {
        match self {
            CcaMode::CciAlways => 0,
            CcaMode::CciRssiBelowThreshold => 1,
            CcaMode::CciRcvPacket => 2,
            CcaMode::CciRssiBelowThresholdRcvPacket => 3,
        }
    }

    /// The value of CCA_MODE.
    #[verifier::when_used_as_spec(spec_value)]
    pub fn value(self) -> (v: u8)
        ensures
            v == self.spec_value(),
    {
        match self {
            CcaMode::CciAlways => 0,
            CcaMode::CciRssiBelowThreshold => 1,
            CcaMode::CciRcvPacket => 2,
            CcaMode::CciRssiBelowThresholdRcvPacket => 3,
        }
    }
}

/// Modulation format of the radio signal.
#[derive(Clone, Copy, PartialEq, Eq, Structural, Debug)]
pub enum ModulationFormat {
    BinaryFrequencyShiftKeying,
    GaussianFrequencyShiftKeying,
    OnOffKeying,
    FourFrequencyShiftKeying,
    MinimumShiftKeying,
}

impl ModulationFormat {
    pub open spec fn spec_format(self) -> ModFormat {
        match self {
            ModulationFormat::BinaryFrequencyShiftKeying => ModFormat::MOD_2FSK,
            ModulationFormat::GaussianFrequencyShiftKeying => ModFormat::MOD_GFSK,
            ModulationFormat::OnOffKeying => ModFormat::MOD_ASK_OOK,
            ModulationFormat::FourFrequencyShiftKeying => ModFormat::MOD_4FSK,
            ModulationFormat::MinimumShiftKeying => ModFormat::MOD_MSK,
        }
    }

    /// The MOD_FORMAT setting of this format.
    #[verifier::when_used_as_spec(spec_format)]
    pub fn format(self) -> (f: ModFormat)
        ensures
            f == self.spec_format(),
    {
        match self {
            ModulationFormat::BinaryFrequencyShiftKeying => ModFormat::MOD_2FSK,
            ModulationFormat::GaussianFrequencyShiftKeying => ModFormat::MOD_GFSK,
            ModulationFormat::OnOffKeying => ModFormat::MOD_ASK_OOK,
            ModulationFormat::FourFrequencyShiftKeying => ModFormat::MOD_4FSK,
            ModulationFormat::MinimumShiftKeying => ModFormat::MOD_MSK,
        }
    }
}

/// The sync word to use, and how much of it must match.
#[derive(Clone, Copy, PartialEq, Eq, Structural, Debug)]
pub enum SyncMode {
    /// No sync word.
    Disabled,
    /// Match 15 of 16 bits of the given sync word.
    MatchPartial(u16),
    /// Match 30 of 32 bits of a repetition of the given sync word.
    MatchPartialRepeated(u16),
    /// Match 16 of 16 bits of the given sync word.
    MatchFull(u16),
}

impl SyncMode {
    /// The SYNC_MODE setting of this mode.
    pub open spec fn spec_check(self) -> SyncCheck {
        match self {
            SyncMode::Disabled => SyncCheck::DISABLED,
            SyncMode::MatchPartial(_) => SyncCheck::CHECK_15_16,
            SyncMode::MatchPartialRepeated(_) => SyncCheck::CHECK_30_32,
            SyncMode::MatchFull(_) => SyncCheck::CHECK_16_16,
        }
    }
}

/// Address check of received packets, and the device address.
#[derive(Clone, Copy, PartialEq, Eq, Structural, Debug)]
pub enum AddressFilter {
    /// No address check.
    Disabled,
    /// Address check, no broadcast.
    Device(u8),
    /// Address check and 0 (0x00) broadcast.
    DeviceLowBroadcast(u8),
    /// Address check and 0 (0x00) and 255 (0xFF) broadcast.
    DeviceHighLowBroadcast(u8),
}

impl AddressFilter {
    /// The ADR_CHK setting of this filter.
    pub open spec fn spec_check(self) -> AddressCheck {
        match self {
            AddressFilter::Disabled => AddressCheck::DISABLED,
            AddressFilter::Device(_) => AddressCheck::SELF,
            AddressFilter::DeviceLowBroadcast(_) => AddressCheck::SELF_LOW_BROADCAST,
            AddressFilter::DeviceHighLowBroadcast(_) => AddressCheck::SELF_HIGH_LOW_BROADCAST,
        }
    }
}

/// Packet length mode, and the length.
#[derive(Clone, Copy, PartialEq, Eq, Structural, Debug)]
pub enum PacketLength {
    /// Fixed length packets of the given length.
    Fixed(u8),
    /// Variable length packets, the length is the first byte after the sync word; at most the given length.
    Variable(u8),
    /// Infinite packet length.
    Infinite,
}

impl PacketLength {
    /// The LENGTH_CONFIG setting of this mode.
    pub open spec fn spec_config(self) -> LengthConfig {
        match self {
            PacketLength::Fixed(_) => LengthConfig::FIXED,
            PacketLength::Variable(_) => LengthConfig::VARIABLE,
            PacketLength::Infinite => LengthConfig::INFINITE,
        }
    }
}

/// The mode that the radio is put in.
#[derive(Clone, Copy, PartialEq, Eq, Structural, Debug)]
pub enum RadioMode {
    Receive,
    Transmit,
    Idle,
    Sleep,
    Calibrate,
}

} // verus!
