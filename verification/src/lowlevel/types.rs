//! Values of the register fields that the driver sets and reads.
use vstd::prelude::*;

verus! {

/// Values of MDMCFG2.SYNC_MODE: what is required of a sync word (and carrier sense) before a packet is received.
#[allow(non_camel_case_types)]
#[derive(Clone, Copy, PartialEq, Eq, Structural, Debug)]
pub enum SyncCheck {
    /// No preamble/sync
    DISABLED,
    /// 15/16 sync word bits detected
    CHECK_15_16,
    /// 16/16 sync word bits detected
    CHECK_16_16,
    /// 30/32 sync word bits detected
    CHECK_30_32,
    /// No preamble/sync, carrier-sense above threshold
    CHECK_0_0_CS,
    /// 15/16 + carrier-sense above threshold
    CHECK_15_16_CS,
    /// 16/16 + carrier-sense above threshold
    CHECK_16_16_CS,
    /// 30/32 + carrier-sense above threshold
    CHECK_30_32_CS,
}

impl SyncCheck {
    pub open spec fn spec_value(self) -> u8 {
        match self {
            SyncCheck::DISABLED => 0,
            SyncCheck::CHECK_15_16 => 1,
            SyncCheck::CHECK_16_16 => 2,
            SyncCheck::CHECK_30_32 => 3,
            SyncCheck::CHECK_0_0_CS => 4,
            SyncCheck::CHECK_15_16_CS => 5,
            SyncCheck::CHECK_16_16_CS => 6,
            SyncCheck::CHECK_30_32_CS => 7,
        }
    }

    /// The value of the register field.
    #[verifier::when_used_as_spec(spec_value)]
    pub fn value(self) -> (v: u8)
        ensures
            v == self.spec_value(),
    {
        match self {
            SyncCheck::DISABLED => 0,
            SyncCheck::CHECK_15_16 => 1,
            SyncCheck::CHECK_16_16 => 2,
            SyncCheck::CHECK_30_32 => 3,
            SyncCheck::CHECK_0_0_CS => 4,
            SyncCheck::CHECK_15_16_CS => 5,
            SyncCheck::CHECK_16_16_CS => 6,
            SyncCheck::CHECK_30_32_CS => 7,
        }
    }
}

/// Values of PKTCTRL1.ADR_CHK: address check of received packets.
#[allow(non_camel_case_types)]
#[derive(Clone, Copy, PartialEq, Eq, Structural, Debug)]
pub enum AddressCheck {
    /// No address check
    DISABLED,
    /// Address check, no broadcast
    SELF,
    /// Address check and 0 (0x00) broadcast
    SELF_LOW_BROADCAST,
    /// Address check and 0 (0x00) and 255 (0xFF) broadcast
    SELF_HIGH_LOW_BROADCAST,
}

impl AddressCheck {
    pub open spec fn spec_value(self) -> u8 {
        match self {
            AddressCheck::DISABLED => 0,
            AddressCheck::SELF => 1,
            AddressCheck::SELF_LOW_BROADCAST => 2,
            AddressCheck::SELF_HIGH_LOW_BROADCAST => 3,
        }
    }

    /// The value of the register field.
    #[verifier::when_used_as_spec(spec_value)]
    pub fn value(self) -> (v: u8)
        ensures
            v == self.spec_value(),
    {
        match self {
            AddressCheck::DISABLED => 0,
            AddressCheck::SELF => 1,
            AddressCheck::SELF_LOW_BROADCAST => 2,
            AddressCheck::SELF_HIGH_LOW_BROADCAST => 3,
        }
    }
}

/// Values of PKTCTRL0.LENGTH_CONFIG: how the packet length is configured.
#[allow(non_camel_case_types)]
#[derive(Clone, Copy, PartialEq, Eq, Structural, Debug)]
pub enum LengthConfig {
    /// Fixed packet length mode, length configured in PKTLEN
    FIXED,
    /// Variable packet length mode, length configured by the first byte after the sync word
    VARIABLE,
    /// Infinite packet length mode
    INFINITE,
}

impl LengthConfig {
    pub open spec fn spec_value(self) -> u8 {
        match self {
            LengthConfig::FIXED => 0,
            LengthConfig::VARIABLE => 1,
            LengthConfig::INFINITE => 2,
        }
    }

    /// The value of the register field.
    #[verifier::when_used_as_spec(spec_value)]
    pub fn value(self) -> (v: u8)
        ensures
            v == self.spec_value(),
    {
        match self {
            LengthConfig::FIXED => 0,
            LengthConfig::VARIABLE => 1,
            LengthConfig::INFINITE => 2,
        }
    }
}

/// Values of MDMCFG2.MOD_FORMAT: the modulation format of the radio signal.
#[allow(non_camel_case_types)]
#[derive(Clone, Copy, PartialEq, Eq, Structural, Debug)]
pub enum ModFormat {
    /// 2-FSK
    MOD_2FSK,
    /// GFSK
    MOD_GFSK,
    /// ASK/OOK
    MOD_ASK_OOK,
    /// 4-FSK
    MOD_4FSK,
    /// MSK
    MOD_MSK,
}

impl ModFormat {
    pub open spec fn spec_value(self) -> u8 {
        match self {
            ModFormat::MOD_2FSK => 0,
            ModFormat::MOD_GFSK => 1,
            ModFormat::MOD_ASK_OOK => 3,
            ModFormat::MOD_4FSK => 4,
            ModFormat::MOD_MSK => 7,
        }
    }

    /// The value of the register field.
    #[verifier::when_used_as_spec(spec_value)]
    pub fn value(self) -> (v: u8)
        ensures
            v == self.spec_value(),
    {
        match self {
            ModFormat::MOD_2FSK => 0,
            ModFormat::MOD_GFSK => 1,
            ModFormat::MOD_ASK_OOK => 3,
            ModFormat::MOD_4FSK => 4,
            ModFormat::MOD_MSK => 7,
        }
    }
}

/// Main Radio Control state machine state, as read from MARCSTATE.MARC_STATE.
#[allow(non_camel_case_types)]
#[derive(Clone, Copy, PartialEq, Eq, Structural, Debug)]
pub enum MachineState {
    /// SLEEP
    SLEEP,
    /// IDLE
    IDLE,
    /// XOFF
    XOFF,
    /// VCOON_MC (MANCAL)
    VCOON_MC,
    /// REGON_MC (MANCAL)
    REGON_MC,
    /// MANCAL
    MANCAL,
    /// VCOON (FS_WAKEUP)
    VCOON,
    /// REGON (FS_WAKEUP)
    REGON,
    /// STARTCAL (CALIBRATE)
    STARTCAL,
    /// BWBOOST (SETTLING)
    BWBOOST,
    /// FS_LOCK (SETTLING)
    FS_LOCK,
    /// IFADCON (SETTLING)
    IFADCON,
    /// ENDCAL (CALIBRATE)
    ENDCAL,
    /// RX
    RX,
    /// RX_END (RX)
    RX_END,
    /// RX_RST (RX)
    RX_RST,
    /// TXRX_SWITCH (TXRX_SETTLING)
    TXRX_SWITCH,
    /// RXFIFO_OVERFLOW
    RXFIFO_OVERFLOW,
    /// FSTXON
    FSTXON,
    /// TX
    TX,
    /// TX_END (TX)
    TX_END,
    /// RXTX_SWITCH (RXTX_SETTLING)
    RXTX_SWITCH,
    /// TXFIFO_UNDERFLOW
    TXFIFO_UNDERFLOW,
}

impl MachineState {
    pub open spec fn spec_encoding(self) -> u8 {
        match self {
            MachineState::SLEEP => 0,
            MachineState::IDLE => 1,
            MachineState::XOFF => 2,
            MachineState::VCOON_MC => 3,
            MachineState::REGON_MC => 4,
            MachineState::MANCAL => 5,
            MachineState::VCOON => 6,
            MachineState::REGON => 7,
            MachineState::STARTCAL => 8,
            MachineState::BWBOOST => 9,
            MachineState::FS_LOCK => 10,
            MachineState::IFADCON => 11,
            MachineState::ENDCAL => 12,
            MachineState::RX => 13,
            MachineState::RX_END => 14,
            MachineState::RX_RST => 15,
            MachineState::TXRX_SWITCH => 16,
            MachineState::RXFIFO_OVERFLOW => 17,
            MachineState::FSTXON => 18,
            MachineState::TX => 19,
            MachineState::TX_END => 20,
            MachineState::RXTX_SWITCH => 21,
            MachineState::TXFIFO_UNDERFLOW => 22,
        }
    }

    /// The value of MARC_STATE that stands for this state.
    #[verifier::when_used_as_spec(spec_encoding)]
    pub fn encoding(self) -> (v: u8)
        ensures
            v == self.spec_encoding(),
    {
        match self {
            MachineState::SLEEP => 0,
            MachineState::IDLE => 1,
            MachineState::XOFF => 2,
            MachineState::VCOON_MC => 3,
            MachineState::REGON_MC => 4,
            MachineState::MANCAL => 5,
            MachineState::VCOON => 6,
            MachineState::REGON => 7,
            MachineState::STARTCAL => 8,
            MachineState::BWBOOST => 9,
            MachineState::FS_LOCK => 10,
            MachineState::IFADCON => 11,
            MachineState::ENDCAL => 12,
            MachineState::RX => 13,
            MachineState::RX_END => 14,
            MachineState::RX_RST => 15,
            MachineState::TXRX_SWITCH => 16,
            MachineState::RXFIFO_OVERFLOW => 17,
            MachineState::FSTXON => 18,
            MachineState::TX => 19,
            MachineState::TX_END => 20,
            MachineState::RXTX_SWITCH => 21,
            MachineState::TXFIFO_UNDERFLOW => 22,
        }
    }
}

/// A MARC_STATE value that stands for no state.
#[derive(Clone, Copy, PartialEq, Eq, Structural, Debug)]
pub enum MachineStateError {
    InvalidState(u8),
}

impl MachineState {
    /// The state that a MARC_STATE value stands for; values from 23 on stand for none.
    pub fn from_marc_state(v: u8) -> (r: Result<MachineState, MachineStateError>)
        ensures
            v < 23 ==> r is Ok && r->Ok_0.spec_encoding() == v,
            v >= 23 ==> r == Err::<MachineState, MachineStateError>(MachineStateError::InvalidState(v)),
    {
        match v {
            0 => Ok(MachineState::SLEEP),
            1 => Ok(MachineState::IDLE),
            2 => Ok(MachineState::XOFF),
            3 => Ok(MachineState::VCOON_MC),
            4 => Ok(MachineState::REGON_MC),
            5 => Ok(MachineState::MANCAL),
            6 => Ok(MachineState::VCOON),
            7 => Ok(MachineState::REGON),
            8 => Ok(MachineState::STARTCAL),
            9 => Ok(MachineState::BWBOOST),
            10 => Ok(MachineState::FS_LOCK),
            11 => Ok(MachineState::IFADCON),
            12 => Ok(MachineState::ENDCAL),
            13 => Ok(MachineState::RX),
            14 => Ok(MachineState::RX_END),
            15 => Ok(MachineState::RX_RST),
            16 => Ok(MachineState::TXRX_SWITCH),
            17 => Ok(MachineState::RXFIFO_OVERFLOW),
            18 => Ok(MachineState::FSTXON),
            19 => Ok(MachineState::TX),
            20 => Ok(MachineState::TX_END),
            21 => Ok(MachineState::RXTX_SWITCH),
            22 => Ok(MachineState::TXFIFO_UNDERFLOW),
            _ => Err(MachineStateError::InvalidState(v)),
        }
    }
}

/// The state with the given MARC_STATE encoding.
pub open spec fn state_of(v: u8) -> MachineState {
    choose|s: MachineState| s.spec_encoding() == v
}

/// The state that a MARC_STATE value stands for, or the error for a value
/// from 23 on.
pub open spec fn marc_state_outcome(v: u8) -> Result<MachineState, MachineStateError> {
    if v < 23 {
        Ok(state_of(v))
    } else {
        Err(MachineStateError::InvalidState(v))
    }
}

impl TryFrom<u8> for MachineState {
    type Error = MachineStateError;

    fn try_from(v: u8) -> (r: Result<MachineState, MachineStateError>) {
        let r = MachineState::from_marc_state(v);
        proof {
            if v < 23 {
                lemma_machine_state_encoding_injective(r->Ok_0, state_of(v));
            }
        }
        r
    }
}

impl vstd::std_specs::convert::TryFromSpecImpl<u8> for MachineState {
    open spec fn obeys_try_from_spec() -> bool {
        true
    }

    open spec fn try_from_spec(v: u8) -> Result<MachineState, MachineStateError> {
        marc_state_outcome(v)
    }
}

/// Different states have different encodings.
pub proof fn lemma_machine_state_encoding_injective(a: MachineState, b: MachineState)
    ensures
        a.spec_encoding() == b.spec_encoding() ==> a == b,
{
}

} // verus!
