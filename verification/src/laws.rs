//! What the operations of the driver do, in the datasheet's own numbers.
use vstd::prelude::*;

use crate::lowlevel::fields::{Field, Update};
use crate::lowlevel::access::{Access, Mode};
use crate::lowlevel::registers::{Command, Config, MultiByte, Register, Status};
use crate::lowlevel::types::{lemma_machine_state_encoding_injective, state_of};
use crate::{
    bit, filter_address, packet_length_limit, sync_word, AddressFilter, AutoCalibration, CcaMode,
    FilterLength, ModulationFormat, NumPreamble, PacketLength, RadioMode, SyncMode, TargetAmplitude,
    emit_spec, finish_outcome, machine_state_outcome, fresh, resume_spec, DriverView, Error, Finish, MachineState, Phase, RegOp,
    Reply, StepView,
};

verus! {

/// The receive job, as `Cc1101::receive` starts it.
pub open spec fn receive_ops() -> Seq<RegOp> {
    seq![
        RegOp::AwaitRxBytes,
        RegOp::ReadFifo,
        RegOp::Read(Register::Status(Status::LQI)),
        RegOp::AwaitState(MachineState::IDLE),
        RegOp::Strobe(Command::SFRX),
    ]
}

/// A received packet is reported good exactly when bit 7 (CRC_OK) of the LQI
/// byte read after it is set, whatever bits 6:0 hold; the length is the
/// packet's length byte.
pub proof fn lemma_packet_result<SpiE>(count: u8, lqi: u8, length: u8, address: u8)
    ensures
        lqi & 0x80 == 0x80 ==> finish_outcome::<SpiE>(Finish::Packet, seq![count, lqi], Some((length, address)))
            == Ok::<Reply, Error<SpiE>>(Reply::Packet(length)),
        lqi & 0x80 == 0 ==> finish_outcome::<SpiE>(Finish::Packet, seq![count, lqi], Some((length, address)))
            == Err::<Reply, Error<SpiE>>(Error::CrcMismatch),
{
    assert(lqi & 0x80 == 0x80 <==> lqi >= 128) by (bit_vector);
    assert(lqi & 0x80 == 0 <==> lqi < 128) by (bit_vector);
}

/// Where a receive job stands.
pub open spec fn receive_at<SpiE>(v: DriverView<SpiE>, pc: int, phase: Phase<SpiE>, reads: Seq<u8>, fifo: Option<(u8, u8)>) -> bool {
    &&& v.ops == receive_ops()
    &&& v.finish == Finish::Packet
    &&& v.pc == pc
    &&& v.phase == phase
    &&& v.reads == reads
    &&& v.fifo == fifo
}

proof fn lemma_receive_first_reading<SpiE>(v: DriverView<SpiE>, s: u8, n: u8)
    requires
        receive_at(v, 0, Phase::Issue, Seq::empty(), None),
        0 < n < 128,
    ensures
        receive_at(resume_spec(v, Ok(seq![s, n])).0, 0, Phase::Poll(n), Seq::empty(), None),
        resume_spec(v, Ok(seq![s, n])).1 == StepView::<SpiE>::Transfer(seq![0xFBu8, 0x00u8]),
{
}

proof fn lemma_receive_settled<SpiE>(v: DriverView<SpiE>, s: u8, n: u8)
    requires
        receive_at(v, 0, Phase::Poll(n), Seq::empty(), None),
        0 < n < 128,
    ensures
        receive_at(resume_spec(v, Ok(seq![s, n])).0, 1, Phase::Issue, seq![n], None),
        resume_spec(v, Ok(seq![s, n])).1 == StepView::<SpiE>::FifoTransfer(seq![0xFFu8, 0x00u8, 0x00u8]),
{
    assert(resume_spec(v, Ok(seq![s, n])).0.reads =~= seq![n]);
}

proof fn lemma_receive_header<SpiE>(v: DriverView<SpiE>, s: u8, n: u8, length: u8, address: u8)
    requires
        receive_at(v, 1, Phase::Issue, seq![n], None),
    ensures
        receive_at(resume_spec(v, Ok(seq![s, length, address])).0, 2, Phase::Issue, seq![n], Some((length, address))),
        resume_spec(v, Ok(seq![s, length, address])).1 == StepView::<SpiE>::Transfer(seq![0xF3u8, 0x00u8]),
{
}

proof fn lemma_receive_lqi<SpiE>(v: DriverView<SpiE>, s: u8, n: u8, lqi: u8, h: (u8, u8))
    requires
        receive_at(v, 2, Phase::Issue, seq![n], Some(h)),
    ensures
        receive_at(resume_spec(v, Ok(seq![s, lqi])).0, 3, Phase::Issue, seq![n, lqi], Some(h)),
        resume_spec(v, Ok(seq![s, lqi])).1 == StepView::<SpiE>::Transfer(seq![0xF5u8, 0x00u8]),
{
    assert(resume_spec(v, Ok(seq![s, lqi])).0.reads =~= seq![n, lqi]);
}

proof fn lemma_receive_idle<SpiE>(v: DriverView<SpiE>, s: u8, n: u8, lqi: u8, h: (u8, u8))
    requires
        receive_at(v, 3, Phase::Issue, seq![n, lqi], Some(h)),
    ensures
        receive_at(resume_spec(v, Ok(seq![s, 0x01])).0, 4, Phase::Issue, seq![n, lqi], Some(h)),
        resume_spec(v, Ok(seq![s, 0x01])).1 == StepView::<SpiE>::Transfer(seq![0x3Au8]),
{
    lemma_machine_state_encoding_injective(MachineState::IDLE, state_of(1));
}

proof fn lemma_receive_flushed<SpiE>(v: DriverView<SpiE>, s: u8, n: u8, lqi: u8, h: (u8, u8))
    requires
        receive_at(v, 4, Phase::Issue, seq![n, lqi], Some(h)),
    ensures
        resume_spec(v, Ok(seq![s])).0.fifo == Some(h),
        resume_spec(v, Ok(seq![s])).1 == StepView::<SpiE>::Done(finish_outcome(Finish::Packet, seq![n, lqi], Some(h))),
{
}

/// A whole reception: RXBYTES reads `n` twice (so the count has settled), the
/// FIFO header brings `length` and `address`, LQI reads `lqi`, MARCSTATE shows
/// IDLE (0x01) and the flush goes through. The job sends exactly the frames of
/// the datasheet, ends with the length when bit 7 of `lqi` is set and with a
/// CRC error when it is clear, whatever the other bits and the status bytes
/// hold, and keeps the header.
pub proof fn lemma_receive_run<SpiE>(v0: DriverView<SpiE>, n: u8, length: u8, address: u8, lqi: u8, st: Seq<u8>)
    requires
        0 < n < 128,
        st.len() == 6,
    ensures
        ({
            let (v1, s1) = emit_spec(fresh::<SpiE>(v0.status, receive_ops(), Finish::Packet));
            let (v2, s2) = resume_spec(v1, Ok(seq![st[0], n]));
            let (v3, s3) = resume_spec(v2, Ok(seq![st[1], n]));
            let (v4, s4) = resume_spec(v3, Ok(seq![st[2], length, address]));
            let (v5, s5) = resume_spec(v4, Ok(seq![st[3], lqi]));
            let (v6, s6) = resume_spec(v5, Ok(seq![st[4], 0x01]));
            let (v7, s7) = resume_spec(v6, Ok(seq![st[5]]));
            &&& s1 == StepView::<SpiE>::Transfer(seq![0xFBu8, 0x00u8])
            &&& s2 == StepView::<SpiE>::Transfer(seq![0xFBu8, 0x00u8])
            &&& s3 == StepView::<SpiE>::FifoTransfer(seq![0xFFu8, 0x00u8, 0x00u8])
            &&& s4 == StepView::<SpiE>::Transfer(seq![0xF3u8, 0x00u8])
            &&& s5 == StepView::<SpiE>::Transfer(seq![0xF5u8, 0x00u8])
            &&& s6 == StepView::<SpiE>::Transfer(seq![0x3Au8])
            &&& (lqi & 0x80 == 0x80 ==> s7 == StepView::<SpiE>::Done(Ok(Reply::Packet(length))))
            &&& (lqi & 0x80 == 0 ==> s7 == StepView::<SpiE>::Done(Err(Error::CrcMismatch)))
            &&& v7.fifo == Some((length, address))
        }),
{
    let (v1, s1) = emit_spec(fresh::<SpiE>(v0.status, receive_ops(), Finish::Packet));
    assert(receive_at(v1, 0, Phase::Issue, Seq::empty(), None));
    lemma_receive_first_reading(v1, st[0], n);
    let (v2, s2) = resume_spec(v1, Ok(seq![st[0], n]));
    lemma_receive_settled(v2, st[1], n);
    let (v3, s3) = resume_spec(v2, Ok(seq![st[1], n]));
    lemma_receive_header(v3, st[2], n, length, address);
    let (v4, s4) = resume_spec(v3, Ok(seq![st[2], length, address]));
    lemma_receive_lqi(v4, st[3], n, lqi, (length, address));
    let (v5, s5) = resume_spec(v4, Ok(seq![st[3], lqi]));
    lemma_receive_idle(v5, st[4], n, lqi, (length, address));
    let (v6, s6) = resume_spec(v5, Ok(seq![st[4], 0x01]));
    lemma_receive_flushed(v6, st[5], n, lqi, (length, address));
    lemma_packet_result::<SpiE>(n, lqi, length, address);
}

/// `set_modulation_format` keeps MDMCFG2 bits 7 and 3:0 and writes MOD_FORMAT (bits 6:4) with the datasheet code: 2-FSK 000, GFSK 001, ASK/OOK 011, 4-FSK 100, MSK 111.
pub proof fn lemma_modulation_format_codes(x: ModulationFormat, r: u8)
    ensures
        Update::of(Field::ModFormat, x.spec_format().spec_value()).apply_to(r) == (r & 0x8fu8) | match x {
            ModulationFormat::BinaryFrequencyShiftKeying => 0x0u8,
            ModulationFormat::GaussianFrequencyShiftKeying => 0x10u8,
            ModulationFormat::OnOffKeying => 0x30u8,
            ModulationFormat::FourFrequencyShiftKeying => 0x40u8,
            ModulationFormat::MinimumShiftKeying => 0x70u8,
        },
{
    let v = x.spec_format().spec_value();
    assert(Update::of(Field::ModFormat, v).apply_to(r) == (r & 0x8fu8) | ((v & 0x7u8) << 4u8) && ((0u8 & 0x7u8) << 4u8) == 0x0u8 && ((1u8 & 0x7u8) << 4u8) == 0x10u8 && ((3u8 & 0x7u8) << 4u8) == 0x30u8 && ((4u8 & 0x7u8) << 4u8) == 0x40u8 && ((7u8 & 0x7u8) << 4u8) == 0x70u8) by (bit_vector);
}

/// `set_address_filter` keeps PKTCTRL1 bits 7:2 and writes ADR_CHK (bits 1:0): no check 0, address without broadcast 1, address and 0x00 broadcast 2, address and 0x00 and 0xFF broadcast 3.
pub proof fn lemma_address_check_codes(x: AddressFilter, r: u8)
    ensures
        Update::of(Field::AdrChk, x.spec_check().spec_value()).apply_to(r) == (r & 0xfcu8) | match x {
            AddressFilter::Disabled => 0x0u8,
            AddressFilter::Device(_) => 0x1u8,
            AddressFilter::DeviceLowBroadcast(_) => 0x2u8,
            AddressFilter::DeviceHighLowBroadcast(_) => 0x3u8,
        },
{
    let v = x.spec_check().spec_value();
    assert(Update::of(Field::AdrChk, v).apply_to(r) == (r & 0xfcu8) | ((v & 0x3u8) << 0u8) && ((0u8 & 0x3u8) << 0u8) == 0x0u8 && ((1u8 & 0x3u8) << 0u8) == 0x1u8 && ((2u8 & 0x3u8) << 0u8) == 0x2u8 && ((3u8 & 0x3u8) << 0u8) == 0x3u8) by (bit_vector);
}

/// `set_num_preamble` keeps MDMCFG1 bits 7 and 3:0 and writes NUM_PREAMBLE (bits 6:4): 2, 3, 4, 6, 8, 12, 16, 24 bytes are codes 0 to 7.
pub proof fn lemma_num_preamble_codes(x: NumPreamble, r: u8)
    ensures
        Update::of(Field::NumPreamble, x.spec_value()).apply_to(r) == (r & 0x8fu8) | match x {
            NumPreamble::Two => 0x0u8,
            NumPreamble::Three => 0x10u8,
            NumPreamble::Four => 0x20u8,
            NumPreamble::Six => 0x30u8,
            NumPreamble::Eight => 0x40u8,
            NumPreamble::Twelve => 0x50u8,
            NumPreamble::Sixteen => 0x60u8,
            NumPreamble::TwentyFour => 0x70u8,
        },
{
    let v = x.spec_value();
    assert(Update::of(Field::NumPreamble, v).apply_to(r) == (r & 0x8fu8) | ((v & 0x7u8) << 4u8) && ((0u8 & 0x7u8) << 4u8) == 0x0u8 && ((1u8 & 0x7u8) << 4u8) == 0x10u8 && ((2u8 & 0x7u8) << 4u8) == 0x20u8 && ((3u8 & 0x7u8) << 4u8) == 0x30u8 && ((4u8 & 0x7u8) << 4u8) == 0x40u8 && ((5u8 & 0x7u8) << 4u8) == 0x50u8 && ((6u8 & 0x7u8) << 4u8) == 0x60u8 && ((7u8 & 0x7u8) << 4u8) == 0x70u8) by (bit_vector);
}

/// `set_magn_target` keeps AGCCTRL2 bits 7:3 and writes MAGN_TARGET (bits 2:0): 24, 27, 30, 33, 36, 38, 40, 42 dB are codes 0 to 7.
pub proof fn lemma_magn_target_codes(x: TargetAmplitude, r: u8)
    ensures
        Update::of(Field::MagnTarget, x.spec_value()).apply_to(r) == (r & 0xf8u8) | match x {
            TargetAmplitude::Db24 => 0x0u8,
            TargetAmplitude::Db27 => 0x1u8,
            TargetAmplitude::Db30 => 0x2u8,
            TargetAmplitude::Db33 => 0x3u8,
            TargetAmplitude::Db36 => 0x4u8,
            TargetAmplitude::Db38 => 0x5u8,
            TargetAmplitude::Db40 => 0x6u8,
            TargetAmplitude::Db42 => 0x7u8,
        },
{
    let v = x.spec_value();
    assert(Update::of(Field::MagnTarget, v).apply_to(r) == (r & 0xf8u8) | ((v & 0x7u8) << 0u8) && ((0u8 & 0x7u8) << 0u8) == 0x0u8 && ((1u8 & 0x7u8) << 0u8) == 0x1u8 && ((2u8 & 0x7u8) << 0u8) == 0x2u8 && ((3u8 & 0x7u8) << 0u8) == 0x3u8 && ((4u8 & 0x7u8) << 0u8) == 0x4u8 && ((5u8 & 0x7u8) << 0u8) == 0x5u8 && ((6u8 & 0x7u8) << 0u8) == 0x6u8 && ((7u8 & 0x7u8) << 0u8) == 0x7u8) by (bit_vector);
}

/// `set_filter_length` keeps AGCCTRL0 bits 7:2 and writes FILTER_LENGTH (bits 1:0): 8, 16, 32, 64 samples are codes 0 to 3.
pub proof fn lemma_filter_length_codes(x: FilterLength, r: u8)
    ensures
        Update::of(Field::FilterLength, x.spec_value()).apply_to(r) == (r & 0xfcu8) | match x {
            FilterLength::Samples8 => 0x0u8,
            FilterLength::Samples16 => 0x1u8,
            FilterLength::Samples32 => 0x2u8,
            FilterLength::Samples64 => 0x3u8,
        },
{
    let v = x.spec_value();
    assert(Update::of(Field::FilterLength, v).apply_to(r) == (r & 0xfcu8) | ((v & 0x3u8) << 0u8) && ((0u8 & 0x3u8) << 0u8) == 0x0u8 && ((1u8 & 0x3u8) << 0u8) == 0x1u8 && ((2u8 & 0x3u8) << 0u8) == 0x2u8 && ((3u8 & 0x3u8) << 0u8) == 0x3u8) by (bit_vector);
}

/// `set_autocalibration` keeps MCSM0 bits 7:6 and 3:0 and writes FS_AUTOCAL (bits 5:4): never 0, from IDLE 1, to IDLE 2, every 4th time to IDLE 3.
pub proof fn lemma_autocalibration_codes(x: AutoCalibration, r: u8)
    ensures
        Update::of(Field::FsAutocal, x.spec_value()).apply_to(r) == (r & 0xcfu8) | match x {
            AutoCalibration::Disabled => 0x0u8,
            AutoCalibration::FromIdle => 0x10u8,
            AutoCalibration::ToIdle => 0x20u8,
            AutoCalibration::ToIdleEvery4th => 0x30u8,
        },
{
    let v = x.spec_value();
    assert(Update::of(Field::FsAutocal, v).apply_to(r) == (r & 0xcfu8) | ((v & 0x3u8) << 4u8) && ((0u8 & 0x3u8) << 4u8) == 0x0u8 && ((1u8 & 0x3u8) << 4u8) == 0x10u8 && ((2u8 & 0x3u8) << 4u8) == 0x20u8 && ((3u8 & 0x3u8) << 4u8) == 0x30u8) by (bit_vector);
}

/// `set_cca_mode` keeps MCSM1 bits 7:6 and 3:0 and writes CCA_MODE (bits 5:4): always 0, RSSI below threshold 1, unless receiving 2, both 3.
pub proof fn lemma_cca_mode_codes(x: CcaMode, r: u8)
    ensures
        Update::of(Field::CcaMode, x.spec_value()).apply_to(r) == (r & 0xcfu8) | match x {
            CcaMode::CciAlways => 0x0u8,
            CcaMode::CciRssiBelowThreshold => 0x10u8,
            CcaMode::CciRcvPacket => 0x20u8,
            CcaMode::CciRssiBelowThresholdRcvPacket => 0x30u8,
        },
{
    let v = x.spec_value();
    assert(Update::of(Field::CcaMode, v).apply_to(r) == (r & 0xcfu8) | ((v & 0x3u8) << 4u8) && ((0u8 & 0x3u8) << 4u8) == 0x0u8 && ((1u8 & 0x3u8) << 4u8) == 0x10u8 && ((2u8 & 0x3u8) << 4u8) == 0x20u8 && ((3u8 & 0x3u8) << 4u8) == 0x30u8) by (bit_vector);
}

/// `set_sync_mode` keeps MDMCFG2 bits 7:3 and writes SYNC_MODE (bits 2:0): no sync word 0, 15/16 bits 1, 16/16 bits 2, 30/32 bits 3.
pub proof fn lemma_sync_mode_codes(x: SyncMode, r: u8)
    ensures
        Update::of(Field::SyncMode, x.spec_check().spec_value()).apply_to(r) == (r & 0xf8u8) | match x {
            SyncMode::Disabled => 0x0u8,
            SyncMode::MatchPartial(_) => 0x1u8,
            SyncMode::MatchFull(_) => 0x2u8,
            SyncMode::MatchPartialRepeated(_) => 0x3u8,
        },
{
    let v = x.spec_check().spec_value();
    assert(Update::of(Field::SyncMode, v).apply_to(r) == (r & 0xf8u8) | ((v & 0x7u8) << 0u8) && ((0u8 & 0x7u8) << 0u8) == 0x0u8 && ((1u8 & 0x7u8) << 0u8) == 0x1u8 && ((2u8 & 0x7u8) << 0u8) == 0x2u8 && ((3u8 & 0x7u8) << 0u8) == 0x3u8) by (bit_vector);
}

/// `set_packet_length` keeps PKTCTRL0 bits 7:2 and writes LENGTH_CONFIG (bits 1:0): fixed 0, variable 1, infinite 2.
pub proof fn lemma_length_config_codes(x: PacketLength, r: u8)
    ensures
        Update::of(Field::LengthConfig, x.spec_config().spec_value()).apply_to(r) == (r & 0xfcu8) | match x {
            PacketLength::Fixed(_) => 0x0u8,
            PacketLength::Variable(_) => 0x1u8,
            PacketLength::Infinite => 0x2u8,
        },
{
    let v = x.spec_config().spec_value();
    assert(Update::of(Field::LengthConfig, v).apply_to(r) == (r & 0xfcu8) | ((v & 0x3u8) << 0u8) && ((0u8 & 0x3u8) << 0u8) == 0x0u8 && ((1u8 & 0x3u8) << 0u8) == 0x1u8 && ((2u8 & 0x3u8) << 0u8) == 0x2u8) by (bit_vector);
}

/// `fec_enable` keeps MDMCFG1 bits 6:0 and sets FEC_EN (bit 7) to the flag.
pub proof fn lemma_fec_enable_bit(enable: bool, r: u8)
    ensures
        Update::of(Field::FecEn, bit(enable)).apply_to(r) == (r & 0x7fu8) | (if enable { 0x80u8 } else { 0x00u8 }),
{
    let v = bit(enable);
    assert(Update::of(Field::FecEn, v).apply_to(r) == (r & 0x7fu8) | ((v & 1u8) << 7u8) && ((1u8 & 1u8) << 7u8) == 0x80u8 && ((0u8 & 1u8) << 7u8) == 0u8) by (bit_vector);
}

/// `white_data_enable` keeps PKTCTRL0 bits 7 and 5:0 and sets WHITE_DATA (bit 6) to the flag.
pub proof fn lemma_white_data_bit(enable: bool, r: u8)
    ensures
        Update::of(Field::WhiteData, bit(enable)).apply_to(r) == (r & 0xbfu8) | (if enable { 0x40u8 } else { 0x00u8 }),
{
    let v = bit(enable);
    assert(Update::of(Field::WhiteData, v).apply_to(r) == (r & 0xbfu8) | ((v & 1u8) << 6u8) && ((1u8 & 1u8) << 6u8) == 0x40u8 && ((0u8 & 1u8) << 6u8) == 0u8) by (bit_vector);
}

/// `crc_enable` keeps PKTCTRL0 bits 7:3 and 1:0 and sets CRC_EN (bit 2) to the flag.
pub proof fn lemma_crc_enable_bit(enable: bool, r: u8)
    ensures
        Update::of(Field::CrcEn, bit(enable)).apply_to(r) == (r & 0xfbu8) | (if enable { 0x4u8 } else { 0x00u8 }),
{
    let v = bit(enable);
    assert(Update::of(Field::CrcEn, v).apply_to(r) == (r & 0xfbu8) | ((v & 1u8) << 2u8) && ((1u8 & 1u8) << 2u8) == 0x4u8 && ((0u8 & 1u8) << 2u8) == 0u8) by (bit_vector);
}

/// The bytes written next to the field codes: the device address of a filter
/// (0x00, the reset ADDR, when there is none), the packet length of a length
/// mode (0xFF, the reset PKTLEN, for infinite packets), and the sync word of a
/// sync mode (0xD391, the reset SYNC1 and SYNC0, when there is none).
pub proof fn lemma_written_values(a: u8, w: u16)
    ensures
        filter_address(AddressFilter::Disabled) == 0x00,
        filter_address(AddressFilter::Device(a)) == a,
        filter_address(AddressFilter::DeviceLowBroadcast(a)) == a,
        filter_address(AddressFilter::DeviceHighLowBroadcast(a)) == a,
        packet_length_limit(PacketLength::Fixed(a)) == a,
        packet_length_limit(PacketLength::Variable(a)) == a,
        packet_length_limit(PacketLength::Infinite) == 0xFF,
        sync_word(SyncMode::Disabled) == 0xD391,
        sync_word(SyncMode::MatchPartial(w)) == w,
        sync_word(SyncMode::MatchPartialRepeated(w)) == w,
        sync_word(SyncMode::MatchFull(w)) == w,
{
}

/// The numeric settings: `set_data_rate` keeps MDMCFG4 bits 7:4 and writes
/// DRATE_E in bits 3:0, and writes DRATE_M as the whole of MDMCFG3;
/// `set_chanbw` keeps MDMCFG4 bits 3:0 and writes CHANBW_M in bits 5:4 and
/// CHANBW_E in bits 7:6; `set_deviation` writes DEVIATN as DEVIATION_E in
/// bits 6:4 and DEVIATION_M in bits 2:0; `set_freq_if` writes FSCTRL1 as
/// FREQ_IF in bits 4:0.
pub proof fn lemma_numeric_fields(m: u8, e: u8, r: u8)
    requires
        m < 8,
        e < 16,
    ensures
        Update::of(Field::DrateE, e).apply_to(r) == (r & 0xF0) | e,
        Update::of(Field::DrateM, m).apply_to(Config::MDMCFG3.reset_value()) == m,
        m < 4 && e < 4 ==> Update::of(Field::ChanbwM, m).with(Update::of(Field::ChanbwE, e)).apply_to(r)
            == (r & 0x0F) | (m << 4u8) | (e << 6u8),
        e < 8 ==> Update::of(Field::DeviationE, e).apply_to(
            Update::of(Field::DeviationM, m).apply_to(Config::DEVIATN.reset_value()),
        ) == (e << 4u8) | m,
        Update::of(Field::FreqIf, r).apply_to(Config::FSCTRL1.reset_value()) == r & 0x1F,
{
    assert(Update::of(Field::DrateE, e).apply_to(r) == (r & 0xF0) | e) by (bit_vector)
        requires
            e < 16,
    ;
    assert(Update::of(Field::DrateM, m).apply_to(0x22u8) == m) by (bit_vector);
    assert(m < 4 && e < 4 ==> Update::of(Field::ChanbwM, m).with(Update::of(Field::ChanbwE, e)).apply_to(r)
        == (r & 0x0F) | (m << 4u8) | (e << 6u8)) by (bit_vector);
    assert(m < 8 && e < 8 ==> Update::of(Field::DeviationE, e).apply_to(Update::of(Field::DeviationM, m).apply_to(0x47u8))
        == (e << 4u8) | m) by (bit_vector);
    assert(Update::of(Field::FreqIf, r).apply_to(0x0Fu8) == r & 0x1F) by (bit_vector);
}

/// `set_defaults` writes PKTCTRL0 = 0x05 (whitening off), FSCTRL1 = 0x08
/// (203125 Hz intermediate frequency), MDMCFG2 = 0x82 (DC blocking filter
/// off), sets MCSM0.FS_AUTOCAL to 1 (calibrate when leaving IDLE) keeping the
/// other bits, and writes AGCCTRL2 = 0x23 (LNA gain capped).
pub proof fn lemma_default_bytes(r: u8)
    ensures
        Update::of(Field::WhiteData, 0).apply_to(Config::PKTCTRL0.reset_value()) == 0x05,
        Update::of(Field::FreqIf, 8).apply_to(Config::FSCTRL1.reset_value()) == 0x08,
        (203125 * 1024) / 26000000 == 8,
        Update::of(Field::DemDcfiltOff, 1).apply_to(Config::MDMCFG2.reset_value()) == 0x82,
        Update::of(Field::FsAutocal, AutoCalibration::FromIdle.spec_value()).apply_to(r) == (r & 0xCF) | 0x10,
        Update::of(Field::MaxLnaGain, 0x04).apply_to(Config::AGCCTRL2.reset_value()) == 0x23,
{
    assert(Update::of(Field::WhiteData, 0).apply_to(0x45u8) == 0x05u8
        && Update::of(Field::FreqIf, 8).apply_to(0x0Fu8) == 0x08u8
        && Update::of(Field::DemDcfiltOff, 1).apply_to(0x02u8) == 0x82u8
        && Update::of(Field::FsAutocal, 1).apply_to(r) == (r & 0xCFu8) | 0x10u8
        && Update::of(Field::MaxLnaGain, 0x04).apply_to(0x03u8) == 0x23u8) by (bit_vector);
}

/// What the FIFO count and LQI readings say: bit 7 of TXBYTES / RXBYTES is
/// the underflow / overflow flag and bits 6:0 the count; LQI is bits 6:0 of
/// its reading; a wait for received bytes ends when a reading without the
/// overflow flag repeats the previous nonzero count.
pub proof fn lemma_count_readings<SpiE>(raw: u8, last: u8, other: u8)
    ensures
        raw & 0x80 == 0x80 ==> crate::tx_bytes_outcome::<SpiE>(raw) == Err::<u8, Error<SpiE>>(Error::TxUnderflow),
        raw & 0x80 == 0x80 ==> crate::rx_bytes_outcome::<SpiE>(raw) == Err::<u8, Error<SpiE>>(Error::RxOverflow),
        raw & 0x80 == 0 ==> crate::tx_bytes_outcome::<SpiE>(raw) == Ok::<u8, Error<SpiE>>(raw & 0x7F),
        raw & 0x80 == 0 ==> crate::rx_bytes_outcome::<SpiE>(raw) == Ok::<u8, Error<SpiE>>(raw & 0x7F),
        finish_outcome::<SpiE>(Finish::Lqi, seq![raw], None) == Ok::<Reply, Error<SpiE>>(Reply::Lqi(raw & 0x7F)),
        finish_outcome::<SpiE>(Finish::HwInfo, seq![raw, other], None) == Ok::<Reply, Error<SpiE>>(Reply::HwInfo(raw, other)),
        raw & 0x80 == 0 && raw != 0 && raw == last ==> crate::rx_available_outcome::<SpiE>(last, raw)
            == Ok::<Option<u8>, Error<SpiE>>(Some(raw)),
        raw & 0x80 == 0 && (raw == 0 || raw != last) ==> crate::rx_available_outcome::<SpiE>(last, raw)
            == Ok::<Option<u8>, Error<SpiE>>(None),
        raw & 0x80 == 0x80 ==> crate::rx_available_outcome::<SpiE>(last, raw)
            == Err::<Option<u8>, Error<SpiE>>(Error::RxOverflow),
{
    assert((raw & 0x80 == 0x80 <==> raw >= 128) && (raw & 0x80 == 0 <==> raw < 128) && (raw < 128 ==> raw & 0x7F == raw)
        && raw & 0x7F == raw % 128) by (bit_vector);
}

/// The RSSI in dBm is the reading as a two's complement number of half dB,
/// halved toward zero, less the 74 dB offset.
pub proof fn lemma_rssi_formula<SpiE>(raw: u8)
    ensures
        ({
            let d: int = if raw & 0x80 == 0x80 { raw - 256 } else { raw as int };
            let x = crate::lowlevel::convert::rssi_dbm(raw) + 74;
            &&& d >= 0 ==> 0 <= d - 2 * x <= 1
            &&& d < 0 ==> 0 <= 2 * x - d <= 1
        }),
        finish_outcome::<SpiE>(Finish::RssiDbm, seq![raw], None)
            == Ok::<Reply, Error<SpiE>>(Reply::RssiDbm(crate::lowlevel::convert::rssi_dbm(raw) as i16)),
{
    assert(raw & 0x80 == 0x80 <==> raw >= 128) by (bit_vector);
}

/// Putting the radio in a mode exits RX / TX with SIDLE (0x36) and waits for
/// IDLE (MARC_STATE 0x01); a mode other than IDLE then issues its strobe and
/// waits for its state: SLEEP SPWD (0x39) and 0x00, CALIBRATE SCAL (0x33)
/// and MANCAL 0x05, TRANSMIT STX (0x35) and TX 0x13, RECEIVE SRX (0x34) and
/// RX 0x0D.
pub proof fn lemma_radio_mode_codes(mode: RadioMode)
    ensures
        ({
            let ops = crate::radio_mode_ops(mode);
            &&& ops.len() == if mode is Idle { 2int } else { 4int }
            &&& ops[0] is Strobe && ops[0]->Strobe_0.address() == 0x36
            &&& ops[1] is AwaitState && ops[1]->AwaitState_0.spec_encoding() == 0x01
            &&& !(mode is Idle) ==> ops[2] is Strobe && ops[3] is AwaitState
            &&& mode is Sleep ==> ops[2]->Strobe_0.address() == 0x39 && ops[3]->AwaitState_0.spec_encoding() == 0x00
            &&& mode is Calibrate ==> ops[2]->Strobe_0.address() == 0x33 && ops[3]->AwaitState_0.spec_encoding() == 0x05
            &&& mode is Transmit ==> ops[2]->Strobe_0.address() == 0x35 && ops[3]->AwaitState_0.spec_encoding() == 0x13
            &&& mode is Receive ==> ops[2]->Strobe_0.address() == 0x34 && ops[3]->AwaitState_0.spec_encoding() == 0x0D
        }),
{
}

/// The crystal frequency that every conversion divides by.
pub proof fn lemma_crystal()
    ensures
        crate::lowlevel::FXOSC == 26_000_000,
{
}

/// A MARCSTATE reading stands for the state that the datasheet gives its
/// MARC_STATE value (bits 4:0), whatever bits 7:5 hold; values from 23 on
/// stand for none and are an error carrying the value.
pub proof fn lemma_marc_state_codes<SpiE>(raw: u8)
    ensures
        raw % 32 == 0x0 ==> machine_state_outcome::<SpiE>(raw) == Ok::<MachineState, Error<SpiE>>(MachineState::SLEEP),
        raw % 32 == 0x1 ==> machine_state_outcome::<SpiE>(raw) == Ok::<MachineState, Error<SpiE>>(MachineState::IDLE),
        raw % 32 == 0x2 ==> machine_state_outcome::<SpiE>(raw) == Ok::<MachineState, Error<SpiE>>(MachineState::XOFF),
        raw % 32 == 0x3 ==> machine_state_outcome::<SpiE>(raw) == Ok::<MachineState, Error<SpiE>>(MachineState::VCOON_MC),
        raw % 32 == 0x4 ==> machine_state_outcome::<SpiE>(raw) == Ok::<MachineState, Error<SpiE>>(MachineState::REGON_MC),
        raw % 32 == 0x5 ==> machine_state_outcome::<SpiE>(raw) == Ok::<MachineState, Error<SpiE>>(MachineState::MANCAL),
        raw % 32 == 0x6 ==> machine_state_outcome::<SpiE>(raw) == Ok::<MachineState, Error<SpiE>>(MachineState::VCOON),
        raw % 32 == 0x7 ==> machine_state_outcome::<SpiE>(raw) == Ok::<MachineState, Error<SpiE>>(MachineState::REGON),
        raw % 32 == 0x8 ==> machine_state_outcome::<SpiE>(raw) == Ok::<MachineState, Error<SpiE>>(MachineState::STARTCAL),
        raw % 32 == 0x9 ==> machine_state_outcome::<SpiE>(raw) == Ok::<MachineState, Error<SpiE>>(MachineState::BWBOOST),
        raw % 32 == 0xa ==> machine_state_outcome::<SpiE>(raw) == Ok::<MachineState, Error<SpiE>>(MachineState::FS_LOCK),
        raw % 32 == 0xb ==> machine_state_outcome::<SpiE>(raw) == Ok::<MachineState, Error<SpiE>>(MachineState::IFADCON),
        raw % 32 == 0xc ==> machine_state_outcome::<SpiE>(raw) == Ok::<MachineState, Error<SpiE>>(MachineState::ENDCAL),
        raw % 32 == 0xd ==> machine_state_outcome::<SpiE>(raw) == Ok::<MachineState, Error<SpiE>>(MachineState::RX),
        raw % 32 == 0xe ==> machine_state_outcome::<SpiE>(raw) == Ok::<MachineState, Error<SpiE>>(MachineState::RX_END),
        raw % 32 == 0xf ==> machine_state_outcome::<SpiE>(raw) == Ok::<MachineState, Error<SpiE>>(MachineState::RX_RST),
        raw % 32 == 0x10 ==> machine_state_outcome::<SpiE>(raw) == Ok::<MachineState, Error<SpiE>>(MachineState::TXRX_SWITCH),
        raw % 32 == 0x11 ==> machine_state_outcome::<SpiE>(raw) == Ok::<MachineState, Error<SpiE>>(MachineState::RXFIFO_OVERFLOW),
        raw % 32 == 0x12 ==> machine_state_outcome::<SpiE>(raw) == Ok::<MachineState, Error<SpiE>>(MachineState::FSTXON),
        raw % 32 == 0x13 ==> machine_state_outcome::<SpiE>(raw) == Ok::<MachineState, Error<SpiE>>(MachineState::TX),
        raw % 32 == 0x14 ==> machine_state_outcome::<SpiE>(raw) == Ok::<MachineState, Error<SpiE>>(MachineState::TX_END),
        raw % 32 == 0x15 ==> machine_state_outcome::<SpiE>(raw) == Ok::<MachineState, Error<SpiE>>(MachineState::RXTX_SWITCH),
        raw % 32 == 0x16 ==> machine_state_outcome::<SpiE>(raw) == Ok::<MachineState, Error<SpiE>>(MachineState::TXFIFO_UNDERFLOW),
        raw % 32 >= 23 ==> machine_state_outcome::<SpiE>(raw) == Err::<MachineState, Error<SpiE>>(Error::InvalidState((raw % 32) as u8)),
{
    let k = (raw % 32) as u8;
    if k == 0x0 {
        assert(MachineState::SLEEP.spec_encoding() == k);
        lemma_machine_state_encoding_injective(MachineState::SLEEP, state_of(k));
    }
    if k == 0x1 {
        assert(MachineState::IDLE.spec_encoding() == k);
        lemma_machine_state_encoding_injective(MachineState::IDLE, state_of(k));
    }
    if k == 0x2 {
        assert(MachineState::XOFF.spec_encoding() == k);
        lemma_machine_state_encoding_injective(MachineState::XOFF, state_of(k));
    }
    if k == 0x3 {
        assert(MachineState::VCOON_MC.spec_encoding() == k);
        lemma_machine_state_encoding_injective(MachineState::VCOON_MC, state_of(k));
    }
    if k == 0x4 {
        assert(MachineState::REGON_MC.spec_encoding() == k);
        lemma_machine_state_encoding_injective(MachineState::REGON_MC, state_of(k));
    }
    if k == 0x5 {
        assert(MachineState::MANCAL.spec_encoding() == k);
        lemma_machine_state_encoding_injective(MachineState::MANCAL, state_of(k));
    }
    if k == 0x6 {
        assert(MachineState::VCOON.spec_encoding() == k);
        lemma_machine_state_encoding_injective(MachineState::VCOON, state_of(k));
    }
    if k == 0x7 {
        assert(MachineState::REGON.spec_encoding() == k);
        lemma_machine_state_encoding_injective(MachineState::REGON, state_of(k));
    }
    if k == 0x8 {
        assert(MachineState::STARTCAL.spec_encoding() == k);
        lemma_machine_state_encoding_injective(MachineState::STARTCAL, state_of(k));
    }
    if k == 0x9 {
        assert(MachineState::BWBOOST.spec_encoding() == k);
        lemma_machine_state_encoding_injective(MachineState::BWBOOST, state_of(k));
    }
    if k == 0xa {
        assert(MachineState::FS_LOCK.spec_encoding() == k);
        lemma_machine_state_encoding_injective(MachineState::FS_LOCK, state_of(k));
    }
    if k == 0xb {
        assert(MachineState::IFADCON.spec_encoding() == k);
        lemma_machine_state_encoding_injective(MachineState::IFADCON, state_of(k));
    }
    if k == 0xc {
        assert(MachineState::ENDCAL.spec_encoding() == k);
        lemma_machine_state_encoding_injective(MachineState::ENDCAL, state_of(k));
    }
    if k == 0xd {
        assert(MachineState::RX.spec_encoding() == k);
        lemma_machine_state_encoding_injective(MachineState::RX, state_of(k));
    }
    if k == 0xe {
        assert(MachineState::RX_END.spec_encoding() == k);
        lemma_machine_state_encoding_injective(MachineState::RX_END, state_of(k));
    }
    if k == 0xf {
        assert(MachineState::RX_RST.spec_encoding() == k);
        lemma_machine_state_encoding_injective(MachineState::RX_RST, state_of(k));
    }
    if k == 0x10 {
        assert(MachineState::TXRX_SWITCH.spec_encoding() == k);
        lemma_machine_state_encoding_injective(MachineState::TXRX_SWITCH, state_of(k));
    }
    if k == 0x11 {
        assert(MachineState::RXFIFO_OVERFLOW.spec_encoding() == k);
        lemma_machine_state_encoding_injective(MachineState::RXFIFO_OVERFLOW, state_of(k));
    }
    if k == 0x12 {
        assert(MachineState::FSTXON.spec_encoding() == k);
        lemma_machine_state_encoding_injective(MachineState::FSTXON, state_of(k));
    }
    if k == 0x13 {
        assert(MachineState::TX.spec_encoding() == k);
        lemma_machine_state_encoding_injective(MachineState::TX, state_of(k));
    }
    if k == 0x14 {
        assert(MachineState::TX_END.spec_encoding() == k);
        lemma_machine_state_encoding_injective(MachineState::TX_END, state_of(k));
    }
    if k == 0x15 {
        assert(MachineState::RXTX_SWITCH.spec_encoding() == k);
        lemma_machine_state_encoding_injective(MachineState::RXTX_SWITCH, state_of(k));
    }
    if k == 0x16 {
        assert(MachineState::TXFIFO_UNDERFLOW.spec_encoding() == k);
        lemma_machine_state_encoding_injective(MachineState::TXFIFO_UNDERFLOW, state_of(k));
    }
}

/// The header bytes of every access: a configuration register is read
/// with 0x80 plus its address and written with its address; a status
/// register is read with 0xC0 plus its address; a strobe is its address; the
/// FIFO is read in a burst with 0xFF. The addresses are the datasheet's.
pub proof fn lemma_register_map(c: Config, s: Status, k: Command)
    ensures
        Register::Config(c).header(Access::Read, Mode::Single) == 0x80 + c.address(),
        Register::Config(c).header(Access::Write, Mode::Single) == c.address(),
        Register::Status(s).header(Access::Read, Mode::Single) == 0xC0 + s.address(),
        Register::Command(k).header(Access::Write, Mode::Single) == k.address(),
        Register::MultiByte(MultiByte::FIFO).header(Access::Read, Mode::Burst) == 0xFF,
        Config::IOCFG2.address() == 0x00,
        Config::IOCFG1.address() == 0x01,
        Config::IOCFG0.address() == 0x02,
        Config::FIFOTHR.address() == 0x03,
        Config::SYNC1.address() == 0x04,
        Config::SYNC0.address() == 0x05,
        Config::PKTLEN.address() == 0x06,
        Config::PKTCTRL1.address() == 0x07,
        Config::PKTCTRL0.address() == 0x08,
        Config::ADDR.address() == 0x09,
        Config::CHANNR.address() == 0x0A,
        Config::FSCTRL1.address() == 0x0B,
        Config::FSCTRL0.address() == 0x0C,
        Config::FREQ2.address() == 0x0D,
        Config::FREQ1.address() == 0x0E,
        Config::FREQ0.address() == 0x0F,
        Config::MDMCFG4.address() == 0x10,
        Config::MDMCFG3.address() == 0x11,
        Config::MDMCFG2.address() == 0x12,
        Config::MDMCFG1.address() == 0x13,
        Config::MDMCFG0.address() == 0x14,
        Config::DEVIATN.address() == 0x15,
        Config::MCSM2.address() == 0x16,
        Config::MCSM1.address() == 0x17,
        Config::MCSM0.address() == 0x18,
        Config::FOCCFG.address() == 0x19,
        Config::BSCFG.address() == 0x1A,
        Config::AGCCTRL2.address() == 0x1B,
        Config::AGCCTRL1.address() == 0x1C,
        Config::AGCCTRL0.address() == 0x1D,
        Config::WOREVT1.address() == 0x1E,
        Config::WOREVT0.address() == 0x1F,
        Config::WORCTRL.address() == 0x20,
        Config::FREND1.address() == 0x21,
        Config::FREND0.address() == 0x22,
        Config::FSCAL3.address() == 0x23,
        Config::FSCAL2.address() == 0x24,
        Config::FSCAL1.address() == 0x25,
        Config::FSCAL0.address() == 0x26,
        Config::RCCTRL1.address() == 0x27,
        Config::RCCTRL0.address() == 0x28,
        Config::FSTEST.address() == 0x29,
        Config::PTEST.address() == 0x2A,
        Config::AGCTEST.address() == 0x2B,
        Config::TEST2.address() == 0x2C,
        Config::TEST1.address() == 0x2D,
        Config::TEST0.address() == 0x2E,
        Status::PARTNUM.address() == 0x30,
        Status::VERSION.address() == 0x31,
        Status::FREQEST.address() == 0x32,
        Status::LQI.address() == 0x33,
        Status::RSSI.address() == 0x34,
        Status::MARCSTATE.address() == 0x35,
        Status::WORTIME1.address() == 0x36,
        Status::WORTIME0.address() == 0x37,
        Status::PKTSTATUS.address() == 0x38,
        Status::VCO_VC_DAC.address() == 0x39,
        Status::TXBYTES.address() == 0x3A,
        Status::RXBYTES.address() == 0x3B,
        Status::RCCTRL1_STATUS.address() == 0x3C,
        Status::RCCTRL0_STATUS.address() == 0x3D,
        Command::SRES.address() == 0x30,
        Command::SFSTXON.address() == 0x31,
        Command::SXOFF.address() == 0x32,
        Command::SCAL.address() == 0x33,
        Command::SRX.address() == 0x34,
        Command::STX.address() == 0x35,
        Command::SIDLE.address() == 0x36,
        Command::SWOR.address() == 0x38,
        Command::SPWD.address() == 0x39,
        Command::SFRX.address() == 0x3A,
        Command::SFTX.address() == 0x3B,
        Command::SWORRST.address() == 0x3C,
        Command::SNOP.address() == 0x3D,
{
}

} // verus!
