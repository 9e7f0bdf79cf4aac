use cc1101::{
    AddressFilter, AutoCalibration, Cc1101, CcaMode, Error, FilterLength, MachineState,
    ModulationFormat, NumPreamble, PacketLength, RadioMode, Reply, Step, SyncMode,
    TargetAmplitude,
};

type Dev = Cc1101<&'static str>;
type Outcome = Result<Reply, Error<&'static str>>;

fn ok(bytes: &[u8]) -> Result<Vec<u8>, &'static str> {
    Ok(bytes.to_vec())
}

/// Runs a job against scripted replies; returns the transfers it asked for
/// (FIFO transfers marked with a leading `None`) and its result.
fn run(
    dev: &mut Dev,
    first: Step<&'static str>,
    replies: Vec<Result<Vec<u8>, &'static str>>,
) -> (Vec<Vec<u8>>, Vec<bool>, Outcome) {
    let mut sent = Vec::new();
    let mut fifo = Vec::new();
    let mut step = first;
    let mut replies = replies.into_iter();
    loop {
        match step {
            Step::Transfer(bytes) => {
                assert_eq!(dev.expected_reply_len(), bytes.len());
                sent.push(bytes);
                fifo.push(false);
                step = dev.resume(replies.next().expect("a reply for every transfer"));
            }
            Step::FifoTransfer(bytes) => {
                assert_eq!(dev.expected_reply_len(), bytes.len());
                sent.push(bytes);
                fifo.push(true);
                step = dev.resume(replies.next().expect("a reply for every transfer"));
            }
            Step::Done(r) => {
                assert!(replies.next().is_none(), "job ended before all replies were used");
                assert!(!dev.is_awaiting());
                return (sent, fifo, r);
            }
        }
    }
}

fn frames(v: &[&[u8]]) -> Vec<Vec<u8>> {
    v.iter().map(|f| f.to_vec()).collect()
}

#[test]
fn new_driver_has_no_status() {
    let dev = Dev::new();
    assert_eq!(dev.get_chip_status(), None);
    assert!(!dev.is_awaiting());
    assert_eq!(dev.received_header(), None);
}

#[test]
fn strobes_send_their_address_and_forget_the_status() {
    let cases: Vec<(fn(&mut Dev) -> Step<&'static str>, u8)> = vec![
        (Dev::reset_chip, 0x30),
        (Dev::enable_and_cal_freq_synth, 0x31),
        (Dev::turn_off_xosc, 0x32),
        (Dev::cal_freq_synth_and_turn_off, 0x33),
        (Dev::enable_rx, 0x34),
        (Dev::enable_tx, 0x35),
        (Dev::exit_rx_tx, 0x36),
        (Dev::start_wake_on_radio, 0x38),
        (Dev::enter_power_down_mode, 0x39),
        (Dev::flush_rx_fifo_buffer, 0x3A),
        (Dev::flush_tx_fifo_buffer, 0x3B),
        (Dev::reset_rtc_to_event1, 0x3C),
    ];
    for (op, addr) in cases {
        let mut dev = Dev::new();
        // a register access first, so that a status is known
        let s = dev.get_lqi();
        run(&mut dev, s, vec![ok(&[0x0f, 0x80])]);
        assert!(dev.get_chip_status().is_some());
        let s = op(&mut dev);
        let (sent, _, r) = run(&mut dev, s, vec![ok(&[0x1f])]);
        assert_eq!(sent, vec![vec![addr]]);
        assert_eq!(r, Ok(Reply::Nothing));
        assert_eq!(dev.get_chip_status(), None);
    }
}

#[test]
fn no_operation_keeps_the_status_byte() {
    let mut dev = Dev::new();
    let s = dev.no_operation();
    let (sent, _, r) = run(&mut dev, s, vec![ok(&[0x9f])]);
    assert_eq!(sent, vec![vec![0x3D]]);
    assert_eq!(r, Ok(Reply::Nothing));
    let status = dev.get_chip_status().unwrap();
    assert_eq!(status.bits(), 0x9f);
    assert_eq!(status.chip_rdyn(), 1);
    assert_eq!(status.state(), 1);
    assert_eq!(status.fifo_bytes_available(), 15);
}

#[test]
fn set_frequency_433_mhz() {
    let mut dev = Dev::new();
    let s = dev.set_frequency(433_000_000);
    let (sent, _, r) = run(&mut dev, s, vec![ok(&[0x0f, 0]), ok(&[0x0f, 0]), ok(&[0x0e, 0])]);
    assert_eq!(sent, frames(&[&[0x0F, 0x62], &[0x0E, 0xA7], &[0x0D, 0x10]]));
    assert_eq!(r, Ok(Reply::Nothing));
    assert_eq!(dev.get_chip_status().unwrap().bits(), 0x0e);
}

#[test]
fn set_frequency_868_mhz() {
    let mut dev = Dev::new();
    let s = dev.set_frequency(868_000_000);
    let (sent, _, _) = run(&mut dev, s, vec![ok(&[0, 0]), ok(&[0, 0]), ok(&[0, 0])]);
    assert_eq!(sent, frames(&[&[0x0F, 0x76], &[0x0E, 0x62], &[0x0D, 0x21]]));
}

#[test]
fn set_freq_if_writes_fsctrl1() {
    let mut dev = Dev::new();
    let s = dev.set_freq_if(203_125);
    let (sent, _, r) = run(&mut dev, s, vec![ok(&[0, 0])]);
    assert_eq!(sent, frames(&[&[0x0B, 0x08]]));
    assert_eq!(r, Ok(Reply::Nothing));
}

#[test]
fn set_magn_target_modifies_agcctrl2() {
    let mut dev = Dev::new();
    let s = dev.set_magn_target(TargetAmplitude::Db42);
    let (sent, _, r) = run(&mut dev, s, vec![ok(&[0, 0xC3]), ok(&[0, 0])]);
    assert_eq!(sent, frames(&[&[0x9B, 0x00], &[0x1B, 0xC7]]));
    assert_eq!(r, Ok(Reply::Nothing));
}

#[test]
fn settings_modify_only_their_field() {
    let mut dev = Dev::new();
    let s = dev.set_filter_length(FilterLength::Samples64);
    let (sent, _, _) = run(&mut dev, s, vec![ok(&[0, 0x91]), ok(&[0, 0])]);
    assert_eq!(sent, frames(&[&[0x9D, 0], &[0x1D, 0x93]]));

    let s = dev.set_autocalibration(AutoCalibration::ToIdleEvery4th);
    let (sent, _, _) = run(&mut dev, s, vec![ok(&[0, 0x04]), ok(&[0, 0])]);
    assert_eq!(sent, frames(&[&[0x98, 0], &[0x18, 0x34]]));

    let s = dev.fec_enable(true);
    let (sent, _, _) = run(&mut dev, s, vec![ok(&[0, 0x22]), ok(&[0, 0])]);
    assert_eq!(sent, frames(&[&[0x93, 0], &[0x13, 0xA2]]));

    let s = dev.set_num_preamble(NumPreamble::TwentyFour);
    let (sent, _, _) = run(&mut dev, s, vec![ok(&[0, 0xA2]), ok(&[0, 0])]);
    assert_eq!(sent, frames(&[&[0x93, 0], &[0x13, 0xF2]]));

    let s = dev.set_cca_mode(CcaMode::CciAlways);
    let (sent, _, _) = run(&mut dev, s, vec![ok(&[0, 0x30]), ok(&[0, 0])]);
    assert_eq!(sent, frames(&[&[0x97, 0], &[0x17, 0x00]]));

    let s = dev.set_modulation_format(ModulationFormat::MinimumShiftKeying);
    let (sent, _, _) = run(&mut dev, s, vec![ok(&[0, 0x02]), ok(&[0, 0])]);
    assert_eq!(sent, frames(&[&[0x92, 0], &[0x12, 0x72]]));

    let s = dev.white_data_enable(false);
    let (sent, _, _) = run(&mut dev, s, vec![ok(&[0, 0x45]), ok(&[0, 0])]);
    assert_eq!(sent, frames(&[&[0x88, 0], &[0x08, 0x05]]));

    let s = dev.crc_enable(false);
    let (sent, _, _) = run(&mut dev, s, vec![ok(&[0, 0x45]), ok(&[0, 0])]);
    assert_eq!(sent, frames(&[&[0x88, 0], &[0x08, 0x41]]));
}

#[test]
fn set_deviation_writes_the_largest_deviation_not_above() {
    let mut dev = Dev::new();
    // 26 MHz / 2^17 * 15 * 16 = 47607.4 Hz: the reset setting 0x47
    let s = dev.set_deviation(47_608);
    let (sent, _, _) = run(&mut dev, s, vec![ok(&[0, 0])]);
    assert_eq!(sent, frames(&[&[0x15, 0x47]]));
    let s = dev.set_deviation(47_607);
    let (sent, _, _) = run(&mut dev, s, vec![ok(&[0, 0])]);
    assert_eq!(sent, frames(&[&[0x15, 0x46]]));
}

#[test]
fn set_data_rate_38k4() {
    let mut dev = Dev::new();
    let s = dev.set_data_rate(38_384);
    let (sent, _, r) = run(&mut dev, s, vec![ok(&[0, 0x8C]), ok(&[0, 0]), ok(&[0, 0])]);
    assert_eq!(sent, frames(&[&[0x90, 0], &[0x10, 0x8A], &[0x11, 0x83]]));
    assert_eq!(r, Ok(Reply::Nothing));
}

#[test]
fn set_chanbw_picks_narrowest_bandwidth_not_below() {
    let mut dev = Dev::new();
    let s = dev.set_chanbw(203_000);
    let (sent, _, _) = run(&mut dev, s, vec![ok(&[0, 0x8C]), ok(&[0, 0])]);
    assert_eq!(sent, frames(&[&[0x90, 0], &[0x10, 0x8C]]));
    let s = dev.set_chanbw(58_000);
    let (sent, _, _) = run(&mut dev, s, vec![ok(&[0, 0x8C]), ok(&[0, 0])]);
    assert_eq!(sent, frames(&[&[0x90, 0], &[0x10, 0xFC]]));
    let s = dev.set_chanbw(1_000_000);
    let (sent, _, _) = run(&mut dev, s, vec![ok(&[0, 0xFC]), ok(&[0, 0])]);
    assert_eq!(sent, frames(&[&[0x90, 0], &[0x10, 0x0C]]));
}

#[test]
fn set_sync_mode_writes_mode_and_word() {
    let mut dev = Dev::new();
    let s = dev.set_sync_mode(SyncMode::MatchFull(0xBEEF));
    let (sent, _, _) = run(&mut dev, s, vec![ok(&[0, 0x02]), ok(&[0, 0]), ok(&[0, 0]), ok(&[0, 0])]);
    assert_eq!(sent, frames(&[&[0x92, 0], &[0x12, 0x02], &[0x04, 0xBE], &[0x05, 0xEF]]));

    let s = dev.set_sync_mode(SyncMode::MatchPartialRepeated(0x1234));
    let (sent, _, _) = run(&mut dev, s, vec![ok(&[0, 0x02]), ok(&[0, 0]), ok(&[0, 0]), ok(&[0, 0])]);
    assert_eq!(sent, frames(&[&[0x92, 0], &[0x12, 0x03], &[0x04, 0x12], &[0x05, 0x34]]));

    let s = dev.set_sync_mode(SyncMode::Disabled);
    let (sent, _, _) = run(&mut dev, s, vec![ok(&[0, 0x03]), ok(&[0, 0]), ok(&[0, 0]), ok(&[0, 0])]);
    assert_eq!(sent, frames(&[&[0x92, 0], &[0x12, 0x00], &[0x04, 0xD3], &[0x05, 0x91]]));

    let s = dev.set_sync_mode(SyncMode::MatchPartial(0x0001));
    let (sent, _, _) = run(&mut dev, s, vec![ok(&[0, 0x00]), ok(&[0, 0]), ok(&[0, 0]), ok(&[0, 0])]);
    assert_eq!(sent, frames(&[&[0x92, 0], &[0x12, 0x01], &[0x04, 0x00], &[0x05, 0x01]]));
}

#[test]
fn set_address_filter_writes_check_and_address() {
    let mut dev = Dev::new();
    let s = dev.set_address_filter(AddressFilter::DeviceLowBroadcast(0x42));
    let (sent, _, _) = run(&mut dev, s, vec![ok(&[0, 0x04]), ok(&[0, 0]), ok(&[0, 0])]);
    assert_eq!(sent, frames(&[&[0x87, 0], &[0x07, 0x06], &[0x09, 0x42]]));
    let s = dev.set_address_filter(AddressFilter::Disabled);
    let (sent, _, _) = run(&mut dev, s, vec![ok(&[0, 0x07]), ok(&[0, 0]), ok(&[0, 0])]);
    assert_eq!(sent, frames(&[&[0x87, 0], &[0x07, 0x04], &[0x09, 0x00]]));
}

#[test]
fn set_packet_length_writes_config_and_length() {
    let mut dev = Dev::new();
    let s = dev.set_packet_length(PacketLength::Infinite);
    let (sent, _, _) = run(&mut dev, s, vec![ok(&[0, 0x45]), ok(&[0, 0]), ok(&[0, 0])]);
    assert_eq!(sent, frames(&[&[0x88, 0], &[0x08, 0x46], &[0x06, 0xFF]]));
    let s = dev.set_packet_length(PacketLength::Fixed(20));
    let (sent, _, _) = run(&mut dev, s, vec![ok(&[0, 0x46]), ok(&[0, 0]), ok(&[0, 0])]);
    assert_eq!(sent, frames(&[&[0x88, 0], &[0x08, 0x44], &[0x06, 20]]));
    let s = dev.set_packet_length(PacketLength::Variable(61));
    let (sent, _, _) = run(&mut dev, s, vec![ok(&[0, 0x44]), ok(&[0, 0]), ok(&[0, 0])]);
    assert_eq!(sent, frames(&[&[0x88, 0], &[0x08, 0x45], &[0x06, 61]]));
}

#[test]
fn get_hw_info_reads_partnum_and_version() {
    let mut dev = Dev::new();
    let s = dev.get_hw_info();
    let (sent, _, r) = run(&mut dev, s, vec![ok(&[0x0f, 0x00]), ok(&[0x0f, 0x14])]);
    assert_eq!(sent, frames(&[&[0xF0, 0], &[0xF1, 0]]));
    assert_eq!(r, Ok(Reply::HwInfo(0x00, 0x14)));
}

#[test]
fn get_rssi_dbm_converts_the_reading() {
    for (raw, dbm) in [(0x80u8, -138i16), (0x7F, -11), (0xFF, -74), (0x00, -74), (0x94, -128), (0x40, -42)] {
        let mut dev = Dev::new();
        let s = dev.get_rssi_dbm();
        let (sent, _, r) = run(&mut dev, s, vec![ok(&[0, raw])]);
        assert_eq!(sent, frames(&[&[0xF4, 0]]));
        assert_eq!(r, Ok(Reply::RssiDbm(dbm)));
    }
}

#[test]
fn get_lqi_drops_the_crc_bit() {
    let mut dev = Dev::new();
    let s = dev.get_lqi();
    let (sent, _, r) = run(&mut dev, s, vec![ok(&[0, 0xC5])]);
    assert_eq!(sent, frames(&[&[0xF3, 0]]));
    assert_eq!(r, Ok(Reply::Lqi(0x45)));
}

#[test]
fn read_tx_bytes_reports_underflow() {
    let mut dev = Dev::new();
    let s = dev.read_tx_bytes();
    let (sent, _, r) = run(&mut dev, s, vec![ok(&[0, 0x05])]);
    assert_eq!(sent, frames(&[&[0xFA, 0]]));
    assert_eq!(r, Ok(Reply::Bytes(5)));
    let s = dev.read_tx_bytes();
    let (_, _, r) = run(&mut dev, s, vec![ok(&[0, 0x85])]);
    assert_eq!(r, Err(Error::TxUnderflow));
}

#[test]
fn read_rx_bytes_reports_overflow() {
    let mut dev = Dev::new();
    let s = dev.read_rx_bytes();
    let (sent, _, r) = run(&mut dev, s, vec![ok(&[0, 0x7F])]);
    assert_eq!(sent, frames(&[&[0xFB, 0]]));
    assert_eq!(r, Ok(Reply::Bytes(127)));
    let s = dev.read_rx_bytes();
    let (_, _, r) = run(&mut dev, s, vec![ok(&[0, 0x80])]);
    assert_eq!(r, Err(Error::RxOverflow));
}

#[test]
fn read_machine_state_decodes_marcstate() {
    let mut dev = Dev::new();
    let s = dev.read_machine_state();
    let (sent, _, r) = run(&mut dev, s, vec![ok(&[0, 0x01])]);
    assert_eq!(sent, frames(&[&[0xF5, 0]]));
    assert_eq!(r, Ok(Reply::State(MachineState::IDLE)));
    let s = dev.read_machine_state();
    let (_, _, r) = run(&mut dev, s, vec![ok(&[0, 0xED])]);
    assert_eq!(r, Ok(Reply::State(MachineState::RX)));
    let s = dev.read_machine_state();
    let (_, _, r) = run(&mut dev, s, vec![ok(&[0, 0x17])]);
    assert_eq!(r, Err(Error::InvalidState(23)));
}

#[test]
fn set_defaults_sequence() {
    let mut dev = Dev::new();
    let s = dev.set_defaults();
    let replies = vec![ok(&[0]), ok(&[0, 0]), ok(&[0, 0]), ok(&[0, 0]), ok(&[0, 0x04]), ok(&[0, 0]), ok(&[0, 0])];
    let (sent, _, r) = run(&mut dev, s, replies);
    assert_eq!(
        sent,
        frames(&[&[0x30], &[0x08, 0x05], &[0x0B, 0x08], &[0x12, 0x82], &[0x98, 0], &[0x18, 0x14], &[0x1B, 0x23]])
    );
    assert_eq!(r, Ok(Reply::Nothing));
}

#[test]
fn set_raw_mode_writes_iocfg0_and_pktctrl0() {
    let mut dev = Dev::new();
    let s = dev.set_raw_mode();
    let (sent, _, _) = run(&mut dev, s, vec![ok(&[0, 0]), ok(&[0, 0])]);
    assert_eq!(sent, frames(&[&[0x02, 0x0D], &[0x08, 0x30]]));
}

#[test]
fn set_radio_mode_waits_for_each_state() {
    let mut dev = Dev::new();
    let s = dev.set_radio_mode(RadioMode::Transmit);
    let replies = vec![ok(&[0]), ok(&[0, 0x0D]), ok(&[0, 0x01]), ok(&[0]), ok(&[0, 0x12]), ok(&[0, 0x13])];
    let (sent, _, r) = run(&mut dev, s, replies);
    assert_eq!(sent, frames(&[&[0x36], &[0xF5, 0], &[0xF5, 0], &[0x35], &[0xF5, 0], &[0xF5, 0]]));
    assert_eq!(r, Ok(Reply::Nothing));

    let s = dev.set_radio_mode(RadioMode::Idle);
    let (sent, _, r) = run(&mut dev, s, vec![ok(&[0]), ok(&[0, 0x01])]);
    assert_eq!(sent, frames(&[&[0x36], &[0xF5, 0]]));
    assert_eq!(r, Ok(Reply::Nothing));

    for (mode, strobe, state) in [(RadioMode::Sleep, 0x39u8, 0x00u8), (RadioMode::Calibrate, 0x33, 0x05), (RadioMode::Receive, 0x34, 0x0D)] {
        let s = dev.set_radio_mode(mode);
        let (sent, _, r) = run(&mut dev, s, vec![ok(&[0]), ok(&[0, 0x01]), ok(&[0]), ok(&[0, state])]);
        assert_eq!(sent, frames(&[&[0x36], &[0xF5, 0], &[strobe], &[0xF5, 0]]));
        assert_eq!(r, Ok(Reply::Nothing));
    }
}

#[test]
fn set_radio_mode_fails_on_invalid_state() {
    let mut dev = Dev::new();
    let s = dev.set_radio_mode(RadioMode::Receive);
    let (sent, _, r) = run(&mut dev, s, vec![ok(&[0]), ok(&[0, 0x1F])]);
    assert_eq!(sent.len(), 2);
    assert_eq!(r, Err(Error::InvalidState(31)));
}

#[test]
fn receive_a_good_packet() {
    let mut dev = Dev::new();
    let s = dev.receive();
    let replies = vec![
        ok(&[0, 0]),
        ok(&[0, 5]),
        ok(&[0, 7]),
        ok(&[0, 7]),
        ok(&[0x6f, 4, 0x42]),
        ok(&[0, 0xA0]),
        ok(&[0, 0x01]),
        ok(&[0x0f]),
    ];
    let (sent, fifo, r) = run(&mut dev, s, replies);
    assert_eq!(
        sent,
        frames(&[&[0xFB, 0], &[0xFB, 0], &[0xFB, 0], &[0xFB, 0], &[0xFF, 0, 0], &[0xF3, 0], &[0xF5, 0], &[0x3A]])
    );
    assert_eq!(fifo, vec![false, false, false, false, true, false, false, false]);
    assert_eq!(r, Ok(Reply::Packet(4)));
    assert_eq!(dev.received_header(), Some((4, 0x42)));
}

#[test]
fn receive_reports_crc_mismatch() {
    let mut dev = Dev::new();
    let s = dev.receive();
    let replies = vec![ok(&[0, 3]), ok(&[0, 3]), ok(&[0, 3, 0x10]), ok(&[0, 0x20]), ok(&[0, 0x01]), ok(&[0])];
    let (_, _, r) = run(&mut dev, s, replies);
    assert_eq!(r, Err(Error::CrcMismatch));
    assert_eq!(dev.received_header(), Some((3, 0x10)));
}

#[test]
fn receive_flushes_after_overflow() {
    let mut dev = Dev::new();
    let s = dev.receive();
    let (sent, _, r) = run(&mut dev, s, vec![ok(&[0, 2]), ok(&[0, 0x88]), ok(&[0])]);
    assert_eq!(sent, frames(&[&[0xFB, 0], &[0xFB, 0], &[0x3A]]));
    assert_eq!(r, Err(Error::RxOverflow));
    assert_eq!(dev.received_header(), None);
}

#[test]
fn receive_flushes_after_bus_error_while_waiting() {
    let mut dev = Dev::new();
    let s = dev.receive();
    let (sent, _, r) = run(&mut dev, s, vec![Err("bus"), ok(&[0])]);
    assert_eq!(sent, frames(&[&[0xFB, 0], &[0x3A]]));
    assert_eq!(r, Err(Error::Spi("bus")));

    let s = dev.receive();
    let (sent, _, r) = run(&mut dev, s, vec![Err("bus"), Err("flush")]);
    assert_eq!(sent, frames(&[&[0xFB, 0], &[0x3A]]));
    assert_eq!(r, Err(Error::Spi("flush")));
}

#[test]
fn receive_does_not_flush_after_later_errors() {
    let mut dev = Dev::new();
    let s = dev.receive();
    let (sent, _, r) = run(&mut dev, s, vec![ok(&[0, 1]), ok(&[0, 1]), Err("bus")]);
    assert_eq!(sent, frames(&[&[0xFB, 0], &[0xFB, 0], &[0xFF, 0, 0]]));
    assert_eq!(r, Err(Error::Spi("bus")));
}

#[test]
fn bus_error_ends_a_job() {
    let mut dev = Dev::new();
    let s = dev.set_frequency(433_000_000);
    let (sent, _, r) = run(&mut dev, s, vec![ok(&[0, 0]), Err("bus")]);
    assert_eq!(sent.len(), 2);
    assert_eq!(r, Err(Error::Spi("bus")));

    let s = dev.set_magn_target(TargetAmplitude::Db24);
    let (sent, _, r) = run(&mut dev, s, vec![ok(&[0, 0x03]), Err("write")]);
    assert_eq!(sent, frames(&[&[0x9B, 0], &[0x1B, 0x00]]));
    assert_eq!(r, Err(Error::Spi("write")));
}

#[test]
fn status_follows_the_last_good_transfer() {
    let mut dev = Dev::new();
    let s = dev.get_lqi();
    run(&mut dev, s, vec![ok(&[0x21, 0])]);
    assert_eq!(dev.get_chip_status().unwrap().bits(), 0x21);
    // a failed transfer leaves it as it was
    let s = dev.get_lqi();
    run(&mut dev, s, vec![Err("bus")]);
    assert_eq!(dev.get_chip_status().unwrap().bits(), 0x21);
    // starting a job leaves it as it was
    let _ = dev.set_raw_mode();
    assert_eq!(dev.get_chip_status().unwrap().bits(), 0x21);
    let mut dev = Dev::new();
    let s = dev.set_radio_mode(RadioMode::Receive);
    run(&mut dev, s, vec![ok(&[0x11]), ok(&[0x12, 0x01]), ok(&[0x13]), ok(&[0x14, 0x0D])]);
    assert_eq!(dev.get_chip_status().unwrap().bits(), 0x14);
    let s = dev.enable_tx();
    run(&mut dev, s, vec![ok(&[0x15])]);
    assert_eq!(dev.get_chip_status(), None);
}

#[test]
fn huge_settings_do_not_overflow() {
    let mut dev = Dev::new();
    let s = dev.set_data_rate(u64::MAX);
    let (sent, _, r) = run(&mut dev, s, vec![ok(&[0, 0x80]), ok(&[0, 0]), ok(&[0, 0])]);
    assert_eq!(sent, frames(&[&[0x90, 0], &[0x10, 0x8F], &[0x11, 0xFF]]));
    assert_eq!(r, Ok(Reply::Nothing));
    let s = dev.set_chanbw(u64::MAX);
    let (sent, _, _) = run(&mut dev, s, vec![ok(&[0, 0xFF]), ok(&[0, 0])]);
    assert_eq!(sent, frames(&[&[0x90, 0], &[0x10, 0x0F]]));
}
