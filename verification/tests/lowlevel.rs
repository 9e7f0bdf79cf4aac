use cc1101::lowlevel::access::{Access, Mode};
use cc1101::lowlevel::convert::{
    from_chanbw, from_deviation, from_drate, from_freq_if, from_frequency, from_rssi_to_rssi_dbm,
};
use cc1101::lowlevel::fields::{Field, Update};
use cc1101::lowlevel::registers::{Command, Config, Register, Status, StatusByte};
use cc1101::lowlevel::types::MachineState;
use cc1101::lowlevel::{self, Cc1101};
use cc1101::{crc_checked_length, decode_machine_state, decode_rx_bytes, decode_tx_bytes, lqi_value, Error};

#[test]
fn headers_of_registers() {
    assert_eq!(Register::Config(Config::FREQ2).raddr(Mode::Single), 0x8D);
    assert_eq!(Register::Config(Config::FREQ2).waddr(Mode::Single), 0x0D);
    assert_eq!(Register::Config(Config::FREQ2).raddr(Mode::Burst), 0xCD);
    assert_eq!(Register::Status(Status::PARTNUM).raddr(Mode::Single), 0xF0);
    assert_eq!(Register::Status(Status::RXBYTES).raddr(Mode::Single), 0xFB);
    assert_eq!(Register::Command(Command::SNOP).addr(Access::Write, Mode::Single), 0x3D);
    assert_eq!(Config::TEST0.addr(), 0x2E);
    assert_eq!(Config::MDMCFG4.reset(), 0x8C);
}

#[test]
fn frames_of_accesses() {
    assert_eq!(lowlevel::read_register_frame(Register::Config(Config::SYNC1)), vec![0x84, 0]);
    assert_eq!(lowlevel::write_register_frame(Register::Config(Config::SYNC1), 0xAB), vec![0x04, 0xAB]);
    assert_eq!(lowlevel::cmd_strobe_frame(Command::SRES), vec![0x30]);
    assert_eq!(lowlevel::read_fifo_frame(), vec![0xFF, 0, 0]);
    assert_eq!(lowlevel::access_fifo_frame(Access::Write), vec![0x7F]);
    assert_eq!(lowlevel::access_fifo_frame(Access::Read), vec![0xFF]);
}

#[test]
fn lowlevel_replies_set_the_status() {
    let mut ll = Cc1101::new();
    assert_eq!(ll.status, None);
    assert_eq!(ll.read_register(&vec![0x12, 0x34]), 0x34);
    assert_eq!(ll.status, Some(StatusByte::from_bits(0x12)));
    ll.write_cmd_strobe(Command::SIDLE, &vec![0x22]);
    assert_eq!(ll.status, None);
    ll.write_cmd_strobe(Command::SNOP, &vec![0x22]);
    assert_eq!(ll.status, Some(StatusByte::from_bits(0x22)));
    ll.write_register(&vec![0x01, 0x00]);
    assert_eq!(ll.status, Some(StatusByte::from_bits(0x01)));
    assert_eq!(ll.read_fifo(&vec![0x05, 10, 0x33]), (10, 0x33));
    assert_eq!(ll.status, Some(StatusByte::from_bits(0x05)));
    ll.access_fifo(&vec![0x0A]);
    assert_eq!(ll.status, Some(StatusByte::from_bits(0x0A)));
    let upd = Update::field(Field::MagnTarget, 7);
    assert_eq!(ll.modify_register(|r| upd.apply(r), &vec![0x0B, 0xC0]), 0xC7);
    assert_eq!(ll.status, Some(StatusByte::from_bits(0x0B)));
}

#[test]
fn field_updates_set_one_field() {
    let u = Update::field(Field::ChanbwM, 0xFF);
    assert_eq!(u, Update { mask: 0x30, value: 0x30 });
    assert_eq!(u.apply(0x00), 0x30);
    assert_eq!(u.apply(0xFF), 0xFF);
    assert_eq!(Field::ChanbwM.read(u.apply(0x8C)), 3);
    let both = Update::field(Field::ChanbwM, 1).and(Field::ChanbwE, 2);
    assert_eq!(both.apply(0x8C), 0x9C);
    assert_eq!(Field::DrateE.read(0x8C), 0x0C);
    assert_eq!(Field::DrateM.read(0x22), 0x22);
    assert_eq!(Update::field(Field::DrateM, 0x83).apply(0x22), 0x83);
    assert_eq!(Field::FreqIf.reg(), Config::FSCTRL1);
}

#[test]
fn frequency_words() {
    assert_eq!(from_frequency(433_000_000), (0x62, 0xA7, 0x10));
    assert_eq!(from_frequency(868_000_000), (0x76, 0x62, 0x21));
    assert_eq!(from_frequency(902_000_000), (0x3B, 0xB1, 0x22));
    assert_eq!(from_frequency(918_000_000), (0xC4, 0x4E, 0x23));
    assert_eq!(from_frequency(0), (0, 0, 0));
    // no overflow for any input: u64::MAX * 2^16 / 26 MHz = 0xA137_8E7E_3CDD_CE33, low bytes kept
    let word: u128 = (u64::MAX as u128) * 65536 / 26_000_000;
    assert_eq!(
        from_frequency(u64::MAX),
        ((word % 256) as u8, ((word >> 8) % 256) as u8, ((word >> 16) % 256) as u8)
    );
}

#[test]
fn intermediate_frequency() {
    assert_eq!(from_freq_if(203_125), 8);
    assert_eq!(from_freq_if(381_000), 15);
    assert_eq!(from_freq_if(0), 0);
    assert_eq!(from_freq_if(u64::MAX), (((u64::MAX as u128) * 1024 / 26_000_000) % 256) as u8);
}

#[test]
fn deviation_settings() {
    // 26 MHz / 2^17 * (8 + m) * 2^e, rounded up to a whole Hertz, for every setting
    for e in 0..8u32 {
        for m in 0..8u64 {
            let num = 26_000_000u64 * (8 + m) << e;
            let hz = (num + (1 << 17) - 1) >> 17;
            assert_eq!(from_deviation(hz), (m as u8, e as u8));
        }
    }
    assert_eq!(from_deviation(0), (0, 0));
    assert_eq!(from_deviation(1_000_000), (7, 7));
    assert_eq!(from_deviation(u64::MAX), (7, 7));
}

#[test]
fn data_rate_settings() {
    assert_eq!(from_drate(38_384), (131, 10));
    // below DRATE_E = 4 one baud spans several settings
    for e in 4..16u32 {
        for m in [0u64, 1, 100, 255] {
            let num = (26_000_000u64 * (256 + m)) << e;
            let baud = (num + (1 << 28) - 1) >> 28;
            assert_eq!(from_drate(baud), (m as u8, e as u8));
        }
    }
    assert_eq!(from_drate(0), (0, 0));
    assert_eq!(from_drate(10_000_000), (255, 15));
    assert_eq!(from_drate(u64::MAX), (255, 15));
}

#[test]
fn channel_bandwidth_settings() {
    // BW = 26 MHz / (8 * (4 + m) * 2^e)
    for e in 0..4u32 {
        for m in 0..4u64 {
            let bw = 26_000_000 / (8 * (4 + m) << e);
            assert_eq!(from_chanbw(bw), (m as u8, e as u8));
        }
    }
    assert_eq!(from_chanbw(812_500), (0, 0));
    assert_eq!(from_chanbw(2_000_000), (0, 0));
    assert_eq!(from_chanbw(1_000), (3, 3));
    assert_eq!(from_chanbw(u64::MAX), (0, 0));
    assert_eq!(from_chanbw(1), (3, 3));
}

#[test]
fn rssi_conversion() {
    assert_eq!(from_rssi_to_rssi_dbm(0x00), -74);
    assert_eq!(from_rssi_to_rssi_dbm(0x01), -74);
    assert_eq!(from_rssi_to_rssi_dbm(0x02), -73);
    assert_eq!(from_rssi_to_rssi_dbm(0x7F), -11);
    assert_eq!(from_rssi_to_rssi_dbm(0x80), -138);
    assert_eq!(from_rssi_to_rssi_dbm(0xFF), -74);
    assert_eq!(from_rssi_to_rssi_dbm(0xFE), -75);
}

#[test]
fn machine_states_round_trip() {
    for v in 0..=255u8 {
        match MachineState::from_marc_state(v) {
            Ok(s) => {
                assert!(v < 23);
                assert_eq!(s.encoding(), v);
            }
            Err(e) => {
                assert!(v >= 23);
                assert_eq!(e, cc1101::lowlevel::types::MachineStateError::InvalidState(v));
            }
        }
    }
    assert_eq!(MachineState::from_marc_state(0x16), Ok(MachineState::TXFIFO_UNDERFLOW));
}

#[test]
fn decoders() {
    assert_eq!(decode_tx_bytes::<()>(0x40), Ok(0x40));
    assert_eq!(decode_tx_bytes::<()>(0xC0), Err(Error::TxUnderflow));
    assert_eq!(decode_rx_bytes::<()>(0x00), Ok(0));
    assert_eq!(decode_rx_bytes::<()>(0x81), Err(Error::RxOverflow));
    assert_eq!(decode_machine_state::<()>(0x33), Ok(MachineState::TX));
    assert_eq!(decode_machine_state::<()>(0x1E), Err(Error::InvalidState(0x1E)));
    assert_eq!(crc_checked_length::<()>(0x80, 12), Ok(12));
    assert_eq!(crc_checked_length::<()>(0x7F, 12), Err(Error::CrcMismatch));
    assert_eq!(lqi_value(0xFF), 0x7F);
    assert_eq!(lqi_value(0x05), 0x05);
}

#[test]
fn wait_decisions() {
    type D = cc1101::Cc1101<()>;
    assert_eq!(D::await_machine_state(MachineState::IDLE, 0x01), Ok(true));
    assert_eq!(D::await_machine_state(MachineState::IDLE, 0x0D), Ok(false));
    assert_eq!(D::await_machine_state(MachineState::IDLE, 0x17), Err(Error::InvalidState(0x17)));
    assert_eq!(D::rx_bytes_available(0, 0), Ok(None));
    assert_eq!(D::rx_bytes_available(0, 4), Ok(None));
    assert_eq!(D::rx_bytes_available(4, 4), Ok(Some(4)));
    assert_eq!(D::rx_bytes_available(3, 4), Ok(None));
    assert_eq!(D::rx_bytes_available(4, 0x84), Err(Error::RxOverflow));
}

#[test]
fn conversions_between_types() {
    assert_eq!(StatusByte::from(0x5A), StatusByte::from_bits(0x5A));
    assert_eq!(StatusByte::from(0x5A).bits(), 0x5A);
    assert_eq!(MachineState::try_from(0x13u8), Ok(MachineState::TX));
    assert_eq!(
        MachineState::try_from(0x17u8),
        Err(cc1101::lowlevel::types::MachineStateError::InvalidState(0x17))
    );
    let r: Register = Config::ADDR.into();
    assert_eq!(r, Register::Config(Config::ADDR));
    let r: Register = Status::LQI.into();
    assert_eq!(r, Register::Status(Status::LQI));
    let r: Register = Command::SNOP.into();
    assert_eq!(r, Register::Command(Command::SNOP));
    let r: Register = cc1101::lowlevel::registers::MultiByte::FIFO.into();
    assert_eq!(r.raddr(Mode::Burst), 0xFF);
    let e: Error<&str> = Error::from("bus");
    assert_eq!(e, Error::Spi("bus"));
}

#[test]
fn error_messages() {
    assert_eq!(Error::<()>::TxUnderflow.message(), "TX FIFO buffer underflowed");
    assert_eq!(Error::<()>::RxOverflow.message(), "RX FIFO buffer overflowed");
    assert_eq!(Error::<()>::CrcMismatch.message(), "CRC mismatch");
    assert_eq!(Error::<()>::InvalidState(30).message(), "Invalid state: ");
    assert_eq!(Error::Spi(()).message(), "SPI error: ");
}
