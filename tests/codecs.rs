use sx126x_spi_buffers::bitfields::{Irq, OpError, SleepConfig};
use sx126x_spi_buffers::params::{
    Bw, Cr, HeaderType, InvertIq, PacketType, RampTime, Sf, StatusChipMode, StatusCommandStatus,
    StdbyConfig, TcxoVoltage,
};
use sx126x_spi_buffers::registers::{LoraSyncWordLsb, LoraSyncWordMsb, Register};

#[test]
fn sleep_config_round_trip() {
    for warm_start in [false, true] {
        let c = SleepConfig::new().with_warm_start(warm_start);
        assert_eq!(SleepConfig::from_bits(c.into_bits()), c);
    }
    assert_eq!(SleepConfig::new().with_warm_start(true).into_bits(), 0x04);
    assert_eq!(SleepConfig::from_bits(0xFF).into_bits(), 0x04);
    assert_eq!(SleepConfig::from_bits(0xFB).into_bits(), 0x00);
    assert!(SleepConfig::from_bits(0x04).warm_start);
}

#[test]
fn irq_round_trip() {
    let irq = Irq::new()
        .with_tx_done(true)
        .with_preamble_detected(true)
        .with_header_valid(true)
        .with_crc_err(true)
        .with_cad_detected(true)
        .with_lr_fhss_hop(true);
    assert_eq!(irq.into_bits(), 0x4155);
    assert_eq!(Irq::from_bits(irq.into_bits()), irq);
    let other = Irq::new()
        .with_rx_done(true)
        .with_sync_word_valid(true)
        .with_header_err(true)
        .with_cad_done(true)
        .with_timeout(true);
    assert_eq!(other.into_bits(), 0x02AA);
    assert_eq!(Irq::from_bits(other.into_bits()), other);
    assert_eq!(Irq::new().into_bits(), 0);
}

#[test]
fn irq_reserved_bits_read_as_zero() {
    assert_eq!(Irq::from_bits(0xFFFF).into_bits(), 0x43FF);
    assert_eq!(Irq::from_bits(0xBC00), Irq::new());
}

#[test]
fn op_error_round_trip() {
    let e = OpError::new()
        .with_rc64k_calib_err(true)
        .with_rc13m_calib_err(true)
        .with_pll_calib_err(true)
        .with_xosc_start_err(true)
        .with_pa_ramp_err(true);
    assert_eq!(e.into_bits(), 0x0127);
    assert_eq!(OpError::from_bits(e.into_bits()), e);
    assert_eq!(OpError::from_bits(0xFFFF).into_bits(), 0x017F);
    assert_eq!(OpError::from_bits(0xFE80), OpError::new());
}

#[test]
fn enum_codes() {
    assert_eq!(StdbyConfig::StdbyRc.bits(), 0);
    assert_eq!(StdbyConfig::StdbyXosc.bits(), 1);
    assert_eq!(TcxoVoltage::V1_6.bits(), 0);
    assert_eq!(TcxoVoltage::V2_4.bits(), 4);
    assert_eq!(TcxoVoltage::V3_3.bits(), 7);
    assert_eq!(Bw::Bw7_8.bits(), 0x00);
    assert_eq!(Bw::Bw10_42.bits(), 0x08);
    assert_eq!(Bw::Bw20_83.bits(), 0x09);
    assert_eq!(Bw::Bw500.bits(), 0x06);
    assert_eq!(Sf::Sf5.bits(), 5);
    assert_eq!(Cr::Cr4_8Li.bits(), 7);
}

#[test]
fn enum_decoding_masks_to_width() {
    assert_eq!(PacketType::from(0x07), PacketType::LrFhss);
    assert_eq!(PacketType::from(0x06), PacketType::Reserved);
    assert_eq!(RampTime::from(0x0C), RampTime::Ramp200U);
    assert_eq!(Sf::from(0x1C), Sf::Sf12);
    assert_eq!(Sf::from(0xF0), Sf::Reserved1);
    assert_eq!(Bw::from(0x18), Bw::Bw10_42);
    assert_eq!(Bw::from(0x07), Bw::Reserved6);
    assert_eq!(Bw::from(0xFF), Bw::Reserved5);
    assert_eq!(Cr::from(0x0D), Cr::Cr4_5Li);
    assert_eq!(HeaderType::from(0x03), HeaderType::FixedLength);
    assert_eq!(InvertIq::from(0x02), InvertIq::Standard);
    assert_eq!(StatusChipMode::extract(0x50), StatusChipMode::Rx);
    assert_eq!(StatusChipMode::extract(0x8F), StatusChipMode::Unused);
    assert_eq!(StatusCommandStatus::extract(0x0E), StatusCommandStatus::Reserved3);
    assert_eq!(StatusCommandStatus::extract(0x06), StatusCommandStatus::CommandTimeout);
    assert_eq!(StatusCommandStatus::extract(0xF1), StatusCommandStatus::Reserved1);
}

#[test]
fn every_masked_code_round_trips() {
    for v in 0..=255u8 {
        assert_eq!(PacketType::from(v).bits(), v & 0x03);
        assert_eq!(RampTime::from(v).bits(), v & 0x07);
        assert_eq!(Sf::from(v).bits(), v & 0x0F);
        assert_eq!(Bw::from(v).bits(), v & 0x0F);
        assert_eq!(Cr::from(v).bits(), v & 0x07);
        assert_eq!(HeaderType::from(v).bits(), v & 0x01);
        assert_eq!(InvertIq::from(v).bits(), v & 0x01);
        assert_eq!(StatusChipMode::extract(v).bits(), (v >> 4) & 0x07);
        assert_eq!(StatusCommandStatus::extract(v).bits(), (v >> 1) & 0x07);
    }
}

#[test]
fn register_addresses() {
    assert_eq!(LoraSyncWordMsb::address(), 0x0740);
    assert_eq!(LoraSyncWordLsb::address(), 0x0741);
}

#[test]
fn register_round_trip() {
    for v in 0..=255u8 {
        assert_eq!(LoraSyncWordMsb::from_bits(v).bits(), v);
        assert_eq!(LoraSyncWordMsb::from_bits(LoraSyncWordMsb(v).bits()), LoraSyncWordMsb(v));
        assert_eq!(LoraSyncWordLsb::from_bits(v).bits(), v);
        assert_eq!(LoraSyncWordLsb::from_bits(LoraSyncWordLsb(v).bits()), LoraSyncWordLsb(v));
    }
}
