use sx126x_spi_buffers::commands::{
    Bw, ClearDeviceErrors, ClearIrqStatus, Command, Cr, GetDeviceErrors, GetIrqStatus,
    GetPacketStatusLora, GetPacketType, GetRxBufferStatus, GetStatsLora, GetStatus, HeaderType,
    InvertIq, Irq, OpError, PacketType, RampTime, ReadBuffer, ReadRegister, ResetStats,
    SetBufferBaseAddress, SetDio2AsRfSwitchCtrl, SetDio3AsTcxoCtrl, SetDioIrqParams,
    SetLoraSymbNumTimeout, SetModulationParamsLora, SetPaConfig, SetPacketParams, SetPacketType,
    SetRfFrequency, SetRx, SetSleep, SetStandby, SetTx, SetTxParams, Sf, SleepConfig,
    StatusChipMode, StatusCommandStatus, StdbyConfig, TcxoVoltage, WriteBuffer, WriteRegister,
};
use sx126x_spi_buffers::registers::{LoraSyncWordLsb, LoraSyncWordMsb};

#[test]
fn set_sleep_warm_start() {
    let cmd = SetSleep::new(SleepConfig::new().with_warm_start(true));
    assert_eq!(*cmd.tx_buf(), [0x84, 0x04]);
    assert_eq!(*cmd.rx_buf(), [0, 0]);
    assert_eq!(cmd.transfer_size(), 2);
}

#[test]
fn set_sleep_cold_start() {
    let cmd = SetSleep::new(SleepConfig::new());
    assert_eq!(*cmd.tx_buf(), [0x84, 0x00]);
}

#[test]
fn set_standby_xosc() {
    let cmd = SetStandby::new(StdbyConfig::StdbyXosc);
    assert_eq!(*cmd.tx_buf(), [0x80, 0x01]);
    assert_eq!(*cmd.rx_buf(), [0, 0]);
    assert_eq!(cmd.transfer_size(), 2);
}

#[test]
fn set_tx_timeout() {
    let cmd = SetTx::new(6862921);
    assert_eq!(*cmd.tx_buf(), [0x83, 0x68, 0xB8, 0x49]);
    assert_eq!(*cmd.rx_buf(), [0; 4]);
    assert_eq!(cmd.transfer_size(), 4);
}

#[test]
fn set_tx_timeout_drops_top_byte() {
    let cmd = SetTx::new(0xAB12_3456);
    assert_eq!(*cmd.tx_buf(), [0x83, 0x12, 0x34, 0x56]);
}

#[test]
fn set_rx_timeout() {
    let cmd = SetRx::new(120);
    assert_eq!(*cmd.tx_buf(), [0x82, 0, 0, 120]);
    assert_eq!(*cmd.rx_buf(), [0; 4]);
    assert_eq!(cmd.transfer_size(), 4);
}

#[test]
fn set_pa_config() {
    let cmd = SetPaConfig::new(0x04, 0x07);
    assert_eq!(*cmd.tx_buf(), [0x95, 0x04, 0x07, 0x00, 0x01]);
    assert_eq!(cmd.transfer_size(), 5);
}

#[test]
fn write_register_sync_word() {
    let cmd = WriteRegister::new(LoraSyncWordMsb(0x48));
    assert_eq!(*cmd.tx_buf(), [0x0D, 0x07, 0x40, 0x48]);
    assert_eq!(*cmd.rx_buf(), [0; 4]);
    assert_eq!(cmd.transfer_size(), 4);
}

#[test]
fn read_register_sync_word() {
    let mut cmd: ReadRegister<LoraSyncWordLsb> = ReadRegister::new();
    assert_eq!(*cmd.tx_buf(), [0x1D, 0x07, 0x41, 0, 0]);
    assert_eq!(*cmd.rx_buf(), [0; 5]);
    assert_eq!(cmd.transfer_size(), 5);
    let mut rx = *cmd.rx_buf();
    rx[4] = 0x86;
    cmd.set_rx_buf(rx);
    assert_eq!(cmd.register(), LoraSyncWordLsb(0x86));
    assert_eq!(*cmd.tx_buf(), [0x1D, 0x07, 0x41, 0, 0]);
}

#[test]
fn write_buffer_hello() {
    let mut cmd: WriteBuffer<7> = WriteBuffer::new(0x10, [b'h', b'e', b'l', b'l', b'o']);
    assert_eq!(*cmd.tx_buf(), [0x0E, 0x10, b'h', b'e', b'l', b'l', b'o']);
    assert_eq!(*cmd.rx_buf(), [0; 7]);
    assert_eq!(cmd.transfer_size(), 7);
    cmd.set_data_length(3);
    assert_eq!(cmd.transfer_size(), 5);
    assert_eq!(*cmd.tx_buf(), [0x0E, 0x10, b'h', b'e', b'l', b'l', b'o']);
    assert_eq!(cmd.tx_buf().len(), 7);
    cmd.set_data_length(0);
    assert_eq!(cmd.transfer_size(), 2);
    cmd.set_data_length(5);
    assert_eq!(cmd.transfer_size(), 7);
}

#[test]
fn read_buffer_hello() {
    let mut cmd: ReadBuffer<8> = ReadBuffer::new(0x17);
    assert_eq!(*cmd.tx_buf(), [0x1E, 0x17, 0, 0, 0, 0, 0, 0]);
    assert_eq!(*cmd.rx_buf(), [0; 8]);
    assert_eq!(cmd.transfer_size(), 8);
    let mut rx = *cmd.rx_buf();
    rx[3..8].copy_from_slice(&[b'h', b'e', b'l', b'l', b'o']);
    cmd.set_rx_buf(rx);
    assert_eq!(cmd.data(), &[b'h', b'e', b'l', b'l', b'o']);
    cmd.set_data_length(3);
    assert_eq!(cmd.transfer_size(), 6);
    assert_eq!(cmd.data(), &[b'h', b'e', b'l']);
    assert_eq!(*cmd.rx_buf(), [0, 0, 0, b'h', b'e', b'l', b'l', b'o']);
}

#[test]
fn read_buffer_empty_payload() {
    let cmd: ReadBuffer<3> = ReadBuffer::new(0xFF);
    assert_eq!(*cmd.tx_buf(), [0x1E, 0xFF, 0]);
    assert_eq!(cmd.transfer_size(), 3);
    assert_eq!(cmd.data(), &[] as &[u8]);
}

#[test]
fn set_dio_irq_params() {
    let cmd = SetDioIrqParams::new(
        Irq::new().with_tx_done(true),
        Irq::new().with_rx_done(true),
        Irq::new().with_timeout(true),
        Irq::new(),
    );
    assert_eq!(*cmd.tx_buf(), [0x08, 0, 1, 0, 2, 2, 0, 0, 0]);
    assert_eq!(*cmd.rx_buf(), [0; 9]);
    assert_eq!(cmd.transfer_size(), 9);
}

#[test]
fn get_irq_status() {
    let mut cmd = GetIrqStatus::new();
    assert_eq!(*cmd.tx_buf(), [0x12, 0, 0, 0]);
    assert_eq!(*cmd.rx_buf(), [0; 4]);
    cmd.set_rx_buf([0, 0, 0, 0x03]);
    assert_eq!(
        cmd.irq_status(),
        Irq::new().with_tx_done(true).with_rx_done(true).with_timeout(false)
    );
}

#[test]
fn get_irq_status_high_byte() {
    let mut cmd = GetIrqStatus::new();
    cmd.set_rx_buf([0xA2, 0xFF, 0x42, 0x00]);
    assert_eq!(cmd.irq_status(), Irq::new().with_timeout(true).with_lr_fhss_hop(true));
}

#[test]
fn clear_irq_status() {
    let cmd = ClearIrqStatus::new(Irq::new().with_header_valid(true).with_timeout(true));
    assert_eq!(*cmd.tx_buf(), [0x02, 2, 16]);
    assert_eq!(*cmd.rx_buf(), [0; 3]);
    assert_eq!(cmd.transfer_size(), 3);
}

#[test]
fn set_dio2_as_rf_switch_ctrl() {
    let cmd = SetDio2AsRfSwitchCtrl::new(true);
    assert_eq!(*cmd.tx_buf(), [0x9D, 1]);
    assert_eq!(*cmd.rx_buf(), [0; 2]);
    assert_eq!(cmd.transfer_size(), 2);
    assert_eq!(*SetDio2AsRfSwitchCtrl::new(false).tx_buf(), [0x9D, 0]);
}

#[test]
fn set_dio3_as_tcxo_ctrl() {
    let cmd = SetDio3AsTcxoCtrl::new(TcxoVoltage::V3_3, 3500);
    assert_eq!(*cmd.tx_buf(), [0x97, 7, 0, 13, 172]);
    assert_eq!(*cmd.rx_buf(), [0; 5]);
    assert_eq!(cmd.transfer_size(), 5);
}

#[test]
fn set_rf_frequency() {
    let cmd = SetRfFrequency::new(455_081_984);
    assert_eq!(*cmd.tx_buf(), [0x86, 0x1B, 0x20, 0, 0]);
    assert_eq!(*cmd.rx_buf(), [0; 5]);
    assert_eq!(cmd.transfer_size(), 5);
}

#[test]
fn set_packet_type() {
    let cmd = SetPacketType::new(PacketType::Lora);
    assert_eq!(*cmd.tx_buf(), [0x8A, 0x01]);
    assert_eq!(*cmd.rx_buf(), [0; 2]);
    assert_eq!(cmd.transfer_size(), 2);
}

#[test]
fn get_packet_type() {
    let mut cmd = GetPacketType::new();
    assert_eq!(*cmd.tx_buf(), [0x11, 0, 0]);
    assert_eq!(*cmd.rx_buf(), [0; 3]);
    assert_eq!(cmd.transfer_size(), 3);
    assert_eq!(cmd.packet_type(), PacketType::Gfsk);
    cmd.set_rx_buf([0, 0, 0xFF]);
    assert_eq!(cmd.packet_type(), PacketType::LrFhss);
}

#[test]
fn set_tx_params() {
    let cmd = SetTxParams::new(22, RampTime::Ramp200U);
    assert_eq!(*cmd.tx_buf(), [0x8E, 22, 4]);
    assert_eq!(*cmd.rx_buf(), [0; 3]);
    assert_eq!(cmd.transfer_size(), 3);
}

#[test]
fn set_modulation_params_lora() {
    let cmd = SetModulationParamsLora::new(Sf::Sf10, Bw::Bw125, Cr::Cr4_5, false);
    assert_eq!(*cmd.tx_buf(), [0x8B, 0x0A, 0x04, 0x01, 0]);
    assert_eq!(*cmd.rx_buf(), [0; 5]);
    assert_eq!(cmd.transfer_size(), 5);
    let cmd = SetModulationParamsLora::new(Sf::Sf12, Bw::Bw41_67, Cr::Cr4_8Li, true);
    assert_eq!(*cmd.tx_buf(), [0x8B, 0x0C, 0x0A, 0x07, 1]);
}

#[test]
fn set_packet_params() {
    let cmd = SetPacketParams::new(8, HeaderType::VariableLength, 14, false, InvertIq::Standard);
    assert_eq!(*cmd.tx_buf(), [0x8C, 0, 8, 0, 14, 0, 0]);
    assert_eq!(*cmd.rx_buf(), [0; 7]);
    assert_eq!(cmd.transfer_size(), 7);
    let cmd = SetPacketParams::new(0x1234, HeaderType::FixedLength, 255, true, InvertIq::Inverted);
    assert_eq!(*cmd.tx_buf(), [0x8C, 0x12, 0x34, 1, 255, 1, 1]);
}

#[test]
fn set_buffer_base_address() {
    let cmd = SetBufferBaseAddress::new(0x00, 0x80);
    assert_eq!(*cmd.tx_buf(), [0x8F, 0, 128]);
    assert_eq!(*cmd.rx_buf(), [0; 3]);
    assert_eq!(cmd.transfer_size(), 3);
}

#[test]
fn set_lora_symb_num_timeout() {
    let cmd = SetLoraSymbNumTimeout::new(5);
    assert_eq!(*cmd.tx_buf(), [0xA0, 5]);
    assert_eq!(*cmd.rx_buf(), [0; 2]);
    assert_eq!(cmd.transfer_size(), 2);
}

#[test]
fn get_status() {
    let mut cmd = GetStatus::new();
    assert_eq!(*cmd.tx_buf(), [0xC0, 0]);
    assert_eq!(*cmd.rx_buf(), [0; 2]);
    assert_eq!(cmd.transfer_size(), 2);
    cmd.set_rx_buf([0, 0x64]);
    assert_eq!(cmd.chip_mode(), StatusChipMode::Tx);
    assert_eq!(cmd.command_status(), StatusCommandStatus::DataIsAvailableToHost);
}

#[test]
fn get_status_three_bit_command_status() {
    let mut cmd = GetStatus::new();
    cmd.set_rx_buf([0, 0x2A]);
    assert_eq!(cmd.chip_mode(), StatusChipMode::StbyRc);
    assert_eq!(cmd.command_status(), StatusCommandStatus::FailureToExecuteCommand);
    cmd.set_rx_buf([0, 0xFF]);
    assert_eq!(cmd.chip_mode(), StatusChipMode::Reserved2);
    assert_eq!(cmd.command_status(), StatusCommandStatus::Reserved3);
}

#[test]
fn get_rx_buffer_status() {
    let mut cmd = GetRxBufferStatus::new();
    assert_eq!(*cmd.tx_buf(), [0x13, 0, 0, 0]);
    assert_eq!(*cmd.rx_buf(), [0; 4]);
    assert_eq!(cmd.transfer_size(), 4);
    cmd.set_rx_buf([0, 0, 16, 8]);
    assert_eq!(cmd.payload_length_rx(), 16);
    assert_eq!(cmd.rx_start_buffer_pointer(), 8);
}

#[test]
fn get_packet_status_lora() {
    let mut cmd = GetPacketStatusLora::new();
    assert_eq!(*cmd.tx_buf(), [0x14, 0, 0, 0, 0]);
    assert_eq!(*cmd.rx_buf(), [0; 5]);
    assert_eq!(cmd.transfer_size(), 5);
    cmd.set_rx_buf([0, 0, 184, 0b1111_1100, 162]);
    assert_eq!(cmd.rssi_pkt(), -92);
    assert_eq!(cmd.snr_pkt(), -1);
    assert_eq!(cmd.signal_rssi_pkt(), -81);
}

#[test]
fn get_packet_status_lora_extremes() {
    let mut cmd = GetPacketStatusLora::new();
    cmd.set_rx_buf([0, 0, 255, 0x80, 0]);
    assert_eq!(cmd.rssi_pkt(), -127);
    assert_eq!(cmd.snr_pkt(), -32);
    assert_eq!(cmd.signal_rssi_pkt(), 0);
    cmd.set_rx_buf([0, 0, 1, 0x7F, 3]);
    assert_eq!(cmd.rssi_pkt(), 0);
    assert_eq!(cmd.snr_pkt(), 31);
    assert_eq!(cmd.signal_rssi_pkt(), -1);
}

#[test]
fn snr_truncates_toward_zero() {
    let mut cmd = GetPacketStatusLora::new();
    cmd.set_rx_buf([0, 0, 0, 0xFB, 0]);
    assert_eq!(cmd.snr_pkt(), -1);
    cmd.set_rx_buf([0, 0, 0, 0xF9, 0]);
    assert_eq!(cmd.snr_pkt(), -1);
    cmd.set_rx_buf([0, 0, 0, 0xF8, 0]);
    assert_eq!(cmd.snr_pkt(), -2);
    cmd.set_rx_buf([0, 0, 0, 0x07, 0]);
    assert_eq!(cmd.snr_pkt(), 1);
}

#[test]
fn get_stats_lora() {
    let mut cmd = GetStatsLora::new();
    assert_eq!(*cmd.tx_buf(), [0x10, 0, 0, 0, 0, 0, 0, 0]);
    assert_eq!(*cmd.rx_buf(), [0; 8]);
    assert_eq!(cmd.transfer_size(), 8);
    cmd.set_rx_buf([0, 0, 0x51, 0x18, 0x03, 0x15, 0x55, 0x81]);
    assert_eq!(cmd.nb_pkt_received(), 0x5118);
    assert_eq!(cmd.nb_pkt_crc_error(), 0x0315);
    assert_eq!(cmd.nb_pkt_header_err(), 0x5581);
}

#[test]
fn reset_stats() {
    let cmd = ResetStats::new();
    assert_eq!(*cmd.tx_buf(), [0x00, 0, 0, 0, 0, 0, 0]);
    assert_eq!(*cmd.rx_buf(), [0; 7]);
    assert_eq!(cmd.transfer_size(), 7);
}

#[test]
fn get_device_errors() {
    let mut cmd = GetDeviceErrors::new();
    assert_eq!(*cmd.tx_buf(), [0x17, 0, 0, 0]);
    assert_eq!(*cmd.rx_buf(), [0; 4]);
    assert_eq!(cmd.transfer_size(), 4);
    cmd.set_rx_buf([0, 0, 0x01, 0x58]);
    assert_eq!(
        cmd.op_error(),
        OpError::new()
            .with_pa_ramp_err(true)
            .with_pll_lock_err(true)
            .with_img_calib_err(true)
            .with_adc_calib_err(true)
            .with_xosc_start_err(false)
    );
}

#[test]
fn clear_device_errors() {
    let cmd = ClearDeviceErrors::new();
    assert_eq!(*cmd.tx_buf(), [0x07, 0, 0]);
    assert_eq!(*cmd.rx_buf(), [0; 3]);
    assert_eq!(cmd.transfer_size(), 3);
}

fn frame_of<const N: usize, C: Command<N>>(cmd: &C) -> (u8, u8, usize, usize, u16) {
    (C::opcode(), cmd.tx_buf()[0], cmd.tx_buf().len(), cmd.rx_buf().len(), cmd.transfer_size())
}

#[test]
fn opcode_table() {
    let frames = [
        frame_of(&ResetStats::new()),
        frame_of(&ClearIrqStatus::new(Irq::new())),
        frame_of(&SetStandby::new(StdbyConfig::StdbyRc)),
        frame_of(&SetRx::new(0)),
        frame_of(&SetTx::new(0)),
        frame_of(&SetSleep::new(SleepConfig::new())),
        frame_of(&SetRfFrequency::new(0)),
        frame_of(&SetPacketType::new(PacketType::Gfsk)),
        frame_of(&SetModulationParamsLora::new(Sf::Sf7, Bw::Bw125, Cr::Cr4_5, false)),
        frame_of(&SetPacketParams::new(8, HeaderType::VariableLength, 1, true, InvertIq::Standard)),
        frame_of(&SetTxParams::new(0, RampTime::Ramp10U)),
        frame_of(&SetBufferBaseAddress::new(0, 0)),
        frame_of(&WriteRegister::new(LoraSyncWordMsb(0))),
        frame_of(&GetStatus::new()),
        frame_of(&GetPacketType::new()),
        frame_of(&GetIrqStatus::new()),
        frame_of(&GetRxBufferStatus::new()),
        frame_of(&GetPacketStatusLora::new()),
        frame_of(&GetDeviceErrors::new()),
        frame_of(&ReadRegister::<LoraSyncWordMsb>::new()),
        frame_of(&ClearDeviceErrors::new()),
        frame_of(&SetDioIrqParams::new(Irq::new(), Irq::new(), Irq::new(), Irq::new())),
        frame_of(&GetStatsLora::new()),
        frame_of(&SetLoraSymbNumTimeout::new(0)),
        frame_of(&SetDio2AsRfSwitchCtrl::new(false)),
        frame_of(&SetDio3AsTcxoCtrl::new(TcxoVoltage::V1_6, 0)),
        frame_of(&SetPaConfig::new(0, 0)),
    ];
    let expected: [(u8, usize); 27] = [
        (0x00, 7),
        (0x02, 3),
        (0x80, 2),
        (0x82, 4),
        (0x83, 4),
        (0x84, 2),
        (0x86, 5),
        (0x8A, 2),
        (0x8B, 5),
        (0x8C, 7),
        (0x8E, 3),
        (0x8F, 3),
        (0x0D, 4),
        (0xC0, 2),
        (0x11, 3),
        (0x12, 4),
        (0x13, 4),
        (0x14, 5),
        (0x17, 4),
        (0x1D, 5),
        (0x07, 3),
        (0x08, 9),
        (0x10, 8),
        (0xA0, 2),
        (0x9D, 2),
        (0x97, 5),
        (0x95, 5),
    ];
    for (frame, (opcode, len)) in frames.iter().zip(expected.iter()) {
        assert_eq!(frame.0, *opcode);
        assert_eq!(frame.1, *opcode);
        assert_eq!(frame.2, *len);
        assert_eq!(frame.3, *len);
        assert_eq!(frame.4 as usize, *len);
    }
    let wb: WriteBuffer<4> = WriteBuffer::new(0, [1, 2]);
    assert_eq!(frame_of(&wb), (0x0E, 0x0E, 4, 4, 4));
    let rb: ReadBuffer<4> = ReadBuffer::new(0);
    assert_eq!(frame_of(&rb), (0x1E, 0x1E, 4, 4, 4));
}
