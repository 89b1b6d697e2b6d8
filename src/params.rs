//! Enumerated parameters of the command set. Each one is sent as its code;
//! decoding masks a raw byte to the field's width first, and every masked
//! value names a member, reserved codes included.
use vstd::prelude::*;

verus! {

/// Standby mode: the RC oscillator or the crystal oscillator keeps running.
#[derive(Clone, Copy, Debug, PartialEq, Eq, Structural)]
pub enum StdbyConfig {
    StdbyRc,
    StdbyXosc,
}

impl StdbyConfig {
    /// The code this member is sent as.
    pub open spec fn spec_bits(self) -> u8 {
        match self {
            StdbyConfig::StdbyRc => 0x00,
            StdbyConfig::StdbyXosc => 0x01,
        }
    }

    /// The code this member is sent as.
    pub fn bits(self) -> (r: u8)
        ensures
            r == self.spec_bits(),
    {
        match self {
            StdbyConfig::StdbyRc => 0x00,
            StdbyConfig::StdbyXosc => 0x01,
        }
    }
}

/// Supply voltage that DIO3 drives an external TCXO with.
#[derive(Clone, Copy, Debug, PartialEq, Eq, Structural)]
pub enum TcxoVoltage {
    V1_6,
    V1_7,
    V1_8,
    V2_2,
    V2_4,
    V2_7,
    V3_0,
    V3_3,
}

impl TcxoVoltage {
    /// The code this member is sent as.
    pub open spec fn spec_bits(self) -> u8 {
        match self {
            TcxoVoltage::V1_6 => 0x00,
            TcxoVoltage::V1_7 => 0x01,
            TcxoVoltage::V1_8 => 0x02,
            TcxoVoltage::V2_2 => 0x03,
            TcxoVoltage::V2_4 => 0x04,
            TcxoVoltage::V2_7 => 0x05,
            TcxoVoltage::V3_0 => 0x06,
            TcxoVoltage::V3_3 => 0x07,
        }
    }

    /// The code this member is sent as.
    pub fn bits(self) -> (r: u8)
        ensures
            r == self.spec_bits(),
    {
        match self {
            TcxoVoltage::V1_6 => 0x00,
            TcxoVoltage::V1_7 => 0x01,
            TcxoVoltage::V1_8 => 0x02,
            TcxoVoltage::V2_2 => 0x03,
            TcxoVoltage::V2_4 => 0x04,
            TcxoVoltage::V2_7 => 0x05,
            TcxoVoltage::V3_0 => 0x06,
            TcxoVoltage::V3_3 => 0x07,
        }
    }
}

/// Modem selected for packets.
#[derive(Clone, Copy, Debug, PartialEq, Eq, Structural)]
pub enum PacketType {
    Gfsk,
    Lora,
    Reserved,
    LrFhss,
}

impl PacketType {
    /// The code this member is sent as.
    pub open spec fn spec_bits(self) -> u8 {
        match self {
            PacketType::Gfsk => 0x00,
            PacketType::Lora => 0x01,
            PacketType::Reserved => 0x02,
            PacketType::LrFhss => 0x03,
        }
    }

    /// The code this member is sent as.
    pub fn bits(self) -> (r: u8)
        ensures
            r == self.spec_bits(),
    {
        match self {
            PacketType::Gfsk => 0x00,
            PacketType::Lora => 0x01,
            PacketType::Reserved => 0x02,
            PacketType::LrFhss => 0x03,
        }
    }

    /// The member whose code is `value` masked to the field's width.
    pub fn from(value: u8) -> (r: PacketType)
        ensures
            r.spec_bits() == value & 0x03,
    {
        let code: u8 = value & 0x03;
        assert(value & 0x03 <= 0x03) by (bit_vector);
        match code {
            0x00 => PacketType::Gfsk,
            0x01 => PacketType::Lora,
            0x02 => PacketType::Reserved,
            _ => PacketType::LrFhss,
        }
    }
}

/// Power amplifier ramp time, in microseconds.
#[derive(Clone, Copy, Debug, PartialEq, Eq, Structural)]
pub enum RampTime {
    Ramp10U,
    Ramp20U,
    Ramp40U,
    Ramp80U,
    Ramp200U,
    Ramp800U,
    Ramp1700U,
    Ramp3400U,
}

impl RampTime {
    /// The code this member is sent as.
    pub open spec fn spec_bits(self) -> u8 {
        match self {
            RampTime::Ramp10U => 0x00,
            RampTime::Ramp20U => 0x01,
            RampTime::Ramp40U => 0x02,
            RampTime::Ramp80U => 0x03,
            RampTime::Ramp200U => 0x04,
            RampTime::Ramp800U => 0x05,
            RampTime::Ramp1700U => 0x06,
            RampTime::Ramp3400U => 0x07,
        }
    }

    /// The code this member is sent as.
    pub fn bits(self) -> (r: u8)
        ensures
            r == self.spec_bits(),
    {
        match self {
            RampTime::Ramp10U => 0x00,
            RampTime::Ramp20U => 0x01,
            RampTime::Ramp40U => 0x02,
            RampTime::Ramp80U => 0x03,
            RampTime::Ramp200U => 0x04,
            RampTime::Ramp800U => 0x05,
            RampTime::Ramp1700U => 0x06,
            RampTime::Ramp3400U => 0x07,
        }
    }

    /// The member whose code is `value` masked to the field's width.
    pub fn from(value: u8) -> (r: RampTime)
        ensures
            r.spec_bits() == value & 0x07,
    {
        let code: u8 = value & 0x07;
        assert(value & 0x07 <= 0x07) by (bit_vector);
        match code {
            0x00 => RampTime::Ramp10U,
            0x01 => RampTime::Ramp20U,
            0x02 => RampTime::Ramp40U,
            0x03 => RampTime::Ramp80U,
            0x04 => RampTime::Ramp200U,
            0x05 => RampTime::Ramp800U,
            0x06 => RampTime::Ramp1700U,
            _ => RampTime::Ramp3400U,
        }
    }
}

/// LoRa spreading factor; codes outside 5 to 12 are reserved.
#[derive(Clone, Copy, Debug, PartialEq, Eq, Structural)]
pub enum Sf {
    Reserved1,
    Reserved2,
    Reserved3,
    Reserved4,
    Reserved5,
    Sf5,
    Sf6,
    Sf7,
    Sf8,
    Sf9,
    Sf10,
    Sf11,
    Sf12,
    Reserved6,
    Reserved7,
    Reserved8,
}

impl Sf {
    /// The code this member is sent as.
    pub open spec fn spec_bits(self) -> u8 {
        match self {
            Sf::Reserved1 => 0x00,
            Sf::Reserved2 => 0x01,
            Sf::Reserved3 => 0x02,
            Sf::Reserved4 => 0x03,
            Sf::Reserved5 => 0x04,
            Sf::Sf5 => 0x05,
            Sf::Sf6 => 0x06,
            Sf::Sf7 => 0x07,
            Sf::Sf8 => 0x08,
            Sf::Sf9 => 0x09,
            Sf::Sf10 => 0x0A,
            Sf::Sf11 => 0x0B,
            Sf::Sf12 => 0x0C,
            Sf::Reserved6 => 0x0D,
            Sf::Reserved7 => 0x0E,
            Sf::Reserved8 => 0x0F,
        }
    }

    /// The code this member is sent as.
    pub fn bits(self) -> (r: u8)
        ensures
            r == self.spec_bits(),
    {
        match self {
            Sf::Reserved1 => 0x00,
            Sf::Reserved2 => 0x01,
            Sf::Reserved3 => 0x02,
            Sf::Reserved4 => 0x03,
            Sf::Reserved5 => 0x04,
            Sf::Sf5 => 0x05,
            Sf::Sf6 => 0x06,
            Sf::Sf7 => 0x07,
            Sf::Sf8 => 0x08,
            Sf::Sf9 => 0x09,
            Sf::Sf10 => 0x0A,
            Sf::Sf11 => 0x0B,
            Sf::Sf12 => 0x0C,
            Sf::Reserved6 => 0x0D,
            Sf::Reserved7 => 0x0E,
            Sf::Reserved8 => 0x0F,
        }
    }

    /// The member whose code is `value` masked to the field's width.
    pub fn from(value: u8) -> (r: Sf)
        ensures
            r.spec_bits() == value & 0x0F,
    {
        let code: u8 = value & 0x0F;
        assert(value & 0x0F <= 0x0F) by (bit_vector);
        match code {
            0x00 => Sf::Reserved1,
            0x01 => Sf::Reserved2,
            0x02 => Sf::Reserved3,
            0x03 => Sf::Reserved4,
            0x04 => Sf::Reserved5,
            0x05 => Sf::Sf5,
            0x06 => Sf::Sf6,
            0x07 => Sf::Sf7,
            0x08 => Sf::Sf8,
            0x09 => Sf::Sf9,
            0x0A => Sf::Sf10,
            0x0B => Sf::Sf11,
            0x0C => Sf::Sf12,
            0x0D => Sf::Reserved6,
            0x0E => Sf::Reserved7,
            _ => Sf::Reserved8,
        }
    }
}

/// LoRa bandwidth, in kHz; codes 0x07 and 0x0B to 0x0F are reserved.
#[derive(Clone, Copy, Debug, PartialEq, Eq, Structural)]
pub enum Bw {
    Bw7_8,
    Bw10_42,
    Bw15_63,
    Bw20_83,
    Bw31_25,
    Bw41_67,
    Bw62_50,
    Bw125,
    Bw250,
    Bw500,
    Reserved1,
    Reserved2,
    Reserved3,
    Reserved4,
    Reserved5,
    Reserved6,
}

impl Bw {
    /// The code this member is sent as.
    pub open spec fn spec_bits(self) -> u8 {
        match self {
            Bw::Bw7_8 => 0x00,
            Bw::Bw10_42 => 0x08,
            Bw::Bw15_63 => 0x01,
            Bw::Bw20_83 => 0x09,
            Bw::Bw31_25 => 0x02,
            Bw::Bw41_67 => 0x0A,
            Bw::Bw62_50 => 0x03,
            Bw::Bw125 => 0x04,
            Bw::Bw250 => 0x05,
            Bw::Bw500 => 0x06,
            Bw::Reserved1 => 0x0B,
            Bw::Reserved2 => 0x0C,
            Bw::Reserved3 => 0x0D,
            Bw::Reserved4 => 0x0E,
            Bw::Reserved5 => 0x0F,
            Bw::Reserved6 => 0x07,
        }
    }

    /// The code this member is sent as.
    pub fn bits(self) -> (r: u8)
        ensures
            r == self.spec_bits(),
    {
        match self {
            Bw::Bw7_8 => 0x00,
            Bw::Bw10_42 => 0x08,
            Bw::Bw15_63 => 0x01,
            Bw::Bw20_83 => 0x09,
            Bw::Bw31_25 => 0x02,
            Bw::Bw41_67 => 0x0A,
            Bw::Bw62_50 => 0x03,
            Bw::Bw125 => 0x04,
            Bw::Bw250 => 0x05,
            Bw::Bw500 => 0x06,
            Bw::Reserved1 => 0x0B,
            Bw::Reserved2 => 0x0C,
            Bw::Reserved3 => 0x0D,
            Bw::Reserved4 => 0x0E,
            Bw::Reserved5 => 0x0F,
            Bw::Reserved6 => 0x07,
        }
    }

    /// The member whose code is `value` masked to the field's width.
    pub fn from(value: u8) -> (r: Bw)
        ensures
            r.spec_bits() == value & 0x0F,
    {
        let code: u8 = value & 0x0F;
        assert(value & 0x0F <= 0x0F) by (bit_vector);
        match code {
            0x00 => Bw::Bw7_8,
            0x01 => Bw::Bw15_63,
            0x02 => Bw::Bw31_25,
            0x03 => Bw::Bw62_50,
            0x04 => Bw::Bw125,
            0x05 => Bw::Bw250,
            0x06 => Bw::Bw500,
            0x07 => Bw::Reserved6,
            0x08 => Bw::Bw10_42,
            0x09 => Bw::Bw20_83,
            0x0A => Bw::Bw41_67,
            0x0B => Bw::Reserved1,
            0x0C => Bw::Reserved2,
            0x0D => Bw::Reserved3,
            0x0E => Bw::Reserved4,
            _ => Bw::Reserved5,
        }
    }
}

/// LoRa coding rate; the `Li` rates use long interleaving.
#[derive(Clone, Copy, Debug, PartialEq, Eq, Structural)]
pub enum Cr {
    Reserved,
    Cr4_5,
    Cr4_6,
    Cr4_7,
    Cr4_8,
    Cr4_5Li,
    Cr4_6Li,
    Cr4_8Li,
}

impl Cr {
    /// The code this member is sent as.
    pub open spec fn spec_bits(self) -> u8 {
        match self {
            Cr::Reserved => 0x00,
            Cr::Cr4_5 => 0x01,
            Cr::Cr4_6 => 0x02,
            Cr::Cr4_7 => 0x03,
            Cr::Cr4_8 => 0x04,
            Cr::Cr4_5Li => 0x05,
            Cr::Cr4_6Li => 0x06,
            Cr::Cr4_8Li => 0x07,
        }
    }

    /// The code this member is sent as.
    pub fn bits(self) -> (r: u8)
        ensures
            r == self.spec_bits(),
    {
        match self {
            Cr::Reserved => 0x00,
            Cr::Cr4_5 => 0x01,
            Cr::Cr4_6 => 0x02,
            Cr::Cr4_7 => 0x03,
            Cr::Cr4_8 => 0x04,
            Cr::Cr4_5Li => 0x05,
            Cr::Cr4_6Li => 0x06,
            Cr::Cr4_8Li => 0x07,
        }
    }

    /// The member whose code is `value` masked to the field's width.
    pub fn from(value: u8) -> (r: Cr)
        ensures
            r.spec_bits() == value & 0x07,
    {
        let code: u8 = value & 0x07;
        assert(value & 0x07 <= 0x07) by (bit_vector);
        match code {
            0x00 => Cr::Reserved,
            0x01 => Cr::Cr4_5,
            0x02 => Cr::Cr4_6,
            0x03 => Cr::Cr4_7,
            0x04 => Cr::Cr4_8,
            0x05 => Cr::Cr4_5Li,
            0x06 => Cr::Cr4_6Li,
            _ => Cr::Cr4_8Li,
        }
    }
}

/// LoRa header: explicit (variable length) or implicit (fixed length).
#[derive(Clone, Copy, Debug, PartialEq, Eq, Structural)]
pub enum HeaderType {
    VariableLength,
    FixedLength,
}

impl HeaderType {
    /// The code this member is sent as.
    pub open spec fn spec_bits(self) -> u8 {
        match self {
            HeaderType::VariableLength => 0x00,
            HeaderType::FixedLength => 0x01,
        }
    }

    /// The code this member is sent as.
    pub fn bits(self) -> (r: u8)
        ensures
            r == self.spec_bits(),
    {
        match self {
            HeaderType::VariableLength => 0x00,
            HeaderType::FixedLength => 0x01,
        }
    }

    /// The member whose code is `value` masked to the field's width.
    pub fn from(value: u8) -> (r: HeaderType)
        ensures
            r.spec_bits() == value & 0x01,
    {
        let code: u8 = value & 0x01;
        assert(value & 0x01 <= 0x01) by (bit_vector);
        match code {
            0x00 => HeaderType::VariableLength,
            _ => HeaderType::FixedLength,
        }
    }
}

/// LoRa IQ setup.
#[derive(Clone, Copy, Debug, PartialEq, Eq, Structural)]
pub enum InvertIq {
    Standard,
    Inverted,
}

impl InvertIq {
    /// The code this member is sent as.
    pub open spec fn spec_bits(self) -> u8 {
        match self {
            InvertIq::Standard => 0x00,
            InvertIq::Inverted => 0x01,
        }
    }

    /// The code this member is sent as.
    pub fn bits(self) -> (r: u8)
        ensures
            r == self.spec_bits(),
    {
        match self {
            InvertIq::Standard => 0x00,
            InvertIq::Inverted => 0x01,
        }
    }

    /// The member whose code is `value` masked to the field's width.
    pub fn from(value: u8) -> (r: InvertIq)
        ensures
            r.spec_bits() == value & 0x01,
    {
        let code: u8 = value & 0x01;
        assert(value & 0x01 <= 0x01) by (bit_vector);
        match code {
            0x00 => InvertIq::Standard,
            _ => InvertIq::Inverted,
        }
    }
}

/// Chip mode, bits 6 to 4 of the status byte.
#[derive(Clone, Copy, Debug, PartialEq, Eq, Structural)]
pub enum StatusChipMode {
    Unused,
    Reserved1,
    StbyRc,
    StbyXosc,
    Fs,
    Rx,
    Tx,
    Reserved2,
}

impl StatusChipMode {
    /// The code this member is sent as.
    pub open spec fn spec_bits(self) -> u8 {
        match self {
            StatusChipMode::Unused => 0x00,
            StatusChipMode::Reserved1 => 0x01,
            StatusChipMode::StbyRc => 0x02,
            StatusChipMode::StbyXosc => 0x03,
            StatusChipMode::Fs => 0x04,
            StatusChipMode::Rx => 0x05,
            StatusChipMode::Tx => 0x06,
            StatusChipMode::Reserved2 => 0x07,
        }
    }

    /// The code this member is sent as.
    pub fn bits(self) -> (r: u8)
        ensures
            r == self.spec_bits(),
    {
        match self {
            StatusChipMode::Unused => 0x00,
            StatusChipMode::Reserved1 => 0x01,
            StatusChipMode::StbyRc => 0x02,
            StatusChipMode::StbyXosc => 0x03,
            StatusChipMode::Fs => 0x04,
            StatusChipMode::Rx => 0x05,
            StatusChipMode::Tx => 0x06,
            StatusChipMode::Reserved2 => 0x07,
        }
    }

    /// The member whose code is bits 6 to 4 of `value`.
    pub fn extract(value: u8) -> (r: StatusChipMode)
        ensures
            r.spec_bits() == (value >> 4) & 0x07,
    {
        let code: u8 = (value >> 4) & 0x07;
        assert((value >> 4) & 0x07 <= 0x07) by (bit_vector);
        match code {
            0x00 => StatusChipMode::Unused,
            0x01 => StatusChipMode::Reserved1,
            0x02 => StatusChipMode::StbyRc,
            0x03 => StatusChipMode::StbyXosc,
            0x04 => StatusChipMode::Fs,
            0x05 => StatusChipMode::Rx,
            0x06 => StatusChipMode::Tx,
            _ => StatusChipMode::Reserved2,
        }
    }
}

/// Command status, bits 3 to 1 of the status byte.
#[derive(Clone, Copy, Debug, PartialEq, Eq, Structural)]
pub enum StatusCommandStatus {
    Reserved1,
    Reserved2,
    DataIsAvailableToHost,
    CommandTimeout,
    CommandProcessingError,
    FailureToExecuteCommand,
    CommandTxDone,
    Reserved3,
}

impl StatusCommandStatus {
    /// The code this member is sent as.
    pub open spec fn spec_bits(self) -> u8 {
        match self {
            StatusCommandStatus::Reserved1 => 0x00,
            StatusCommandStatus::Reserved2 => 0x01,
            StatusCommandStatus::DataIsAvailableToHost => 0x02,
            StatusCommandStatus::CommandTimeout => 0x03,
            StatusCommandStatus::CommandProcessingError => 0x04,
            StatusCommandStatus::FailureToExecuteCommand => 0x05,
            StatusCommandStatus::CommandTxDone => 0x06,
            StatusCommandStatus::Reserved3 => 0x07,
        }
    }

    /// The code this member is sent as.
    pub fn bits(self) -> (r: u8)
        ensures
            r == self.spec_bits(),
    {
        match self {
            StatusCommandStatus::Reserved1 => 0x00,
            StatusCommandStatus::Reserved2 => 0x01,
            StatusCommandStatus::DataIsAvailableToHost => 0x02,
            StatusCommandStatus::CommandTimeout => 0x03,
            StatusCommandStatus::CommandProcessingError => 0x04,
            StatusCommandStatus::FailureToExecuteCommand => 0x05,
            StatusCommandStatus::CommandTxDone => 0x06,
            StatusCommandStatus::Reserved3 => 0x07,
        }
    }

    /// The member whose code is bits 3 to 1 of `value`.
    pub fn extract(value: u8) -> (r: StatusCommandStatus)
        ensures
            r.spec_bits() == (value >> 1) & 0x07,
    {
        let code: u8 = (value >> 1) & 0x07;
        assert((value >> 1) & 0x07 <= 0x07) by (bit_vector);
        match code {
            0x00 => StatusCommandStatus::Reserved1,
            0x01 => StatusCommandStatus::Reserved2,
            0x02 => StatusCommandStatus::DataIsAvailableToHost,
            0x03 => StatusCommandStatus::CommandTimeout,
            0x04 => StatusCommandStatus::CommandProcessingError,
            0x05 => StatusCommandStatus::FailureToExecuteCommand,
            0x06 => StatusCommandStatus::CommandTxDone,
            _ => StatusCommandStatus::Reserved3,
        }
    }
}

} // verus!
