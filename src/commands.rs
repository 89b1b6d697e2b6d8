//! The commands: each one owns an outbound and an inbound buffer of the
//! command's wire length, and decodes its results from the inbound buffer once
//! the transfer is done.
use crate::bytes::{
    be_u16, be_u24, be_u32, be_value, bool_byte, flag_byte, join_u16, split_u16, split_u24,
    split_u32,
};
use crate::registers::Register;
use vstd::prelude::*;

pub use crate::bitfields::{Irq, OpError, SleepConfig};
pub use crate::params::{
    Bw, Cr, HeaderType, InvertIq, PacketType, RampTime, Sf, StatusChipMode, StatusCommandStatus,
    StdbyConfig, TcxoVoltage,
};

verus! {

/// `n` zero bytes.
pub open spec fn zeros(n: nat) -> Seq<u8> {
    Seq::new(n, |_i: int| 0u8)
}

/// The uniform face of a command whose buffers are `N` bytes long.
pub trait Command<const N: usize>: Sized {
    /// The opcode, the same for every value of the command.
    spec fn spec_opcode() -> u8;

    /// The bytes to send.
    spec fn outbound(&self) -> Seq<u8>;

    /// The bytes received.
    spec fn inbound(&self) -> Seq<u8>;

    /// How many bytes the transfer has to clock.
    spec fn spec_transfer_size(&self) -> nat;

    fn opcode() -> (r: u8)
        ensures
            r == Self::spec_opcode(),
    ;

    /// The bytes to send: the opcode first, as many as are received.
    fn tx_buf(&self) -> (r: &[u8; N])
        ensures
            r@ == self.outbound(),
            0 < N,
            r@[0] == Self::spec_opcode(),
            r@.len() == self.inbound().len(),
    ;

    /// The bytes received; byte 0 is the status the device sends back while
    /// it receives the opcode.
    fn rx_buf(&self) -> (r: &[u8; N])
        ensures
            r@ == self.inbound(),
    ;

    /// Stores what the device sent back, leaving the bytes to send and the
    /// transfer size as they were.
    fn set_rx_buf(&mut self, rx: [u8; N])
        ensures
            final(self).inbound() == rx@,
            final(self).outbound() == old(self).outbound(),
            final(self).spec_transfer_size() == old(self).spec_transfer_size(),
    ;

    /// How many bytes the transfer has to clock, at most the buffer length.
    fn transfer_size(&self) -> (r: u16)
        ensures
            r == self.spec_transfer_size(),
            0 < r <= N,
    ;
}

/// RSSI in dBm, from a byte that holds minus twice its value.
pub open spec fn rssi_dbm(raw: u8) -> int {
    -((raw / 2) as int)
}

/// The two's complement reading of a byte.
pub open spec fn signed_byte(raw: u8) -> int {
    if raw < 0x80 {
        raw as int
    } else {
        raw as int - 0x100
    }
}

/// SNR in dB, from a signed byte that holds four times its value; the
/// division truncates toward zero.
pub open spec fn snr_db(raw: u8) -> int {
    let s = signed_byte(raw);
    if s >= 0 {
        s / 4
    } else {
        -((-s) / 4)
    }
}

fn rssi_of(raw: u8) -> (r: i8)
    ensures
        r == rssi_dbm(raw),
{
    -((raw / 2) as i8)
}

fn snr_of(raw: u8) -> (r: i8)
    ensures
        r == snr_db(raw),
{
    let s: i16 = if raw < 0x80 {
        raw as i16
    } else {
        raw as i16 - 0x100
    };
    (s / 4) as i8
}

/// Opcode of [`SetSleep`].
pub const OPCODE_SET_SLEEP: u8 = 0x84;

/// Puts the device to sleep.
pub struct SetSleep {
    tx_buf: [u8; 2],
    rx_buf: [u8; 2],
}

impl SetSleep {
    #[verifier::type_invariant]
    spec fn inv(&self) -> bool {
        self.tx_buf[0] == OPCODE_SET_SLEEP
    }

    /// The command for these parameters; the inbound buffer starts zeroed.
    pub fn new(sleep_config: SleepConfig) -> (r: SetSleep)
        ensures
            r.outbound() == seq![OPCODE_SET_SLEEP, sleep_config.spec_bits()],
            r.inbound() == zeros(2),
    {
        let tx_buf: [u8; 2] = [OPCODE_SET_SLEEP, sleep_config.into_bits()];
        let rx_buf: [u8; 2] = [0; 2];
        assert(tx_buf@ =~= seq![OPCODE_SET_SLEEP, sleep_config.spec_bits()]);
        assert(rx_buf@ =~= zeros(2));
        SetSleep { tx_buf, rx_buf }
    }
}

impl Command<2> for SetSleep {
    open spec fn spec_opcode() -> u8 {
        OPCODE_SET_SLEEP
    }

    closed spec fn outbound(&self) -> Seq<u8> {
        self.tx_buf@
    }

    closed spec fn inbound(&self) -> Seq<u8> {
        self.rx_buf@
    }

    open spec fn spec_transfer_size(&self) -> nat {
        2
    }

    fn opcode() -> (r: u8) {
        OPCODE_SET_SLEEP
    }

    fn tx_buf(&self) -> (r: &[u8; 2]) {
        proof {
            use_type_invariant(self);
        }
        &self.tx_buf
    }

    fn rx_buf(&self) -> (r: &[u8; 2]) {
        &self.rx_buf
    }

    fn set_rx_buf(&mut self, rx: [u8; 2]) {
        proof {
            use_type_invariant(&*self);
        }
        self.rx_buf = rx;
    }

    fn transfer_size(&self) -> (r: u16) {
        2
    }
}

/// Opcode of [`SetStandby`].
pub const OPCODE_SET_STANDBY: u8 = 0x80;

/// Puts the device in standby, on the RC or the crystal oscillator.
pub struct SetStandby {
    tx_buf: [u8; 2],
    rx_buf: [u8; 2],
}

impl SetStandby {
    #[verifier::type_invariant]
    spec fn inv(&self) -> bool {
        self.tx_buf[0] == OPCODE_SET_STANDBY
    }

    /// The command for these parameters; the inbound buffer starts zeroed.
    pub fn new(stdby_config: StdbyConfig) -> (r: SetStandby)
        ensures
            r.outbound() == seq![OPCODE_SET_STANDBY, stdby_config.spec_bits()],
            r.inbound() == zeros(2),
    {
        let tx_buf: [u8; 2] = [OPCODE_SET_STANDBY, stdby_config.bits()];
        let rx_buf: [u8; 2] = [0; 2];
        assert(tx_buf@ =~= seq![OPCODE_SET_STANDBY, stdby_config.spec_bits()]);
        assert(rx_buf@ =~= zeros(2));
        SetStandby { tx_buf, rx_buf }
    }
}

impl Command<2> for SetStandby {
    open spec fn spec_opcode() -> u8 {
        OPCODE_SET_STANDBY
    }

    closed spec fn outbound(&self) -> Seq<u8> {
        self.tx_buf@
    }

    closed spec fn inbound(&self) -> Seq<u8> {
        self.rx_buf@
    }

    open spec fn spec_transfer_size(&self) -> nat {
        2
    }

    fn opcode() -> (r: u8) {
        OPCODE_SET_STANDBY
    }

    fn tx_buf(&self) -> (r: &[u8; 2]) {
        proof {
            use_type_invariant(self);
        }
        &self.tx_buf
    }

    fn rx_buf(&self) -> (r: &[u8; 2]) {
        &self.rx_buf
    }

    fn set_rx_buf(&mut self, rx: [u8; 2]) {
        proof {
            use_type_invariant(&*self);
        }
        self.rx_buf = rx;
    }

    fn transfer_size(&self) -> (r: u16) {
        2
    }
}

/// Opcode of [`SetTx`].
pub const OPCODE_SET_TX: u8 = 0x83;

/// Starts transmitting, with a timeout in steps of 15.625 microseconds (24 bits).
pub struct SetTx {
    tx_buf: [u8; 4],
    rx_buf: [u8; 4],
}

impl SetTx {
    #[verifier::type_invariant]
    spec fn inv(&self) -> bool {
        self.tx_buf[0] == OPCODE_SET_TX
    }

    /// The command for these parameters; the inbound buffer starts zeroed.
    pub fn new(timeout: u32) -> (r: SetTx)
        ensures
            r.outbound() == seq![OPCODE_SET_TX] + be_u24(timeout),
            r.inbound() == zeros(4),
    {
        let (t2, t1, t0) = split_u24(timeout);
        let tx_buf: [u8; 4] = [OPCODE_SET_TX, t2, t1, t0];
        let rx_buf: [u8; 4] = [0; 4];
        assert(tx_buf@ =~= seq![OPCODE_SET_TX] + be_u24(timeout));
        assert(rx_buf@ =~= zeros(4));
        SetTx { tx_buf, rx_buf }
    }
}

impl Command<4> for SetTx {
    open spec fn spec_opcode() -> u8 {
        OPCODE_SET_TX
    }

    closed spec fn outbound(&self) -> Seq<u8> {
        self.tx_buf@
    }

    closed spec fn inbound(&self) -> Seq<u8> {
        self.rx_buf@
    }

    open spec fn spec_transfer_size(&self) -> nat {
        4
    }

    fn opcode() -> (r: u8) {
        OPCODE_SET_TX
    }

    fn tx_buf(&self) -> (r: &[u8; 4]) {
        proof {
            use_type_invariant(self);
        }
        &self.tx_buf
    }

    fn rx_buf(&self) -> (r: &[u8; 4]) {
        &self.rx_buf
    }

    fn set_rx_buf(&mut self, rx: [u8; 4]) {
        proof {
            use_type_invariant(&*self);
        }
        self.rx_buf = rx;
    }

    fn transfer_size(&self) -> (r: u16) {
        4
    }
}

/// Opcode of [`SetRx`].
pub const OPCODE_SET_RX: u8 = 0x82;

/// Starts receiving, with a timeout in steps of 15.625 microseconds (24 bits).
pub struct SetRx {
    tx_buf: [u8; 4],
    rx_buf: [u8; 4],
}

impl SetRx {
    #[verifier::type_invariant]
    spec fn inv(&self) -> bool {
        self.tx_buf[0] == OPCODE_SET_RX
    }

    /// The command for these parameters; the inbound buffer starts zeroed.
    pub fn new(timeout: u32) -> (r: SetRx)
        ensures
            r.outbound() == seq![OPCODE_SET_RX] + be_u24(timeout),
            r.inbound() == zeros(4),
    {
        let (t2, t1, t0) = split_u24(timeout);
        let tx_buf: [u8; 4] = [OPCODE_SET_RX, t2, t1, t0];
        let rx_buf: [u8; 4] = [0; 4];
        assert(tx_buf@ =~= seq![OPCODE_SET_RX] + be_u24(timeout));
        assert(rx_buf@ =~= zeros(4));
        SetRx { tx_buf, rx_buf }
    }
}

impl Command<4> for SetRx {
    open spec fn spec_opcode() -> u8 {
        OPCODE_SET_RX
    }

    closed spec fn outbound(&self) -> Seq<u8> {
        self.tx_buf@
    }

    closed spec fn inbound(&self) -> Seq<u8> {
        self.rx_buf@
    }

    open spec fn spec_transfer_size(&self) -> nat {
        4
    }

    fn opcode() -> (r: u8) {
        OPCODE_SET_RX
    }

    fn tx_buf(&self) -> (r: &[u8; 4]) {
        proof {
            use_type_invariant(self);
        }
        &self.tx_buf
    }

    fn rx_buf(&self) -> (r: &[u8; 4]) {
        &self.rx_buf
    }

    fn set_rx_buf(&mut self, rx: [u8; 4]) {
        proof {
            use_type_invariant(&*self);
        }
        self.rx_buf = rx;
    }

    fn transfer_size(&self) -> (r: u16) {
        4
    }
}

/// Opcode of [`SetPaConfig`].
pub const OPCODE_SET_PA_CONFIG: u8 = 0x95;

/// Configures the power amplifier of an SX1262: duty cycle and maximum size, with the device and table selectors fixed to `0x00` and `0x01`.
pub struct SetPaConfig {
    tx_buf: [u8; 5],
    rx_buf: [u8; 5],
}

impl SetPaConfig {
    #[verifier::type_invariant]
    spec fn inv(&self) -> bool {
        self.tx_buf[0] == OPCODE_SET_PA_CONFIG
    }

    /// The command for these parameters; the inbound buffer starts zeroed.
    pub fn new(pa_duty_cycle: u8, hp_max: u8) -> (r: SetPaConfig)
        ensures
            r.outbound() == seq![OPCODE_SET_PA_CONFIG, pa_duty_cycle, hp_max, 0x00u8, 0x01u8],
            r.inbound() == zeros(5),
    {
        let tx_buf: [u8; 5] = [OPCODE_SET_PA_CONFIG, pa_duty_cycle, hp_max, 0x00, 0x01];
        let rx_buf: [u8; 5] = [0; 5];
        assert(tx_buf@ =~= seq![OPCODE_SET_PA_CONFIG, pa_duty_cycle, hp_max, 0x00u8, 0x01u8]);
        assert(rx_buf@ =~= zeros(5));
        SetPaConfig { tx_buf, rx_buf }
    }
}

impl Command<5> for SetPaConfig {
    open spec fn spec_opcode() -> u8 {
        OPCODE_SET_PA_CONFIG
    }

    closed spec fn outbound(&self) -> Seq<u8> {
        self.tx_buf@
    }

    closed spec fn inbound(&self) -> Seq<u8> {
        self.rx_buf@
    }

    open spec fn spec_transfer_size(&self) -> nat {
        5
    }

    fn opcode() -> (r: u8) {
        OPCODE_SET_PA_CONFIG
    }

    fn tx_buf(&self) -> (r: &[u8; 5]) {
        proof {
            use_type_invariant(self);
        }
        &self.tx_buf
    }

    fn rx_buf(&self) -> (r: &[u8; 5]) {
        &self.rx_buf
    }

    fn set_rx_buf(&mut self, rx: [u8; 5]) {
        proof {
            use_type_invariant(&*self);
        }
        self.rx_buf = rx;
    }

    fn transfer_size(&self) -> (r: u16) {
        5
    }
}

/// Opcode of [`SetDioIrqParams`].
pub const OPCODE_SET_DIO_IRQ_PARAMS: u8 = 0x08;

/// Selects the interrupt sources, and which of them each of DIO1, DIO2 and DIO3 signals.
pub struct SetDioIrqParams {
    tx_buf: [u8; 9],
    rx_buf: [u8; 9],
}

impl SetDioIrqParams {
    #[verifier::type_invariant]
    spec fn inv(&self) -> bool {
        self.tx_buf[0] == OPCODE_SET_DIO_IRQ_PARAMS
    }

    /// The command for these parameters; the inbound buffer starts zeroed.
    pub fn new(irq_mask: Irq, dio1_mask: Irq, dio2_mask: Irq, dio3_mask: Irq) -> (r: SetDioIrqParams)
        ensures
            r.outbound() == seq![OPCODE_SET_DIO_IRQ_PARAMS] + be_u16(irq_mask.spec_bits()) + be_u16(dio1_mask.spec_bits()) + be_u16(dio2_mask.spec_bits()) + be_u16(dio3_mask.spec_bits()),
            r.inbound() == zeros(9),
    {
        let (m1, m0) = split_u16(irq_mask.into_bits());
        let (a1, a0) = split_u16(dio1_mask.into_bits());
        let (b1, b0) = split_u16(dio2_mask.into_bits());
        let (c1, c0) = split_u16(dio3_mask.into_bits());
        let tx_buf: [u8; 9] = [OPCODE_SET_DIO_IRQ_PARAMS, m1, m0, a1, a0, b1, b0, c1, c0];
        let rx_buf: [u8; 9] = [0; 9];
        assert(tx_buf@ =~= seq![OPCODE_SET_DIO_IRQ_PARAMS] + be_u16(irq_mask.spec_bits()) + be_u16(dio1_mask.spec_bits()) + be_u16(dio2_mask.spec_bits()) + be_u16(dio3_mask.spec_bits()));
        assert(rx_buf@ =~= zeros(9));
        SetDioIrqParams { tx_buf, rx_buf }
    }
}

impl Command<9> for SetDioIrqParams {
    open spec fn spec_opcode() -> u8 {
        OPCODE_SET_DIO_IRQ_PARAMS
    }

    closed spec fn outbound(&self) -> Seq<u8> {
        self.tx_buf@
    }

    closed spec fn inbound(&self) -> Seq<u8> {
        self.rx_buf@
    }

    open spec fn spec_transfer_size(&self) -> nat {
        9
    }

    fn opcode() -> (r: u8) {
        OPCODE_SET_DIO_IRQ_PARAMS
    }

    fn tx_buf(&self) -> (r: &[u8; 9]) {
        proof {
            use_type_invariant(self);
        }
        &self.tx_buf
    }

    fn rx_buf(&self) -> (r: &[u8; 9]) {
        &self.rx_buf
    }

    fn set_rx_buf(&mut self, rx: [u8; 9]) {
        proof {
            use_type_invariant(&*self);
        }
        self.rx_buf = rx;
    }

    fn transfer_size(&self) -> (r: u16) {
        9
    }
}

/// Opcode of [`GetIrqStatus`].
pub const OPCODE_GET_IRQ_STATUS: u8 = 0x12;

/// Reads the interrupt flags.
pub struct GetIrqStatus {
    tx_buf: [u8; 4],
    rx_buf: [u8; 4],
}

impl GetIrqStatus {
    #[verifier::type_invariant]
    spec fn inv(&self) -> bool {
        self.tx_buf[0] == OPCODE_GET_IRQ_STATUS
    }

    /// The command; the inbound buffer starts zeroed.
    pub fn new() -> (r: GetIrqStatus)
        ensures
            r.outbound() == seq![OPCODE_GET_IRQ_STATUS, 0u8, 0u8, 0u8],
            r.inbound() == zeros(4),
    {
        let tx_buf: [u8; 4] = [OPCODE_GET_IRQ_STATUS, 0, 0, 0];
        let rx_buf: [u8; 4] = [0; 4];
        assert(tx_buf@ =~= seq![OPCODE_GET_IRQ_STATUS, 0u8, 0u8, 0u8]);
        assert(rx_buf@ =~= zeros(4));
        GetIrqStatus { tx_buf, rx_buf }
    }

    /// The interrupt flags in the received word (bytes 2 and 3).
    pub fn irq_status(&self) -> (r: Irq)
        ensures
            r == Irq::spec_from_bits(be_value(self.inbound()[2], self.inbound()[3]) as u16),
    {
        Irq::from_bits(join_u16(self.rx_buf[2], self.rx_buf[3]))
    }
}

impl Command<4> for GetIrqStatus {
    open spec fn spec_opcode() -> u8 {
        OPCODE_GET_IRQ_STATUS
    }

    closed spec fn outbound(&self) -> Seq<u8> {
        self.tx_buf@
    }

    closed spec fn inbound(&self) -> Seq<u8> {
        self.rx_buf@
    }

    open spec fn spec_transfer_size(&self) -> nat {
        4
    }

    fn opcode() -> (r: u8) {
        OPCODE_GET_IRQ_STATUS
    }

    fn tx_buf(&self) -> (r: &[u8; 4]) {
        proof {
            use_type_invariant(self);
        }
        &self.tx_buf
    }

    fn rx_buf(&self) -> (r: &[u8; 4]) {
        &self.rx_buf
    }

    fn set_rx_buf(&mut self, rx: [u8; 4]) {
        proof {
            use_type_invariant(&*self);
        }
        self.rx_buf = rx;
    }

    fn transfer_size(&self) -> (r: u16) {
        4
    }
}

/// Opcode of [`ClearIrqStatus`].
pub const OPCODE_CLEAR_IRQ_STATUS: u8 = 0x02;

/// Clears the selected interrupt flags.
pub struct ClearIrqStatus {
    tx_buf: [u8; 3],
    rx_buf: [u8; 3],
}

impl ClearIrqStatus {
    #[verifier::type_invariant]
    spec fn inv(&self) -> bool {
        self.tx_buf[0] == OPCODE_CLEAR_IRQ_STATUS
    }

    /// The command for these parameters; the inbound buffer starts zeroed.
    pub fn new(clear_irq_param: Irq) -> (r: ClearIrqStatus)
        ensures
            r.outbound() == seq![OPCODE_CLEAR_IRQ_STATUS] + be_u16(clear_irq_param.spec_bits()),
            r.inbound() == zeros(3),
    {
        let (p1, p0) = split_u16(clear_irq_param.into_bits());
        let tx_buf: [u8; 3] = [OPCODE_CLEAR_IRQ_STATUS, p1, p0];
        let rx_buf: [u8; 3] = [0; 3];
        assert(tx_buf@ =~= seq![OPCODE_CLEAR_IRQ_STATUS] + be_u16(clear_irq_param.spec_bits()));
        assert(rx_buf@ =~= zeros(3));
        ClearIrqStatus { tx_buf, rx_buf }
    }
}

impl Command<3> for ClearIrqStatus {
    open spec fn spec_opcode() -> u8 {
        OPCODE_CLEAR_IRQ_STATUS
    }

    closed spec fn outbound(&self) -> Seq<u8> {
        self.tx_buf@
    }

    closed spec fn inbound(&self) -> Seq<u8> {
        self.rx_buf@
    }

    open spec fn spec_transfer_size(&self) -> nat {
        3
    }

    fn opcode() -> (r: u8) {
        OPCODE_CLEAR_IRQ_STATUS
    }

    fn tx_buf(&self) -> (r: &[u8; 3]) {
        proof {
            use_type_invariant(self);
        }
        &self.tx_buf
    }

    fn rx_buf(&self) -> (r: &[u8; 3]) {
        &self.rx_buf
    }

    fn set_rx_buf(&mut self, rx: [u8; 3]) {
        proof {
            use_type_invariant(&*self);
        }
        self.rx_buf = rx;
    }

    fn transfer_size(&self) -> (r: u16) {
        3
    }
}

/// Opcode of [`SetDio2AsRfSwitchCtrl`].
pub const OPCODE_SET_DIO2_AS_RF_SWITCH_CTRL: u8 = 0x9D;

/// Lets DIO2 drive an external RF switch, or not.
pub struct SetDio2AsRfSwitchCtrl {
    tx_buf: [u8; 2],
    rx_buf: [u8; 2],
}

impl SetDio2AsRfSwitchCtrl {
    #[verifier::type_invariant]
    spec fn inv(&self) -> bool {
        self.tx_buf[0] == OPCODE_SET_DIO2_AS_RF_SWITCH_CTRL
    }

    /// The command for these parameters; the inbound buffer starts zeroed.
    pub fn new(enable: bool) -> (r: SetDio2AsRfSwitchCtrl)
        ensures
            r.outbound() == seq![OPCODE_SET_DIO2_AS_RF_SWITCH_CTRL, bool_byte(enable)],
            r.inbound() == zeros(2),
    {
        let tx_buf: [u8; 2] = [OPCODE_SET_DIO2_AS_RF_SWITCH_CTRL, flag_byte(enable)];
        let rx_buf: [u8; 2] = [0; 2];
        assert(tx_buf@ =~= seq![OPCODE_SET_DIO2_AS_RF_SWITCH_CTRL, bool_byte(enable)]);
        assert(rx_buf@ =~= zeros(2));
        SetDio2AsRfSwitchCtrl { tx_buf, rx_buf }
    }
}

impl Command<2> for SetDio2AsRfSwitchCtrl {
    open spec fn spec_opcode() -> u8 {
        OPCODE_SET_DIO2_AS_RF_SWITCH_CTRL
    }

    closed spec fn outbound(&self) -> Seq<u8> {
        self.tx_buf@
    }

    closed spec fn inbound(&self) -> Seq<u8> {
        self.rx_buf@
    }

    open spec fn spec_transfer_size(&self) -> nat {
        2
    }

    fn opcode() -> (r: u8) {
        OPCODE_SET_DIO2_AS_RF_SWITCH_CTRL
    }

    fn tx_buf(&self) -> (r: &[u8; 2]) {
        proof {
            use_type_invariant(self);
        }
        &self.tx_buf
    }

    fn rx_buf(&self) -> (r: &[u8; 2]) {
        &self.rx_buf
    }

    fn set_rx_buf(&mut self, rx: [u8; 2]) {
        proof {
            use_type_invariant(&*self);
        }
        self.rx_buf = rx;
    }

    fn transfer_size(&self) -> (r: u16) {
        2
    }
}

/// Opcode of [`SetDio3AsTcxoCtrl`].
pub const OPCODE_SET_DIO3_AS_TCXO_CTRL: u8 = 0x97;

/// Lets DIO3 supply an external TCXO, with a start-up delay in steps of 15.625 microseconds (24 bits).
pub struct SetDio3AsTcxoCtrl {
    tx_buf: [u8; 5],
    rx_buf: [u8; 5],
}

impl SetDio3AsTcxoCtrl {
    #[verifier::type_invariant]
    spec fn inv(&self) -> bool {
        self.tx_buf[0] == OPCODE_SET_DIO3_AS_TCXO_CTRL
    }

    /// The command for these parameters; the inbound buffer starts zeroed.
    pub fn new(tcxo_voltage: TcxoVoltage, delay: u32) -> (r: SetDio3AsTcxoCtrl)
        ensures
            r.outbound() == seq![OPCODE_SET_DIO3_AS_TCXO_CTRL, tcxo_voltage.spec_bits()] + be_u24(delay),
            r.inbound() == zeros(5),
    {
        let (d2, d1, d0) = split_u24(delay);
        let tx_buf: [u8; 5] = [OPCODE_SET_DIO3_AS_TCXO_CTRL, tcxo_voltage.bits(), d2, d1, d0];
        let rx_buf: [u8; 5] = [0; 5];
        assert(tx_buf@ =~= seq![OPCODE_SET_DIO3_AS_TCXO_CTRL, tcxo_voltage.spec_bits()] + be_u24(delay));
        assert(rx_buf@ =~= zeros(5));
        SetDio3AsTcxoCtrl { tx_buf, rx_buf }
    }
}

impl Command<5> for SetDio3AsTcxoCtrl {
    open spec fn spec_opcode() -> u8 {
        OPCODE_SET_DIO3_AS_TCXO_CTRL
    }

    closed spec fn outbound(&self) -> Seq<u8> {
        self.tx_buf@
    }

    closed spec fn inbound(&self) -> Seq<u8> {
        self.rx_buf@
    }

    open spec fn spec_transfer_size(&self) -> nat {
        5
    }

    fn opcode() -> (r: u8) {
        OPCODE_SET_DIO3_AS_TCXO_CTRL
    }

    fn tx_buf(&self) -> (r: &[u8; 5]) {
        proof {
            use_type_invariant(self);
        }
        &self.tx_buf
    }

    fn rx_buf(&self) -> (r: &[u8; 5]) {
        &self.rx_buf
    }

    fn set_rx_buf(&mut self, rx: [u8; 5]) {
        proof {
            use_type_invariant(&*self);
        }
        self.rx_buf = rx;
    }

    fn transfer_size(&self) -> (r: u16) {
        5
    }
}

/// Opcode of [`SetRfFrequency`].
pub const OPCODE_SET_RF_FREQUENCY: u8 = 0x86;

/// Sets the RF frequency, in steps of the synthesizer.
pub struct SetRfFrequency {
    tx_buf: [u8; 5],
    rx_buf: [u8; 5],
}

impl SetRfFrequency {
    #[verifier::type_invariant]
    spec fn inv(&self) -> bool {
        self.tx_buf[0] == OPCODE_SET_RF_FREQUENCY
    }

    /// The command for these parameters; the inbound buffer starts zeroed.
    pub fn new(rf_freq: u32) -> (r: SetRfFrequency)
        ensures
            r.outbound() == seq![OPCODE_SET_RF_FREQUENCY] + be_u32(rf_freq),
            r.inbound() == zeros(5),
    {
        let (f3, f2, f1, f0) = split_u32(rf_freq);
        let tx_buf: [u8; 5] = [OPCODE_SET_RF_FREQUENCY, f3, f2, f1, f0];
        let rx_buf: [u8; 5] = [0; 5];
        assert(tx_buf@ =~= seq![OPCODE_SET_RF_FREQUENCY] + be_u32(rf_freq));
        assert(rx_buf@ =~= zeros(5));
        SetRfFrequency { tx_buf, rx_buf }
    }
}

impl Command<5> for SetRfFrequency {
    open spec fn spec_opcode() -> u8 {
        OPCODE_SET_RF_FREQUENCY
    }

    closed spec fn outbound(&self) -> Seq<u8> {
        self.tx_buf@
    }

    closed spec fn inbound(&self) -> Seq<u8> {
        self.rx_buf@
    }

    open spec fn spec_transfer_size(&self) -> nat {
        5
    }

    fn opcode() -> (r: u8) {
        OPCODE_SET_RF_FREQUENCY
    }

    fn tx_buf(&self) -> (r: &[u8; 5]) {
        proof {
            use_type_invariant(self);
        }
        &self.tx_buf
    }

    fn rx_buf(&self) -> (r: &[u8; 5]) {
        &self.rx_buf
    }

    fn set_rx_buf(&mut self, rx: [u8; 5]) {
        proof {
            use_type_invariant(&*self);
        }
        self.rx_buf = rx;
    }

    fn transfer_size(&self) -> (r: u16) {
        5
    }
}

/// Opcode of [`SetPacketType`].
pub const OPCODE_SET_PACKET_TYPE: u8 = 0x8A;

/// Selects the modem.
pub struct SetPacketType {
    tx_buf: [u8; 2],
    rx_buf: [u8; 2],
}

impl SetPacketType {
    #[verifier::type_invariant]
    spec fn inv(&self) -> bool {
        self.tx_buf[0] == OPCODE_SET_PACKET_TYPE
    }

    /// The command for these parameters; the inbound buffer starts zeroed.
    pub fn new(packet_type: PacketType) -> (r: SetPacketType)
        ensures
            r.outbound() == seq![OPCODE_SET_PACKET_TYPE, packet_type.spec_bits()],
            r.inbound() == zeros(2),
    {
        let tx_buf: [u8; 2] = [OPCODE_SET_PACKET_TYPE, packet_type.bits()];
        let rx_buf: [u8; 2] = [0; 2];
        assert(tx_buf@ =~= seq![OPCODE_SET_PACKET_TYPE, packet_type.spec_bits()]);
        assert(rx_buf@ =~= zeros(2));
        SetPacketType { tx_buf, rx_buf }
    }
}

impl Command<2> for SetPacketType {
    open spec fn spec_opcode() -> u8 {
        OPCODE_SET_PACKET_TYPE
    }

    closed spec fn outbound(&self) -> Seq<u8> {
        self.tx_buf@
    }

    closed spec fn inbound(&self) -> Seq<u8> {
        self.rx_buf@
    }

    open spec fn spec_transfer_size(&self) -> nat {
        2
    }

    fn opcode() -> (r: u8) {
        OPCODE_SET_PACKET_TYPE
    }

    fn tx_buf(&self) -> (r: &[u8; 2]) {
        proof {
            use_type_invariant(self);
        }
        &self.tx_buf
    }

    fn rx_buf(&self) -> (r: &[u8; 2]) {
        &self.rx_buf
    }

    fn set_rx_buf(&mut self, rx: [u8; 2]) {
        proof {
            use_type_invariant(&*self);
        }
        self.rx_buf = rx;
    }

    fn transfer_size(&self) -> (r: u16) {
        2
    }
}

/// Opcode of [`GetPacketType`].
pub const OPCODE_GET_PACKET_TYPE: u8 = 0x11;

/// Reads which modem is selected.
pub struct GetPacketType {
    tx_buf: [u8; 3],
    rx_buf: [u8; 3],
}

impl GetPacketType {
    #[verifier::type_invariant]
    spec fn inv(&self) -> bool {
        self.tx_buf[0] == OPCODE_GET_PACKET_TYPE
    }

    /// The command; the inbound buffer starts zeroed.
    pub fn new() -> (r: GetPacketType)
        ensures
            r.outbound() == seq![OPCODE_GET_PACKET_TYPE, 0u8, 0u8],
            r.inbound() == zeros(3),
    {
        let tx_buf: [u8; 3] = [OPCODE_GET_PACKET_TYPE, 0, 0];
        let rx_buf: [u8; 3] = [0; 3];
        assert(tx_buf@ =~= seq![OPCODE_GET_PACKET_TYPE, 0u8, 0u8]);
        assert(rx_buf@ =~= zeros(3));
        GetPacketType { tx_buf, rx_buf }
    }

    /// The modem named by the received byte 2.
    pub fn packet_type(&self) -> (r: PacketType)
        ensures
            r.spec_bits() == self.inbound()[2] & 0x03,
    {
        PacketType::from(self.rx_buf[2])
    }
}

impl Command<3> for GetPacketType {
    open spec fn spec_opcode() -> u8 {
        OPCODE_GET_PACKET_TYPE
    }

    closed spec fn outbound(&self) -> Seq<u8> {
        self.tx_buf@
    }

    closed spec fn inbound(&self) -> Seq<u8> {
        self.rx_buf@
    }

    open spec fn spec_transfer_size(&self) -> nat {
        3
    }

    fn opcode() -> (r: u8) {
        OPCODE_GET_PACKET_TYPE
    }

    fn tx_buf(&self) -> (r: &[u8; 3]) {
        proof {
            use_type_invariant(self);
        }
        &self.tx_buf
    }

    fn rx_buf(&self) -> (r: &[u8; 3]) {
        &self.rx_buf
    }

    fn set_rx_buf(&mut self, rx: [u8; 3]) {
        proof {
            use_type_invariant(&*self);
        }
        self.rx_buf = rx;
    }

    fn transfer_size(&self) -> (r: u16) {
        3
    }
}

/// Opcode of [`SetTxParams`].
pub const OPCODE_SET_TX_PARAMS: u8 = 0x8E;

/// Sets the output power, in dBm, and the ramp time.
pub struct SetTxParams {
    tx_buf: [u8; 3],
    rx_buf: [u8; 3],
}

impl SetTxParams {
    #[verifier::type_invariant]
    spec fn inv(&self) -> bool {
        self.tx_buf[0] == OPCODE_SET_TX_PARAMS
    }

    /// The command for these parameters; the inbound buffer starts zeroed.
    pub fn new(power: u8, ramp_time: RampTime) -> (r: SetTxParams)
        ensures
            r.outbound() == seq![OPCODE_SET_TX_PARAMS, power, ramp_time.spec_bits()],
            r.inbound() == zeros(3),
    {
        let tx_buf: [u8; 3] = [OPCODE_SET_TX_PARAMS, power, ramp_time.bits()];
        let rx_buf: [u8; 3] = [0; 3];
        assert(tx_buf@ =~= seq![OPCODE_SET_TX_PARAMS, power, ramp_time.spec_bits()]);
        assert(rx_buf@ =~= zeros(3));
        SetTxParams { tx_buf, rx_buf }
    }
}

impl Command<3> for SetTxParams {
    open spec fn spec_opcode() -> u8 {
        OPCODE_SET_TX_PARAMS
    }

    closed spec fn outbound(&self) -> Seq<u8> {
        self.tx_buf@
    }

    closed spec fn inbound(&self) -> Seq<u8> {
        self.rx_buf@
    }

    open spec fn spec_transfer_size(&self) -> nat {
        3
    }

    fn opcode() -> (r: u8) {
        OPCODE_SET_TX_PARAMS
    }

    fn tx_buf(&self) -> (r: &[u8; 3]) {
        proof {
            use_type_invariant(self);
        }
        &self.tx_buf
    }

    fn rx_buf(&self) -> (r: &[u8; 3]) {
        &self.rx_buf
    }

    fn set_rx_buf(&mut self, rx: [u8; 3]) {
        proof {
            use_type_invariant(&*self);
        }
        self.rx_buf = rx;
    }

    fn transfer_size(&self) -> (r: u16) {
        3
    }
}

/// Opcode of [`SetModulationParamsLora`].
pub const OPCODE_SET_MODULATION_PARAMS_LORA: u8 = 0x8B;

/// Sets the LoRa spreading factor, bandwidth, coding rate and low data rate optimisation.
pub struct SetModulationParamsLora {
    tx_buf: [u8; 5],
    rx_buf: [u8; 5],
}

impl SetModulationParamsLora {
    #[verifier::type_invariant]
    spec fn inv(&self) -> bool {
        self.tx_buf[0] == OPCODE_SET_MODULATION_PARAMS_LORA
    }

    /// The command for these parameters; the inbound buffer starts zeroed.
    pub fn new(sf: Sf, bw: Bw, cr: Cr, low_data_rate_optimize: bool) -> (r: SetModulationParamsLora)
        ensures
            r.outbound() == seq![OPCODE_SET_MODULATION_PARAMS_LORA, sf.spec_bits(), bw.spec_bits(), cr.spec_bits(), bool_byte(low_data_rate_optimize)],
            r.inbound() == zeros(5),
    {
        let tx_buf: [u8; 5] = [OPCODE_SET_MODULATION_PARAMS_LORA, sf.bits(), bw.bits(), cr.bits(), flag_byte(low_data_rate_optimize)];
        let rx_buf: [u8; 5] = [0; 5];
        assert(tx_buf@ =~= seq![OPCODE_SET_MODULATION_PARAMS_LORA, sf.spec_bits(), bw.spec_bits(), cr.spec_bits(), bool_byte(low_data_rate_optimize)]);
        assert(rx_buf@ =~= zeros(5));
        SetModulationParamsLora { tx_buf, rx_buf }
    }
}

impl Command<5> for SetModulationParamsLora {
    open spec fn spec_opcode() -> u8 {
        OPCODE_SET_MODULATION_PARAMS_LORA
    }

    closed spec fn outbound(&self) -> Seq<u8> {
        self.tx_buf@
    }

    closed spec fn inbound(&self) -> Seq<u8> {
        self.rx_buf@
    }

    open spec fn spec_transfer_size(&self) -> nat {
        5
    }

    fn opcode() -> (r: u8) {
        OPCODE_SET_MODULATION_PARAMS_LORA
    }

    fn tx_buf(&self) -> (r: &[u8; 5]) {
        proof {
            use_type_invariant(self);
        }
        &self.tx_buf
    }

    fn rx_buf(&self) -> (r: &[u8; 5]) {
        &self.rx_buf
    }

    fn set_rx_buf(&mut self, rx: [u8; 5]) {
        proof {
            use_type_invariant(&*self);
        }
        self.rx_buf = rx;
    }

    fn transfer_size(&self) -> (r: u16) {
        5
    }
}

/// Opcode of [`SetPacketParams`].
pub const OPCODE_SET_PACKET_PARAMS: u8 = 0x8C;

/// Sets the LoRa packet parameters: preamble length, header type, payload length, CRC and IQ setup.
pub struct SetPacketParams {
    tx_buf: [u8; 7],
    rx_buf: [u8; 7],
}

impl SetPacketParams {
    #[verifier::type_invariant]
    spec fn inv(&self) -> bool {
        self.tx_buf[0] == OPCODE_SET_PACKET_PARAMS
    }

    /// The command for these parameters; the inbound buffer starts zeroed.
    pub fn new(preamble_length: u16, header_type: HeaderType, payload_length: u8, crc_type: bool, invert_iq: InvertIq) -> (r: SetPacketParams)
        ensures
            r.outbound() == seq![OPCODE_SET_PACKET_PARAMS] + be_u16(preamble_length) + seq![header_type.spec_bits(), payload_length, bool_byte(crc_type), invert_iq.spec_bits()],
            r.inbound() == zeros(7),
    {
        let (p1, p0) = split_u16(preamble_length);
        let tx_buf: [u8; 7] = [OPCODE_SET_PACKET_PARAMS, p1, p0, header_type.bits(), payload_length, flag_byte(crc_type), invert_iq.bits()];
        let rx_buf: [u8; 7] = [0; 7];
        assert(tx_buf@ =~= seq![OPCODE_SET_PACKET_PARAMS] + be_u16(preamble_length) + seq![header_type.spec_bits(), payload_length, bool_byte(crc_type), invert_iq.spec_bits()]);
        assert(rx_buf@ =~= zeros(7));
        SetPacketParams { tx_buf, rx_buf }
    }
}

impl Command<7> for SetPacketParams {
    open spec fn spec_opcode() -> u8 {
        OPCODE_SET_PACKET_PARAMS
    }

    closed spec fn outbound(&self) -> Seq<u8> {
        self.tx_buf@
    }

    closed spec fn inbound(&self) -> Seq<u8> {
        self.rx_buf@
    }

    open spec fn spec_transfer_size(&self) -> nat {
        7
    }

    fn opcode() -> (r: u8) {
        OPCODE_SET_PACKET_PARAMS
    }

    fn tx_buf(&self) -> (r: &[u8; 7]) {
        proof {
            use_type_invariant(self);
        }
        &self.tx_buf
    }

    fn rx_buf(&self) -> (r: &[u8; 7]) {
        &self.rx_buf
    }

    fn set_rx_buf(&mut self, rx: [u8; 7]) {
        proof {
            use_type_invariant(&*self);
        }
        self.rx_buf = rx;
    }

    fn transfer_size(&self) -> (r: u16) {
        7
    }
}

/// Opcode of [`SetBufferBaseAddress`].
pub const OPCODE_SET_BUFFER_BASE_ADDRESS: u8 = 0x8F;

/// Sets where transmitted and received payloads start in the data buffer.
pub struct SetBufferBaseAddress {
    tx_buf: [u8; 3],
    rx_buf: [u8; 3],
}

impl SetBufferBaseAddress {
    #[verifier::type_invariant]
    spec fn inv(&self) -> bool {
        self.tx_buf[0] == OPCODE_SET_BUFFER_BASE_ADDRESS
    }

    /// The command for these parameters; the inbound buffer starts zeroed.
    pub fn new(tx_base_address: u8, rx_base_address: u8) -> (r: SetBufferBaseAddress)
        ensures
            r.outbound() == seq![OPCODE_SET_BUFFER_BASE_ADDRESS, tx_base_address, rx_base_address],
            r.inbound() == zeros(3),
    {
        let tx_buf: [u8; 3] = [OPCODE_SET_BUFFER_BASE_ADDRESS, tx_base_address, rx_base_address];
        let rx_buf: [u8; 3] = [0; 3];
        assert(tx_buf@ =~= seq![OPCODE_SET_BUFFER_BASE_ADDRESS, tx_base_address, rx_base_address]);
        assert(rx_buf@ =~= zeros(3));
        SetBufferBaseAddress { tx_buf, rx_buf }
    }
}

impl Command<3> for SetBufferBaseAddress {
    open spec fn spec_opcode() -> u8 {
        OPCODE_SET_BUFFER_BASE_ADDRESS
    }

    closed spec fn outbound(&self) -> Seq<u8> {
        self.tx_buf@
    }

    closed spec fn inbound(&self) -> Seq<u8> {
        self.rx_buf@
    }

    open spec fn spec_transfer_size(&self) -> nat {
        3
    }

    fn opcode() -> (r: u8) {
        OPCODE_SET_BUFFER_BASE_ADDRESS
    }

    fn tx_buf(&self) -> (r: &[u8; 3]) {
        proof {
            use_type_invariant(self);
        }
        &self.tx_buf
    }

    fn rx_buf(&self) -> (r: &[u8; 3]) {
        &self.rx_buf
    }

    fn set_rx_buf(&mut self, rx: [u8; 3]) {
        proof {
            use_type_invariant(&*self);
        }
        self.rx_buf = rx;
    }

    fn transfer_size(&self) -> (r: u16) {
        3
    }
}

/// Opcode of [`SetLoraSymbNumTimeout`].
pub const OPCODE_SET_LORA_SYMB_NUM_TIMEOUT: u8 = 0xA0;

/// Sets how many symbols the modem waits for to validate a reception.
pub struct SetLoraSymbNumTimeout {
    tx_buf: [u8; 2],
    rx_buf: [u8; 2],
}

impl SetLoraSymbNumTimeout {
    #[verifier::type_invariant]
    spec fn inv(&self) -> bool {
        self.tx_buf[0] == OPCODE_SET_LORA_SYMB_NUM_TIMEOUT
    }

    /// The command for these parameters; the inbound buffer starts zeroed.
    pub fn new(symb_num: u8) -> (r: SetLoraSymbNumTimeout)
        ensures
            r.outbound() == seq![OPCODE_SET_LORA_SYMB_NUM_TIMEOUT, symb_num],
            r.inbound() == zeros(2),
    {
        let tx_buf: [u8; 2] = [OPCODE_SET_LORA_SYMB_NUM_TIMEOUT, symb_num];
        let rx_buf: [u8; 2] = [0; 2];
        assert(tx_buf@ =~= seq![OPCODE_SET_LORA_SYMB_NUM_TIMEOUT, symb_num]);
        assert(rx_buf@ =~= zeros(2));
        SetLoraSymbNumTimeout { tx_buf, rx_buf }
    }
}

impl Command<2> for SetLoraSymbNumTimeout {
    open spec fn spec_opcode() -> u8 {
        OPCODE_SET_LORA_SYMB_NUM_TIMEOUT
    }

    closed spec fn outbound(&self) -> Seq<u8> {
        self.tx_buf@
    }

    closed spec fn inbound(&self) -> Seq<u8> {
        self.rx_buf@
    }

    open spec fn spec_transfer_size(&self) -> nat {
        2
    }

    fn opcode() -> (r: u8) {
        OPCODE_SET_LORA_SYMB_NUM_TIMEOUT
    }

    fn tx_buf(&self) -> (r: &[u8; 2]) {
        proof {
            use_type_invariant(self);
        }
        &self.tx_buf
    }

    fn rx_buf(&self) -> (r: &[u8; 2]) {
        &self.rx_buf
    }

    fn set_rx_buf(&mut self, rx: [u8; 2]) {
        proof {
            use_type_invariant(&*self);
        }
        self.rx_buf = rx;
    }

    fn transfer_size(&self) -> (r: u16) {
        2
    }
}

/// Opcode of [`GetStatus`].
pub const OPCODE_GET_STATUS: u8 = 0xC0;

/// Reads the device status byte.
pub struct GetStatus {
    tx_buf: [u8; 2],
    rx_buf: [u8; 2],
}

impl GetStatus {
    #[verifier::type_invariant]
    spec fn inv(&self) -> bool {
        self.tx_buf[0] == OPCODE_GET_STATUS
    }

    /// The command; the inbound buffer starts zeroed.
    pub fn new() -> (r: GetStatus)
        ensures
            r.outbound() == seq![OPCODE_GET_STATUS, 0u8],
            r.inbound() == zeros(2),
    {
        let tx_buf: [u8; 2] = [OPCODE_GET_STATUS, 0];
        let rx_buf: [u8; 2] = [0; 2];
        assert(tx_buf@ =~= seq![OPCODE_GET_STATUS, 0u8]);
        assert(rx_buf@ =~= zeros(2));
        GetStatus { tx_buf, rx_buf }
    }

    /// The chip mode in the received status byte.
    pub fn chip_mode(&self) -> (r: StatusChipMode)
        ensures
            r.spec_bits() == (self.inbound()[1] >> 4) & 0x07,
    {
        StatusChipMode::extract(self.rx_buf[1])
    }

    /// The command status in the received status byte.
    pub fn command_status(&self) -> (r: StatusCommandStatus)
        ensures
            r.spec_bits() == (self.inbound()[1] >> 1) & 0x07,
    {
        StatusCommandStatus::extract(self.rx_buf[1])
    }
}

impl Command<2> for GetStatus {
    open spec fn spec_opcode() -> u8 {
        OPCODE_GET_STATUS
    }

    closed spec fn outbound(&self) -> Seq<u8> {
        self.tx_buf@
    }

    closed spec fn inbound(&self) -> Seq<u8> {
        self.rx_buf@
    }

    open spec fn spec_transfer_size(&self) -> nat {
        2
    }

    fn opcode() -> (r: u8) {
        OPCODE_GET_STATUS
    }

    fn tx_buf(&self) -> (r: &[u8; 2]) {
        proof {
            use_type_invariant(self);
        }
        &self.tx_buf
    }

    fn rx_buf(&self) -> (r: &[u8; 2]) {
        &self.rx_buf
    }

    fn set_rx_buf(&mut self, rx: [u8; 2]) {
        proof {
            use_type_invariant(&*self);
        }
        self.rx_buf = rx;
    }

    fn transfer_size(&self) -> (r: u16) {
        2
    }
}

/// Opcode of [`GetRxBufferStatus`].
pub const OPCODE_GET_RX_BUFFER_STATUS: u8 = 0x13;

/// Reads the length of the last received payload and where it starts in the data buffer.
pub struct GetRxBufferStatus {
    tx_buf: [u8; 4],
    rx_buf: [u8; 4],
}

impl GetRxBufferStatus {
    #[verifier::type_invariant]
    spec fn inv(&self) -> bool {
        self.tx_buf[0] == OPCODE_GET_RX_BUFFER_STATUS
    }

    /// The command; the inbound buffer starts zeroed.
    pub fn new() -> (r: GetRxBufferStatus)
        ensures
            r.outbound() == seq![OPCODE_GET_RX_BUFFER_STATUS, 0u8, 0u8, 0u8],
            r.inbound() == zeros(4),
    {
        let tx_buf: [u8; 4] = [OPCODE_GET_RX_BUFFER_STATUS, 0, 0, 0];
        let rx_buf: [u8; 4] = [0; 4];
        assert(tx_buf@ =~= seq![OPCODE_GET_RX_BUFFER_STATUS, 0u8, 0u8, 0u8]);
        assert(rx_buf@ =~= zeros(4));
        GetRxBufferStatus { tx_buf, rx_buf }
    }

    /// The length of the last received payload (byte 2).
    pub fn payload_length_rx(&self) -> (r: u8)
        ensures
            r == self.inbound()[2],
    {
        self.rx_buf[2]
    }

    /// Where the last received payload starts in the data buffer (byte 3).
    pub fn rx_start_buffer_pointer(&self) -> (r: u8)
        ensures
            r == self.inbound()[3],
    {
        self.rx_buf[3]
    }
}

impl Command<4> for GetRxBufferStatus {
    open spec fn spec_opcode() -> u8 {
        OPCODE_GET_RX_BUFFER_STATUS
    }

    closed spec fn outbound(&self) -> Seq<u8> {
        self.tx_buf@
    }

    closed spec fn inbound(&self) -> Seq<u8> {
        self.rx_buf@
    }

    open spec fn spec_transfer_size(&self) -> nat {
        4
    }

    fn opcode() -> (r: u8) {
        OPCODE_GET_RX_BUFFER_STATUS
    }

    fn tx_buf(&self) -> (r: &[u8; 4]) {
        proof {
            use_type_invariant(self);
        }
        &self.tx_buf
    }

    fn rx_buf(&self) -> (r: &[u8; 4]) {
        &self.rx_buf
    }

    fn set_rx_buf(&mut self, rx: [u8; 4]) {
        proof {
            use_type_invariant(&*self);
        }
        self.rx_buf = rx;
    }

    fn transfer_size(&self) -> (r: u16) {
        4
    }
}

/// Opcode of [`GetPacketStatusLora`].
pub const OPCODE_GET_PACKET_STATUS_LORA: u8 = 0x14;

/// Reads the signal quality of the last received LoRa packet.
pub struct GetPacketStatusLora {
    tx_buf: [u8; 5],
    rx_buf: [u8; 5],
}

impl GetPacketStatusLora {
    #[verifier::type_invariant]
    spec fn inv(&self) -> bool {
        self.tx_buf[0] == OPCODE_GET_PACKET_STATUS_LORA
    }

    /// The command; the inbound buffer starts zeroed.
    pub fn new() -> (r: GetPacketStatusLora)
        ensures
            r.outbound() == seq![OPCODE_GET_PACKET_STATUS_LORA, 0u8, 0u8, 0u8, 0u8],
            r.inbound() == zeros(5),
    {
        let tx_buf: [u8; 5] = [OPCODE_GET_PACKET_STATUS_LORA, 0, 0, 0, 0];
        let rx_buf: [u8; 5] = [0; 5];
        assert(tx_buf@ =~= seq![OPCODE_GET_PACKET_STATUS_LORA, 0u8, 0u8, 0u8, 0u8]);
        assert(rx_buf@ =~= zeros(5));
        GetPacketStatusLora { tx_buf, rx_buf }
    }

    /// Average RSSI of the packet, in dBm (byte 2).
    pub fn rssi_pkt(&self) -> (r: i8)
        ensures
            r == rssi_dbm(self.inbound()[2]),
    {
        rssi_of(self.rx_buf[2])
    }

    /// SNR of the packet, in dB (byte 3).
    pub fn snr_pkt(&self) -> (r: i8)
        ensures
            r == snr_db(self.inbound()[3]),
    {
        snr_of(self.rx_buf[3])
    }

    /// RSSI of the despread LoRa signal, in dBm (byte 4).
    pub fn signal_rssi_pkt(&self) -> (r: i8)
        ensures
            r == rssi_dbm(self.inbound()[4]),
    {
        rssi_of(self.rx_buf[4])
    }
}

impl Command<5> for GetPacketStatusLora {
    open spec fn spec_opcode() -> u8 {
        OPCODE_GET_PACKET_STATUS_LORA
    }

    closed spec fn outbound(&self) -> Seq<u8> {
        self.tx_buf@
    }

    closed spec fn inbound(&self) -> Seq<u8> {
        self.rx_buf@
    }

    open spec fn spec_transfer_size(&self) -> nat {
        5
    }

    fn opcode() -> (r: u8) {
        OPCODE_GET_PACKET_STATUS_LORA
    }

    fn tx_buf(&self) -> (r: &[u8; 5]) {
        proof {
            use_type_invariant(self);
        }
        &self.tx_buf
    }

    fn rx_buf(&self) -> (r: &[u8; 5]) {
        &self.rx_buf
    }

    fn set_rx_buf(&mut self, rx: [u8; 5]) {
        proof {
            use_type_invariant(&*self);
        }
        self.rx_buf = rx;
    }

    fn transfer_size(&self) -> (r: u16) {
        5
    }
}

/// Opcode of [`GetStatsLora`].
pub const OPCODE_GET_STATS_LORA: u8 = 0x10;

/// Reads the counts of received packets, CRC errors and header errors.
pub struct GetStatsLora {
    tx_buf: [u8; 8],
    rx_buf: [u8; 8],
}

impl GetStatsLora {
    #[verifier::type_invariant]
    spec fn inv(&self) -> bool {
        self.tx_buf[0] == OPCODE_GET_STATS_LORA
    }

    /// The command; the inbound buffer starts zeroed.
    pub fn new() -> (r: GetStatsLora)
        ensures
            r.outbound() == seq![OPCODE_GET_STATS_LORA, 0u8, 0u8, 0u8, 0u8, 0u8, 0u8, 0u8],
            r.inbound() == zeros(8),
    {
        let tx_buf: [u8; 8] = [OPCODE_GET_STATS_LORA, 0, 0, 0, 0, 0, 0, 0];
        let rx_buf: [u8; 8] = [0; 8];
        assert(tx_buf@ =~= seq![OPCODE_GET_STATS_LORA, 0u8, 0u8, 0u8, 0u8, 0u8, 0u8, 0u8]);
        assert(rx_buf@ =~= zeros(8));
        GetStatsLora { tx_buf, rx_buf }
    }

    /// Packets received (bytes 2 and 3).
    pub fn nb_pkt_received(&self) -> (r: u16)
        ensures
            r == be_value(self.inbound()[2], self.inbound()[3]),
    {
        join_u16(self.rx_buf[2], self.rx_buf[3])
    }

    /// Packets received with a CRC error (bytes 4 and 5).
    pub fn nb_pkt_crc_error(&self) -> (r: u16)
        ensures
            r == be_value(self.inbound()[4], self.inbound()[5]),
    {
        join_u16(self.rx_buf[4], self.rx_buf[5])
    }

    /// Packets received with a header error (bytes 6 and 7).
    pub fn nb_pkt_header_err(&self) -> (r: u16)
        ensures
            r == be_value(self.inbound()[6], self.inbound()[7]),
    {
        join_u16(self.rx_buf[6], self.rx_buf[7])
    }
}

impl Command<8> for GetStatsLora {
    open spec fn spec_opcode() -> u8 {
        OPCODE_GET_STATS_LORA
    }

    closed spec fn outbound(&self) -> Seq<u8> {
        self.tx_buf@
    }

    closed spec fn inbound(&self) -> Seq<u8> {
        self.rx_buf@
    }

    open spec fn spec_transfer_size(&self) -> nat {
        8
    }

    fn opcode() -> (r: u8) {
        OPCODE_GET_STATS_LORA
    }

    fn tx_buf(&self) -> (r: &[u8; 8]) {
        proof {
            use_type_invariant(self);
        }
        &self.tx_buf
    }

    fn rx_buf(&self) -> (r: &[u8; 8]) {
        &self.rx_buf
    }

    fn set_rx_buf(&mut self, rx: [u8; 8]) {
        proof {
            use_type_invariant(&*self);
        }
        self.rx_buf = rx;
    }

    fn transfer_size(&self) -> (r: u16) {
        8
    }
}

/// Opcode of [`ResetStats`].
pub const OPCODE_RESET_STATS: u8 = 0x00;

/// Resets the packet counters.
pub struct ResetStats {
    tx_buf: [u8; 7],
    rx_buf: [u8; 7],
}

impl ResetStats {
    #[verifier::type_invariant]
    spec fn inv(&self) -> bool {
        self.tx_buf[0] == OPCODE_RESET_STATS
    }

    /// The command; the inbound buffer starts zeroed.
    pub fn new() -> (r: ResetStats)
        ensures
            r.outbound() == seq![OPCODE_RESET_STATS, 0u8, 0u8, 0u8, 0u8, 0u8, 0u8],
            r.inbound() == zeros(7),
    {
        let tx_buf: [u8; 7] = [OPCODE_RESET_STATS, 0, 0, 0, 0, 0, 0];
        let rx_buf: [u8; 7] = [0; 7];
        assert(tx_buf@ =~= seq![OPCODE_RESET_STATS, 0u8, 0u8, 0u8, 0u8, 0u8, 0u8]);
        assert(rx_buf@ =~= zeros(7));
        ResetStats { tx_buf, rx_buf }
    }
}

impl Command<7> for ResetStats {
    open spec fn spec_opcode() -> u8 {
        OPCODE_RESET_STATS
    }

    closed spec fn outbound(&self) -> Seq<u8> {
        self.tx_buf@
    }

    closed spec fn inbound(&self) -> Seq<u8> {
        self.rx_buf@
    }

    open spec fn spec_transfer_size(&self) -> nat {
        7
    }

    fn opcode() -> (r: u8) {
        OPCODE_RESET_STATS
    }

    fn tx_buf(&self) -> (r: &[u8; 7]) {
        proof {
            use_type_invariant(self);
        }
        &self.tx_buf
    }

    fn rx_buf(&self) -> (r: &[u8; 7]) {
        &self.rx_buf
    }

    fn set_rx_buf(&mut self, rx: [u8; 7]) {
        proof {
            use_type_invariant(&*self);
        }
        self.rx_buf = rx;
    }

    fn transfer_size(&self) -> (r: u16) {
        7
    }
}

/// Opcode of [`GetDeviceErrors`].
pub const OPCODE_GET_DEVICE_ERRORS: u8 = 0x17;

/// Reads the device error flags.
pub struct GetDeviceErrors {
    tx_buf: [u8; 4],
    rx_buf: [u8; 4],
}

impl GetDeviceErrors {
    #[verifier::type_invariant]
    spec fn inv(&self) -> bool {
        self.tx_buf[0] == OPCODE_GET_DEVICE_ERRORS
    }

    /// The command; the inbound buffer starts zeroed.
    pub fn new() -> (r: GetDeviceErrors)
        ensures
            r.outbound() == seq![OPCODE_GET_DEVICE_ERRORS, 0u8, 0u8, 0u8],
            r.inbound() == zeros(4),
    {
        let tx_buf: [u8; 4] = [OPCODE_GET_DEVICE_ERRORS, 0, 0, 0];
        let rx_buf: [u8; 4] = [0; 4];
        assert(tx_buf@ =~= seq![OPCODE_GET_DEVICE_ERRORS, 0u8, 0u8, 0u8]);
        assert(rx_buf@ =~= zeros(4));
        GetDeviceErrors { tx_buf, rx_buf }
    }

    /// The error flags in the received word (bytes 2 and 3).
    pub fn op_error(&self) -> (r: OpError)
        ensures
            r == OpError::spec_from_bits(be_value(self.inbound()[2], self.inbound()[3]) as u16),
    {
        OpError::from_bits(join_u16(self.rx_buf[2], self.rx_buf[3]))
    }
}

impl Command<4> for GetDeviceErrors {
    open spec fn spec_opcode() -> u8 {
        OPCODE_GET_DEVICE_ERRORS
    }

    closed spec fn outbound(&self) -> Seq<u8> {
        self.tx_buf@
    }

    closed spec fn inbound(&self) -> Seq<u8> {
        self.rx_buf@
    }

    open spec fn spec_transfer_size(&self) -> nat {
        4
    }

    fn opcode() -> (r: u8) {
        OPCODE_GET_DEVICE_ERRORS
    }

    fn tx_buf(&self) -> (r: &[u8; 4]) {
        proof {
            use_type_invariant(self);
        }
        &self.tx_buf
    }

    fn rx_buf(&self) -> (r: &[u8; 4]) {
        &self.rx_buf
    }

    fn set_rx_buf(&mut self, rx: [u8; 4]) {
        proof {
            use_type_invariant(&*self);
        }
        self.rx_buf = rx;
    }

    fn transfer_size(&self) -> (r: u16) {
        4
    }
}

/// Opcode of [`ClearDeviceErrors`].
pub const OPCODE_CLEAR_DEVICE_ERRORS: u8 = 0x07;

/// Clears the device error flags.
pub struct ClearDeviceErrors {
    tx_buf: [u8; 3],
    rx_buf: [u8; 3],
}

impl ClearDeviceErrors {
    #[verifier::type_invariant]
    spec fn inv(&self) -> bool {
        self.tx_buf[0] == OPCODE_CLEAR_DEVICE_ERRORS
    }

    /// The command; the inbound buffer starts zeroed.
    pub fn new() -> (r: ClearDeviceErrors)
        ensures
            r.outbound() == seq![OPCODE_CLEAR_DEVICE_ERRORS, 0u8, 0u8],
            r.inbound() == zeros(3),
    {
        let tx_buf: [u8; 3] = [OPCODE_CLEAR_DEVICE_ERRORS, 0, 0];
        let rx_buf: [u8; 3] = [0; 3];
        assert(tx_buf@ =~= seq![OPCODE_CLEAR_DEVICE_ERRORS, 0u8, 0u8]);
        assert(rx_buf@ =~= zeros(3));
        ClearDeviceErrors { tx_buf, rx_buf }
    }
}

impl Command<3> for ClearDeviceErrors {
    open spec fn spec_opcode() -> u8 {
        OPCODE_CLEAR_DEVICE_ERRORS
    }

    closed spec fn outbound(&self) -> Seq<u8> {
        self.tx_buf@
    }

    closed spec fn inbound(&self) -> Seq<u8> {
        self.rx_buf@
    }

    open spec fn spec_transfer_size(&self) -> nat {
        3
    }

    fn opcode() -> (r: u8) {
        OPCODE_CLEAR_DEVICE_ERRORS
    }

    fn tx_buf(&self) -> (r: &[u8; 3]) {
        proof {
            use_type_invariant(self);
        }
        &self.tx_buf
    }

    fn rx_buf(&self) -> (r: &[u8; 3]) {
        &self.rx_buf
    }

    fn set_rx_buf(&mut self, rx: [u8; 3]) {
        proof {
            use_type_invariant(&*self);
        }
        self.rx_buf = rx;
    }

    fn transfer_size(&self) -> (r: u16) {
        3
    }
}

/// Opcode of [`WriteRegister`].
pub const OPCODE_WRITE_REGISTER: u8 = 0x0D;

/// Writes one register: its address, most significant byte first, then the
/// value's byte.
pub struct WriteRegister {
    tx_buf: [u8; 4],
    rx_buf: [u8; 4],
}

impl WriteRegister {
    #[verifier::type_invariant]
    spec fn inv(&self) -> bool {
        self.tx_buf[0] == OPCODE_WRITE_REGISTER
    }

    /// The command that stores `register` at its address.
    pub fn new<R: Register>(register: R) -> (r: WriteRegister)
        ensures
            r.outbound() == seq![OPCODE_WRITE_REGISTER] + be_u16(R::spec_address()) + seq![
                register.spec_bits(),
            ],
            r.inbound() == zeros(4),
    {
        let (a1, a0) = split_u16(R::address());
        let tx_buf: [u8; 4] = [OPCODE_WRITE_REGISTER, a1, a0, register.bits()];
        let rx_buf: [u8; 4] = [0; 4];
        assert(tx_buf@ =~= seq![OPCODE_WRITE_REGISTER] + be_u16(R::spec_address()) + seq![
            register.spec_bits(),
        ]);
        assert(rx_buf@ =~= zeros(4));
        WriteRegister { tx_buf, rx_buf }
    }
}

impl Command<4> for WriteRegister {
    open spec fn spec_opcode() -> u8 {
        OPCODE_WRITE_REGISTER
    }

    closed spec fn outbound(&self) -> Seq<u8> {
        self.tx_buf@
    }

    closed spec fn inbound(&self) -> Seq<u8> {
        self.rx_buf@
    }

    open spec fn spec_transfer_size(&self) -> nat {
        4
    }

    fn opcode() -> (r: u8) {
        OPCODE_WRITE_REGISTER
    }

    fn tx_buf(&self) -> (r: &[u8; 4]) {
        proof {
            use_type_invariant(self);
        }
        &self.tx_buf
    }

    fn rx_buf(&self) -> (r: &[u8; 4]) {
        &self.rx_buf
    }

    fn set_rx_buf(&mut self, rx: [u8; 4]) {
        proof {
            use_type_invariant(&*self);
        }
        self.rx_buf = rx;
    }

    fn transfer_size(&self) -> (r: u16) {
        4
    }
}

/// Opcode of [`ReadRegister`].
pub const OPCODE_READ_REGISTER: u8 = 0x1D;

/// Reads one register of type `R`: its address, most significant byte first,
/// a dummy byte, and one byte in which the value comes back.
pub struct ReadRegister<R: Register> {
    tx_buf: [u8; 5],
    rx_buf: [u8; 5],
    register: core::marker::PhantomData<R>,
}

impl<R: Register> ReadRegister<R> {
    #[verifier::type_invariant]
    spec fn inv(&self) -> bool {
        self.tx_buf[0] == OPCODE_READ_REGISTER
    }

    /// The command that reads the register at `R`'s address.
    pub fn new() -> (r: ReadRegister<R>)
        ensures
            r.outbound() == seq![OPCODE_READ_REGISTER] + be_u16(R::spec_address()) + seq![0u8, 0u8],
            r.inbound() == zeros(5),
    {
        let (a1, a0) = split_u16(R::address());
        let tx_buf: [u8; 5] = [OPCODE_READ_REGISTER, a1, a0, 0, 0];
        let rx_buf: [u8; 5] = [0; 5];
        assert(tx_buf@ =~= seq![OPCODE_READ_REGISTER] + be_u16(R::spec_address()) + seq![0u8, 0u8]);
        assert(rx_buf@ =~= zeros(5));
        ReadRegister { tx_buf, rx_buf, register: core::marker::PhantomData }
    }

    /// The register value in the last received byte.
    pub fn register(&self) -> (r: R)
        ensures
            r == R::spec_from_bits(self.inbound()[4]),
    {
        R::from_bits(self.rx_buf[4])
    }
}

impl<R: Register> Command<5> for ReadRegister<R> {
    open spec fn spec_opcode() -> u8 {
        OPCODE_READ_REGISTER
    }

    closed spec fn outbound(&self) -> Seq<u8> {
        self.tx_buf@
    }

    closed spec fn inbound(&self) -> Seq<u8> {
        self.rx_buf@
    }

    open spec fn spec_transfer_size(&self) -> nat {
        5
    }

    fn opcode() -> (r: u8) {
        OPCODE_READ_REGISTER
    }

    fn tx_buf(&self) -> (r: &[u8; 5]) {
        proof {
            use_type_invariant(self);
        }
        &self.tx_buf
    }

    fn rx_buf(&self) -> (r: &[u8; 5]) {
        &self.rx_buf
    }

    fn set_rx_buf(&mut self, rx: [u8; 5]) {
        proof {
            use_type_invariant(&*self);
        }
        self.rx_buf = rx;
    }

    fn transfer_size(&self) -> (r: u16) {
        5
    }
}

/// Opcode of [`WriteBuffer`].
pub const OPCODE_WRITE_BUFFER: u8 = 0x0E;

/// Bytes in front of the payload of a [`WriteBuffer`]: opcode and offset.
pub const WRITE_BUFFER_HEADER: usize = 2;

/// Writes a payload into the device's data buffer from an offset on; the
/// device wraps from address 255 back to 0. The buffers are `N` bytes long,
/// two of header and `N - 2` of payload, of which the first `data_length` are
/// sent.
pub struct WriteBuffer<const N: usize> {
    tx_buf: [u8; N],
    rx_buf: [u8; N],
    data_length: u16,
}

impl<const N: usize> WriteBuffer<N> {
    #[verifier::type_invariant]
    spec fn inv(&self) -> bool {
        &&& N <= u16::MAX
        &&& self.tx_buf[0] == OPCODE_WRITE_BUFFER
        &&& WRITE_BUFFER_HEADER + self.data_length <= N
    }

    /// How many payload bytes are sent.
    pub closed spec fn spec_data_length(&self) -> nat {
        self.data_length as nat
    }

    /// The command with the whole of `data` to send from `offset` on.
    pub fn new<const M: usize>(offset: u8, data: [u8; M]) -> (r: WriteBuffer<N>)
        requires
            M + WRITE_BUFFER_HEADER == N,
            N <= u16::MAX,
        ensures
            r.outbound() == seq![OPCODE_WRITE_BUFFER, offset] + data@,
            r.inbound() == zeros(N as nat),
            r.spec_data_length() == M,
            r.spec_transfer_size() == N,
    {
        let mut tx_buf: [u8; N] = [0; N];
        tx_buf[0] = OPCODE_WRITE_BUFFER;
        tx_buf[1] = offset;
        let mut i: usize = 0;
        while i < M
            invariant
                M + WRITE_BUFFER_HEADER == N,
                i <= M,
                tx_buf@.len() == N,
                tx_buf@[0] == OPCODE_WRITE_BUFFER,
                tx_buf@[1] == offset,
                forall|j: int| 0 <= j < i ==> tx_buf@[j + 2] == data@[j],
            decreases M - i,
        {
            tx_buf[i + 2] = data[i];
            i += 1;
        }
        let rx_buf: [u8; N] = [0; N];
        assert(tx_buf@ =~= seq![OPCODE_WRITE_BUFFER, offset] + data@);
        assert(rx_buf@ =~= zeros(N as nat));
        WriteBuffer { tx_buf, rx_buf, data_length: M as u16 }
    }

    /// Sends only the first `data_length` payload bytes; the bytes themselves
    /// stay as they are.
    pub fn set_data_length(&mut self, data_length: u16)
        requires
            WRITE_BUFFER_HEADER + data_length <= N,
        ensures
            final(self).spec_data_length() == data_length,
            final(self).spec_transfer_size() == WRITE_BUFFER_HEADER + data_length,
            final(self).outbound() == old(self).outbound(),
            final(self).inbound() == old(self).inbound(),
    {
        proof {
            use_type_invariant(&*self);
        }
        self.data_length = data_length;
    }
}

impl<const N: usize> Command<N> for WriteBuffer<N> {
    open spec fn spec_opcode() -> u8 {
        OPCODE_WRITE_BUFFER
    }

    closed spec fn outbound(&self) -> Seq<u8> {
        self.tx_buf@
    }

    closed spec fn inbound(&self) -> Seq<u8> {
        self.rx_buf@
    }

    closed spec fn spec_transfer_size(&self) -> nat {
        (WRITE_BUFFER_HEADER + self.data_length) as nat
    }

    fn opcode() -> (r: u8) {
        OPCODE_WRITE_BUFFER
    }

    fn tx_buf(&self) -> (r: &[u8; N]) {
        proof {
            use_type_invariant(self);
        }
        &self.tx_buf
    }

    fn rx_buf(&self) -> (r: &[u8; N]) {
        &self.rx_buf
    }

    fn set_rx_buf(&mut self, rx: [u8; N]) {
        proof {
            use_type_invariant(&*self);
        }
        self.rx_buf = rx;
    }

    fn transfer_size(&self) -> (r: u16) {
        proof {
            use_type_invariant(self);
        }
        WRITE_BUFFER_HEADER as u16 + self.data_length
    }
}

/// Opcode of [`ReadBuffer`].
pub const OPCODE_READ_BUFFER: u8 = 0x1E;

/// Bytes in front of the payload of a [`ReadBuffer`]: opcode, offset and a
/// dummy byte.
pub const READ_BUFFER_HEADER: usize = 3;

/// Reads a payload from the device's data buffer from an offset on; the device
/// wraps from address 255 back to 0. The buffers are `N` bytes long, three of
/// header and `N - 3` of payload, of which the first `data_length` are read.
pub struct ReadBuffer<const N: usize> {
    tx_buf: [u8; N],
    rx_buf: [u8; N],
    data_length: u16,
}

impl<const N: usize> ReadBuffer<N> {
    #[verifier::type_invariant]
    spec fn inv(&self) -> bool {
        &&& N <= u16::MAX
        &&& self.tx_buf[0] == OPCODE_READ_BUFFER
        &&& READ_BUFFER_HEADER + self.data_length <= N
    }

    /// How many payload bytes are read.
    pub closed spec fn spec_data_length(&self) -> nat {
        self.data_length as nat
    }

    /// The command that reads the whole payload capacity from `offset` on.
    pub fn new(offset: u8) -> (r: ReadBuffer<N>)
        requires
            READ_BUFFER_HEADER <= N <= u16::MAX,
        ensures
            r.outbound() == seq![OPCODE_READ_BUFFER, offset] + zeros((N - 2) as nat),
            r.inbound() == zeros(N as nat),
            r.spec_data_length() == N - READ_BUFFER_HEADER,
            r.spec_transfer_size() == N,
    {
        let mut tx_buf: [u8; N] = [0; N];
        tx_buf[0] = OPCODE_READ_BUFFER;
        tx_buf[1] = offset;
        let rx_buf: [u8; N] = [0; N];
        assert(tx_buf@ =~= seq![OPCODE_READ_BUFFER, offset] + zeros((N - 2) as nat));
        assert(rx_buf@ =~= zeros(N as nat));
        ReadBuffer { tx_buf, rx_buf, data_length: (N - READ_BUFFER_HEADER) as u16 }
    }

    /// Reads only the first `data_length` payload bytes; the buffers stay as
    /// they are.
    pub fn set_data_length(&mut self, data_length: u16)
        requires
            READ_BUFFER_HEADER + data_length <= N,
        ensures
            final(self).spec_data_length() == data_length,
            final(self).spec_transfer_size() == READ_BUFFER_HEADER + data_length,
            final(self).outbound() == old(self).outbound(),
            final(self).inbound() == old(self).inbound(),
    {
        proof {
            use_type_invariant(&*self);
        }
        self.data_length = data_length;
    }

    /// The payload received: `data_length` bytes after the three-byte header.
    pub fn data(&self) -> (r: &[u8])
        ensures
            r@ == self.inbound().subrange(
                READ_BUFFER_HEADER as int,
                READ_BUFFER_HEADER + self.spec_data_length(),
            ),
    {
        proof {
            use_type_invariant(self);
        }
        &self.rx_buf[READ_BUFFER_HEADER..READ_BUFFER_HEADER + self.data_length as usize]
    }
}

impl<const N: usize> Command<N> for ReadBuffer<N> {
    open spec fn spec_opcode() -> u8 {
        OPCODE_READ_BUFFER
    }

    closed spec fn outbound(&self) -> Seq<u8> {
        self.tx_buf@
    }

    closed spec fn inbound(&self) -> Seq<u8> {
        self.rx_buf@
    }

    closed spec fn spec_transfer_size(&self) -> nat {
        (READ_BUFFER_HEADER + self.data_length) as nat
    }

    fn opcode() -> (r: u8) {
        OPCODE_READ_BUFFER
    }

    fn tx_buf(&self) -> (r: &[u8; N]) {
        proof {
            use_type_invariant(self);
        }
        &self.tx_buf
    }

    fn rx_buf(&self) -> (r: &[u8; N]) {
        &self.rx_buf
    }

    fn set_rx_buf(&mut self, rx: [u8; N]) {
        proof {
            use_type_invariant(&*self);
        }
        self.rx_buf = rx;
    }

    fn transfer_size(&self) -> (r: u16) {
        proof {
            use_type_invariant(self);
        }
        READ_BUFFER_HEADER as u16 + self.data_length
    }
}

/// What a transport needs to clock one command: the bytes to send, and how
/// many of them the transfer takes. The bytes received go back to the command
/// through [`Command::set_rx_buf`].
pub struct SpiDescriptor<'a> {
    pub tx_buf: &'a [u8],
    pub transfer_length: u16,
}

impl<'a> SpiDescriptor<'a> {
    /// The descriptor of `command` as it stands.
    pub fn new<const N: usize, C: Command<N>>(command: &'a C) -> (r: SpiDescriptor<'a>)
        ensures
            r.tx_buf@ == command.outbound(),
            r.transfer_length == command.spec_transfer_size(),
            r.transfer_length <= r.tx_buf@.len(),
    {
        SpiDescriptor { tx_buf: command.tx_buf(), transfer_length: command.transfer_size() }
    }
}

} // verus!
