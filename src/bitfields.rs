//! Flag words of the command set: named one-bit fields packed into a byte or
//! a 16-bit word, with reserved bits written as zero and ignored on read.
use vstd::prelude::*;

verus! {

/// `mask` where the flag is set, zero where it is clear.
pub open spec fn flag_bits8(b: bool, mask: u8) -> u8 {
    if b {
        mask
    } else {
        0
    }
}

/// `mask` where the flag is set, zero where it is clear.
pub open spec fn flag_bits16(b: bool, mask: u16) -> u16 {
    if b {
        mask
    } else {
        0
    }
}

fn mask_if8(b: bool, mask: u8) -> (r: u8)
    ensures
        r == flag_bits8(b, mask),
{
    if b {
        mask
    } else {
        0
    }
}

fn mask_if16(b: bool, mask: u16) -> (r: u16)
    ensures
        r == flag_bits16(b, mask),
{
    if b {
        mask
    } else {
        0
    }
}

/// The bits of a sleep configuration byte that carry a field.
pub const SLEEP_CONFIG_FIELDS: u8 = 0x04;

/// Sleep configuration, most significant bit first: five reserved bits, the
/// warm-start flag (bit 2), two reserved bits.
#[derive(Clone, Copy, Debug, PartialEq, Eq, Structural)]
pub struct SleepConfig {
    /// Keep the configuration through sleep, so that the device starts warm.
    pub warm_start: bool,
}

impl SleepConfig {
    /// The byte this configuration is sent as.
    pub open spec fn spec_bits(self) -> u8 {
        flag_bits8(self.warm_start, 0x04)
    }

    /// The configuration a byte stands for; reserved bits are ignored.
    pub open spec fn spec_from_bits(bits: u8) -> SleepConfig {
        SleepConfig { warm_start: bits & 0x04 != 0 }
    }

    /// The configuration with every field clear.
    pub fn new() -> (r: SleepConfig)
        ensures
            r.spec_bits() == 0,
            !r.warm_start,
    {
        SleepConfig { warm_start: false }
    }

    /// This configuration with the warm-start flag set to `v`.
    pub fn with_warm_start(self, v: bool) -> (r: SleepConfig)
        ensures
            r == (SleepConfig { warm_start: v, ..self }),
    {
        SleepConfig { warm_start: v, ..self }
    }

    /// Packs the fields into one byte.
    pub fn into_bits(self) -> (r: u8)
        ensures
            r == self.spec_bits(),
    {
        mask_if8(self.warm_start, 0x04)
    }

    /// Unpacks a byte; reserved bits are dropped.
    pub fn from_bits(bits: u8) -> (r: SleepConfig)
        ensures
            r == SleepConfig::spec_from_bits(bits),
    {
        SleepConfig { warm_start: bits & 0x04 != 0 }
    }
}

/// Decoding an encoded sleep configuration gives it back, and the reserved
/// bits of any byte read back as zero.
pub proof fn lemma_sleep_config_round_trip(c: SleepConfig, bits: u8)
    ensures
        SleepConfig::spec_from_bits(c.spec_bits()) == c,
        SleepConfig::spec_from_bits(bits).spec_bits() == bits & SLEEP_CONFIG_FIELDS,
{
    let w = c.warm_start;
    assert((flag_bits8(w, 0x04) & 0x04 != 0) == w) by (bit_vector);
    assert(flag_bits8(bits & 0x04 != 0, 0x04) == bits & 0x04) by (bit_vector);
}

/// The bits of an interrupt word that carry a field.
pub const IRQ_FIELDS: u16 = 0x43FF;

/// Interrupt sources, least significant bit first: ten flags in bits 0 to 9,
/// four reserved bits, the frequency-hop flag (bit 14), one reserved bit.
#[derive(Clone, Copy, Debug, PartialEq, Eq, Structural)]
pub struct Irq {
    pub tx_done: bool,
    pub rx_done: bool,
    pub preamble_detected: bool,
    pub sync_word_valid: bool,
    pub header_valid: bool,
    pub header_err: bool,
    pub crc_err: bool,
    pub cad_done: bool,
    pub cad_detected: bool,
    pub timeout: bool,
    pub lr_fhss_hop: bool,
}

impl Irq {
    /// The word these flags are sent as.
    pub open spec fn spec_bits(self) -> u16 {
        flag_bits16(self.tx_done, 0x0001) | flag_bits16(self.rx_done, 0x0002) | flag_bits16(
            self.preamble_detected,
            0x0004,
        ) | flag_bits16(self.sync_word_valid, 0x0008) | flag_bits16(self.header_valid, 0x0010)
            | flag_bits16(self.header_err, 0x0020) | flag_bits16(self.crc_err, 0x0040)
            | flag_bits16(self.cad_done, 0x0080) | flag_bits16(self.cad_detected, 0x0100)
            | flag_bits16(self.timeout, 0x0200) | flag_bits16(self.lr_fhss_hop, 0x4000)
    }

    /// The flags a word stands for; reserved bits are ignored.
    pub open spec fn spec_from_bits(bits: u16) -> Irq {
        Irq {
            tx_done: bits & 0x0001 != 0,
            rx_done: bits & 0x0002 != 0,
            preamble_detected: bits & 0x0004 != 0,
            sync_word_valid: bits & 0x0008 != 0,
            header_valid: bits & 0x0010 != 0,
            header_err: bits & 0x0020 != 0,
            crc_err: bits & 0x0040 != 0,
            cad_done: bits & 0x0080 != 0,
            cad_detected: bits & 0x0100 != 0,
            timeout: bits & 0x0200 != 0,
            lr_fhss_hop: bits & 0x4000 != 0,
        }
    }

    /// No interrupt source selected.
    pub fn new() -> (r: Irq)
        ensures
            r == (Irq {
                tx_done: false,
                rx_done: false,
                preamble_detected: false,
                sync_word_valid: false,
                header_valid: false,
                header_err: false,
                crc_err: false,
                cad_done: false,
                cad_detected: false,
                timeout: false,
                lr_fhss_hop: false,
            }),
    {
        Irq {
            tx_done: false,
            rx_done: false,
            preamble_detected: false,
            sync_word_valid: false,
            header_valid: false,
            header_err: false,
            crc_err: false,
            cad_done: false,
            cad_detected: false,
            timeout: false,
            lr_fhss_hop: false,
        }
    }

    /// These flags with `tx_done` set to `v`.
    pub fn with_tx_done(self, v: bool) -> (r: Irq)
        ensures
            r == (Irq { tx_done: v, ..self }),
    {
        Irq { tx_done: v, ..self }
    }

    /// These flags with `rx_done` set to `v`.
    pub fn with_rx_done(self, v: bool) -> (r: Irq)
        ensures
            r == (Irq { rx_done: v, ..self }),
    {
        Irq { rx_done: v, ..self }
    }

    /// These flags with `preamble_detected` set to `v`.
    pub fn with_preamble_detected(self, v: bool) -> (r: Irq)
        ensures
            r == (Irq { preamble_detected: v, ..self }),
    {
        Irq { preamble_detected: v, ..self }
    }

    /// These flags with `sync_word_valid` set to `v`.
    pub fn with_sync_word_valid(self, v: bool) -> (r: Irq)
        ensures
            r == (Irq { sync_word_valid: v, ..self }),
    {
        Irq { sync_word_valid: v, ..self }
    }

    /// These flags with `header_valid` set to `v`.
    pub fn with_header_valid(self, v: bool) -> (r: Irq)
        ensures
            r == (Irq { header_valid: v, ..self }),
    {
        Irq { header_valid: v, ..self }
    }

    /// These flags with `header_err` set to `v`.
    pub fn with_header_err(self, v: bool) -> (r: Irq)
        ensures
            r == (Irq { header_err: v, ..self }),
    {
        Irq { header_err: v, ..self }
    }

    /// These flags with `crc_err` set to `v`.
    pub fn with_crc_err(self, v: bool) -> (r: Irq)
        ensures
            r == (Irq { crc_err: v, ..self }),
    {
        Irq { crc_err: v, ..self }
    }

    /// These flags with `cad_done` set to `v`.
    pub fn with_cad_done(self, v: bool) -> (r: Irq)
        ensures
            r == (Irq { cad_done: v, ..self }),
    {
        Irq { cad_done: v, ..self }
    }

    /// These flags with `cad_detected` set to `v`.
    pub fn with_cad_detected(self, v: bool) -> (r: Irq)
        ensures
            r == (Irq { cad_detected: v, ..self }),
    {
        Irq { cad_detected: v, ..self }
    }

    /// These flags with `timeout` set to `v`.
    pub fn with_timeout(self, v: bool) -> (r: Irq)
        ensures
            r == (Irq { timeout: v, ..self }),
    {
        Irq { timeout: v, ..self }
    }

    /// These flags with `lr_fhss_hop` set to `v`.
    pub fn with_lr_fhss_hop(self, v: bool) -> (r: Irq)
        ensures
            r == (Irq { lr_fhss_hop: v, ..self }),
    {
        Irq { lr_fhss_hop: v, ..self }
    }

    /// Packs the flags into one word.
    pub fn into_bits(self) -> (r: u16)
        ensures
            r == self.spec_bits(),
    {
        mask_if16(self.tx_done, 0x0001) | mask_if16(self.rx_done, 0x0002) | mask_if16(
            self.preamble_detected,
            0x0004,
        ) | mask_if16(self.sync_word_valid, 0x0008) | mask_if16(self.header_valid, 0x0010)
            | mask_if16(self.header_err, 0x0020) | mask_if16(self.crc_err, 0x0040) | mask_if16(
            self.cad_done,
            0x0080,
        ) | mask_if16(self.cad_detected, 0x0100) | mask_if16(self.timeout, 0x0200)
            | mask_if16(self.lr_fhss_hop, 0x4000)
    }

    /// Unpacks a word; reserved bits are dropped.
    pub fn from_bits(bits: u16) -> (r: Irq)
        ensures
            r == Irq::spec_from_bits(bits),
    {
        Irq {
            tx_done: bits & 0x0001 != 0,
            rx_done: bits & 0x0002 != 0,
            preamble_detected: bits & 0x0004 != 0,
            sync_word_valid: bits & 0x0008 != 0,
            header_valid: bits & 0x0010 != 0,
            header_err: bits & 0x0020 != 0,
            crc_err: bits & 0x0040 != 0,
            cad_done: bits & 0x0080 != 0,
            cad_detected: bits & 0x0100 != 0,
            timeout: bits & 0x0200 != 0,
            lr_fhss_hop: bits & 0x4000 != 0,
        }
    }
}

/// Decoding an encoded interrupt word gives the flags back, and the reserved
/// bits of any word read back as zero.
pub proof fn lemma_irq_round_trip(irq: Irq, bits: u16)
    ensures
        Irq::spec_from_bits(irq.spec_bits()) == irq,
        Irq::spec_from_bits(bits).spec_bits() == bits & IRQ_FIELDS,
{
    let (a, b, c, d, e) = (
        irq.tx_done,
        irq.rx_done,
        irq.preamble_detected,
        irq.sync_word_valid,
        irq.header_valid,
    );
    let (f, g, h, i, j, k) = (
        irq.header_err,
        irq.crc_err,
        irq.cad_done,
        irq.cad_detected,
        irq.timeout,
        irq.lr_fhss_hop,
    );
    let x = irq.spec_bits();
    assert(x == flag_bits16(a, 0x0001) | flag_bits16(b, 0x0002) | flag_bits16(c, 0x0004)
        | flag_bits16(d, 0x0008) | flag_bits16(e, 0x0010) | flag_bits16(f, 0x0020) | flag_bits16(
        g,
        0x0040,
    ) | flag_bits16(h, 0x0080) | flag_bits16(i, 0x0100) | flag_bits16(j, 0x0200) | flag_bits16(
        k,
        0x4000,
    ) ==> (x & 0x0001 != 0) == a && (x & 0x0002 != 0) == b && (x & 0x0004 != 0) == c && (x
        & 0x0008 != 0) == d && (x & 0x0010 != 0) == e && (x & 0x0020 != 0) == f && (x & 0x0040
        != 0) == g && (x & 0x0080 != 0) == h && (x & 0x0100 != 0) == i && (x & 0x0200 != 0) == j
        && (x & 0x4000 != 0) == k) by (bit_vector);
    assert(flag_bits16(bits & 0x0001 != 0, 0x0001) | flag_bits16(bits & 0x0002 != 0, 0x0002)
        | flag_bits16(bits & 0x0004 != 0, 0x0004) | flag_bits16(bits & 0x0008 != 0, 0x0008)
        | flag_bits16(bits & 0x0010 != 0, 0x0010) | flag_bits16(bits & 0x0020 != 0, 0x0020)
        | flag_bits16(bits & 0x0040 != 0, 0x0040) | flag_bits16(bits & 0x0080 != 0, 0x0080)
        | flag_bits16(bits & 0x0100 != 0, 0x0100) | flag_bits16(bits & 0x0200 != 0, 0x0200)
        | flag_bits16(bits & 0x4000 != 0, 0x4000) == bits & 0x43FF) by (bit_vector);
}

/// The bits of a device error word that carry a field.
pub const OP_ERROR_FIELDS: u16 = 0x017F;

/// Device error flags, least significant bit first: seven flags in bits 0 to
/// 6, one reserved bit, the power-amplifier ramp flag (bit 8), seven reserved
/// bits.
#[derive(Clone, Copy, Debug, PartialEq, Eq, Structural)]
pub struct OpError {
    pub rc64k_calib_err: bool,
    pub rc13m_calib_err: bool,
    pub pll_calib_err: bool,
    pub adc_calib_err: bool,
    pub img_calib_err: bool,
    pub xosc_start_err: bool,
    pub pll_lock_err: bool,
    pub pa_ramp_err: bool,
}

impl OpError {
    /// The word these flags are sent as.
    pub open spec fn spec_bits(self) -> u16 {
        flag_bits16(self.rc64k_calib_err, 0x0001)
            | flag_bits16(self.rc13m_calib_err, 0x0002)
            | flag_bits16(self.pll_calib_err, 0x0004)
            | flag_bits16(self.adc_calib_err, 0x0008)
            | flag_bits16(self.img_calib_err, 0x0010)
            | flag_bits16(self.xosc_start_err, 0x0020)
            | flag_bits16(self.pll_lock_err, 0x0040)
            | flag_bits16(self.pa_ramp_err, 0x0100)
    }

    /// The flags a word stands for; reserved bits are ignored.
    pub open spec fn spec_from_bits(bits: u16) -> OpError {
        OpError {
            rc64k_calib_err: bits & 0x0001 != 0,
            rc13m_calib_err: bits & 0x0002 != 0,
            pll_calib_err: bits & 0x0004 != 0,
            adc_calib_err: bits & 0x0008 != 0,
            img_calib_err: bits & 0x0010 != 0,
            xosc_start_err: bits & 0x0020 != 0,
            pll_lock_err: bits & 0x0040 != 0,
            pa_ramp_err: bits & 0x0100 != 0,
        }
    }

    /// No error flag set.
    pub fn new() -> (r: OpError)
        ensures
            r == (OpError {
                rc64k_calib_err: false,
                rc13m_calib_err: false,
                pll_calib_err: false,
                adc_calib_err: false,
                img_calib_err: false,
                xosc_start_err: false,
                pll_lock_err: false,
                pa_ramp_err: false,
            }),
    {
        OpError {
            rc64k_calib_err: false,
            rc13m_calib_err: false,
            pll_calib_err: false,
            adc_calib_err: false,
            img_calib_err: false,
            xosc_start_err: false,
            pll_lock_err: false,
            pa_ramp_err: false,
        }
    }

    /// These flags with `rc64k_calib_err` set to `v`.
    pub fn with_rc64k_calib_err(self, v: bool) -> (r: OpError)
        ensures
            r == (OpError { rc64k_calib_err: v, ..self }),
    {
        OpError { rc64k_calib_err: v, ..self }
    }

    /// These flags with `rc13m_calib_err` set to `v`.
    pub fn with_rc13m_calib_err(self, v: bool) -> (r: OpError)
        ensures
            r == (OpError { rc13m_calib_err: v, ..self }),
    {
        OpError { rc13m_calib_err: v, ..self }
    }

    /// These flags with `pll_calib_err` set to `v`.
    pub fn with_pll_calib_err(self, v: bool) -> (r: OpError)
        ensures
            r == (OpError { pll_calib_err: v, ..self }),
    {
        OpError { pll_calib_err: v, ..self }
    }

    /// These flags with `adc_calib_err` set to `v`.
    pub fn with_adc_calib_err(self, v: bool) -> (r: OpError)
        ensures
            r == (OpError { adc_calib_err: v, ..self }),
    {
        OpError { adc_calib_err: v, ..self }
    }

    /// These flags with `img_calib_err` set to `v`.
    pub fn with_img_calib_err(self, v: bool) -> (r: OpError)
        ensures
            r == (OpError { img_calib_err: v, ..self }),
    {
        OpError { img_calib_err: v, ..self }
    }

    /// These flags with `xosc_start_err` set to `v`.
    pub fn with_xosc_start_err(self, v: bool) -> (r: OpError)
        ensures
            r == (OpError { xosc_start_err: v, ..self }),
    {
        OpError { xosc_start_err: v, ..self }
    }

    /// These flags with `pll_lock_err` set to `v`.
    pub fn with_pll_lock_err(self, v: bool) -> (r: OpError)
        ensures
            r == (OpError { pll_lock_err: v, ..self }),
    {
        OpError { pll_lock_err: v, ..self }
    }

    /// These flags with `pa_ramp_err` set to `v`.
    pub fn with_pa_ramp_err(self, v: bool) -> (r: OpError)
        ensures
            r == (OpError { pa_ramp_err: v, ..self }),
    {
        OpError { pa_ramp_err: v, ..self }
    }

    /// Packs the flags into one word.
    pub fn into_bits(self) -> (r: u16)
        ensures
            r == self.spec_bits(),
    {
        mask_if16(self.rc64k_calib_err, 0x0001)
            | mask_if16(self.rc13m_calib_err, 0x0002)
            | mask_if16(self.pll_calib_err, 0x0004)
            | mask_if16(self.adc_calib_err, 0x0008)
            | mask_if16(self.img_calib_err, 0x0010)
            | mask_if16(self.xosc_start_err, 0x0020)
            | mask_if16(self.pll_lock_err, 0x0040)
            | mask_if16(self.pa_ramp_err, 0x0100)
    }

    /// Unpacks a word; reserved bits are dropped.
    pub fn from_bits(bits: u16) -> (r: OpError)
        ensures
            r == OpError::spec_from_bits(bits),
    {
        OpError {
            rc64k_calib_err: bits & 0x0001 != 0,
            rc13m_calib_err: bits & 0x0002 != 0,
            pll_calib_err: bits & 0x0004 != 0,
            adc_calib_err: bits & 0x0008 != 0,
            img_calib_err: bits & 0x0010 != 0,
            xosc_start_err: bits & 0x0020 != 0,
            pll_lock_err: bits & 0x0040 != 0,
            pa_ramp_err: bits & 0x0100 != 0,
        }
    }
}

/// Decoding an encoded device error word gives the flags back, and the
/// reserved bits of any word read back as zero.
pub proof fn lemma_op_error_round_trip(err: OpError, bits: u16)
    ensures
        OpError::spec_from_bits(err.spec_bits()) == err,
        OpError::spec_from_bits(bits).spec_bits() == bits & OP_ERROR_FIELDS,
{
    let a = err.rc64k_calib_err;
    let b = err.rc13m_calib_err;
    let c = err.pll_calib_err;
    let d = err.adc_calib_err;
    let e = err.img_calib_err;
    let f = err.xosc_start_err;
    let g = err.pll_lock_err;
    let h = err.pa_ramp_err;
    let x = err.spec_bits();
    assert(x == flag_bits16(a, 0x0001) | flag_bits16(b, 0x0002) | flag_bits16(c, 0x0004) | flag_bits16(d, 0x0008) | flag_bits16(e, 0x0010) | flag_bits16(f, 0x0020) | flag_bits16(g, 0x0040) | flag_bits16(h, 0x0100) ==> (x & 0x0001 != 0) == a && (x & 0x0002 != 0) == b && (x & 0x0004 != 0) == c && (x & 0x0008 != 0) == d && (x & 0x0010 != 0) == e && (x & 0x0020 != 0) == f && (x & 0x0040 != 0) == g && (x & 0x0100 != 0) == h) by (bit_vector);
    assert(flag_bits16(bits & 0x0001 != 0, 0x0001) | flag_bits16(bits & 0x0002 != 0, 0x0002) | flag_bits16(bits & 0x0004 != 0, 0x0004) | flag_bits16(bits & 0x0008 != 0, 0x0008) | flag_bits16(bits & 0x0010 != 0, 0x0010) | flag_bits16(bits & 0x0020 != 0, 0x0020) | flag_bits16(bits & 0x0040 != 0, 0x0040) | flag_bits16(bits & 0x0100 != 0, 0x0100) == bits & 0x017F) by (bit_vector);
}

} // verus!
