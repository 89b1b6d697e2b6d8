//! Device registers: one byte each, at a fixed 16-bit address.
use vstd::prelude::*;

verus! {

/// A register type: its address, and the byte a value of it is stored as.
pub trait Register: Sized + Copy {
    /// The register's address.
    spec fn spec_address() -> u16;

    /// The byte that `self` is stored as.
    spec fn spec_bits(&self) -> u8;

    /// The value that a stored byte stands for.
    spec fn spec_from_bits(bits: u8) -> Self;

    fn address() -> (r: u16)
        ensures
            r == Self::spec_address(),
    ;

    fn bits(&self) -> (r: u8)
        ensures
            r == self.spec_bits(),
    ;

    fn from_bits(bits: u8) -> (r: Self)
        ensures
            r == Self::spec_from_bits(bits),
    ;

    /// Encoding and decoding are inverse to each other.
    proof fn lemma_bits_inverse(v: Self, bits: u8)
        ensures
            Self::spec_from_bits(v.spec_bits()) == v,
            Self::spec_from_bits(bits).spec_bits() == bits,
    ;
}

/// Decoding the byte a register value is stored as gives the value back, and
/// every byte is the encoding of the value it decodes to.
pub proof fn lemma_register_round_trip<R: Register>(v: R, bits: u8)
    ensures
        R::spec_from_bits(v.spec_bits()) == v,
        R::spec_from_bits(bits).spec_bits() == bits,
{
    R::lemma_bits_inverse(v, bits);
}

/// Most significant byte of the LoRa sync word.
#[derive(Clone, Copy, PartialEq, Eq, Debug, Structural)]
pub struct LoraSyncWordMsb(pub u8);

/// Address of the most significant byte of the LoRa sync word.
pub const LORA_SYNC_WORD_MSB_ADDRESS: u16 = 0x0740;

impl Register for LoraSyncWordMsb {
    open spec fn spec_address() -> u16 {
        LORA_SYNC_WORD_MSB_ADDRESS
    }

    open spec fn spec_bits(&self) -> u8 {
        self.0
    }

    open spec fn spec_from_bits(bits: u8) -> Self {
        LoraSyncWordMsb(bits)
    }

    fn address() -> (r: u16) {
        LORA_SYNC_WORD_MSB_ADDRESS
    }

    fn bits(&self) -> (r: u8) {
        self.0
    }

    fn from_bits(bits: u8) -> (r: Self) {
        LoraSyncWordMsb(bits)
    }

    proof fn lemma_bits_inverse(v: Self, bits: u8) {
    }
}

/// Least significant byte of the LoRa sync word.
#[derive(Clone, Copy, PartialEq, Eq, Debug, Structural)]
pub struct LoraSyncWordLsb(pub u8);

/// Address of the least significant byte of the LoRa sync word.
pub const LORA_SYNC_WORD_LSB_ADDRESS: u16 = 0x0741;

impl Register for LoraSyncWordLsb {
    open spec fn spec_address() -> u16 {
        LORA_SYNC_WORD_LSB_ADDRESS
    }

    open spec fn spec_bits(&self) -> u8 {
        self.0
    }

    open spec fn spec_from_bits(bits: u8) -> Self {
        LoraSyncWordLsb(bits)
    }

    fn address() -> (r: u16) {
        LORA_SYNC_WORD_LSB_ADDRESS
    }

    fn bits(&self) -> (r: u8) {
        self.0
    }

    fn from_bits(bits: u8) -> (r: Self) {
        LoraSyncWordLsb(bits)
    }

    proof fn lemma_bits_inverse(v: Self, bits: u8) {
    }
}

} // verus!
