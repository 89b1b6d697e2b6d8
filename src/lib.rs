//! Byte buffers for the SPI command set of Semtech SX126x radio transceivers.
//!
//! Every command is a value that owns an outbound and an inbound buffer of
//! equal length. The outbound buffer starts with the command's opcode; the
//! inbound buffer holds what the device shifted out during the transfer and is
//! read back through the command's decoding accessors.
pub mod bytes;
pub mod bitfields;
pub mod params;
pub mod registers;
pub mod commands;
