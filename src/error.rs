//! Errors of a packet receive.
use crate::registers;
use vstd::prelude::*;
use vstd::std_specs::convert::FromSpecImpl;

verus! {

/// An error that can result from the attempt to receive a packet with
/// the A7105
#[derive(PartialEq, Debug, Clone)]
pub enum ReadPacketError<E> {
    /// A SPI error was encountered
    SpiError(E),
    /// An error was encountered with the recieved packet
    PacketError(PacketError),
}

/// A type that represents the errors that were encountered with a
/// received packet
#[derive(PartialEq, Debug, Clone)]
pub struct PacketError {
    /// The Forward Error Correction (FEC) failed on the received packet
    pub fec_failed: bool,
    /// The CRC failed on the received packet
    pub crc_failed: bool,
}

impl<E> FromSpecImpl<E> for ReadPacketError<E> {
    open spec fn obeys_from_spec() -> bool {
        true
    }

    open spec fn from_spec(value: E) -> ReadPacketError<E> {
        ReadPacketError::SpiError(value)
    }
}

impl<E> From<E> for ReadPacketError<E> {
    fn from(value: E) -> Self {
        Self::SpiError(value)
    }
}

impl FromSpecImpl<registers::Mode> for PacketError {
    open spec fn obeys_from_spec() -> bool {
        true
    }

    open spec fn from_spec(mode: registers::Mode) -> PacketError {
        PacketError { fec_failed: !mode.fec_pass, crc_failed: !mode.crc_pass }
    }
}

impl From<registers::Mode> for PacketError {
    fn from(mode: registers::Mode) -> Self {
        Self { fec_failed: !mode.fec_pass, crc_failed: !mode.crc_pass }
    }
}

} // verus!
