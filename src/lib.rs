//! A typed driver for the A7105 2.4GHz FSK/GFSK transceiver.
//!
//! Register values are typed and carried over the bus by verified byte codecs; the packet
//! receive and transmit protocols are verified state machines that say which bus
//! transaction comes next and what each reply leads to. Running the transactions on an
//! actual SPI device is left to the caller, who hands every reply back to the machine.
//!
//! The driver makes no assumption about the protocol used over the air: it configures
//! the radio and moves raw bytes into and out of its FIFO buffers.
use vstd::prelude::*;

pub mod bus;
pub mod commands;
pub mod error;
pub mod packet;
pub mod registers;

pub use error::{PacketError, ReadPacketError};

verus! {

/// The `A7105` is the primary type for interfacing with the radio hardware: it owns the
/// SPI device for its whole lifetime.
pub struct A7105<SPI> {
    spi: SPI,
}

impl<SPI> A7105<SPI> {
    /// The SPI device owned by this instance.
    pub closed spec fn device(&self) -> SPI {
        self.spi
    }

    /// Constructs a new instance of a [`A7105`] from the provided SPI device.
    ///
    /// This makes no call to the radio hardware and does nothing to configure the device:
    /// it must have been configured before, and all radio configuration is done through
    /// the returned instance.
    pub fn new(spi: SPI) -> (r: Self)
        ensures
            r.device() == spi,
    {
        Self { spi }
    }

    /// Destroys this instance of the [`A7105`], returning the inner SPI device.
    ///
    /// This makes no call to the radio hardware. Any house keeping to shut down the radio
    /// must be done before.
    pub fn destroy(self) -> (r: SPI)
        ensures
            r == self.device(),
    {
        self.spi
    }

    /// The SPI device, for running the transactions that the driver asks for.
    pub fn spi_mut(&mut self) -> (r: &mut SPI)
        ensures
            *r == old(self).device(),
            final(self).device() == *final(r),
    {
        &mut self.spi
    }
}

} // verus!
