//! The packet receive and transmit protocols, as state machines.
//!
//! Each machine is started with what the caller wants to move, which gives the first bus
//! request. The caller performs every request on the SPI device and hands the reply (the
//! bytes of its read phases, or the device's error) to [`advance`](PacketReceive::advance),
//! which gives the next request or the outcome. A device error ends the protocol at once:
//! no further request follows it.
use crate::bus::{
    command_request, command_write, read_register_request, register_read, reply_len,
    rx_buffer_read, rx_buffer_request, tx_buffer_request, tx_buffer_write, BusRequest,
    BusRequestView,
};
use crate::commands::Command;
use crate::error::{PacketError, ReadPacketError};
use crate::registers;
use crate::registers::{FromSlice, Register};
use vstd::prelude::*;
use vstd::std_specs::convert::FromSpec;

verus! {

/// What a protocol asks for next.
#[derive(PartialEq, Debug)]
pub enum Step<T, E> {
    /// Perform this request and hand its reply back.
    Request(BusRequest),
    /// The protocol is over, with this outcome.
    Done(Result<T, E>),
}

/// What a [`Step`] says, with its request as a plain value.
pub enum StepView<T, E> {
    Request(BusRequestView),
    Done(Result<T, E>),
}

impl<T, E> View for Step<T, E> {
    type V = StepView<T, E>;

    open spec fn view(&self) -> StepView<T, E> {
        match self {
            Step::Request(request) => StepView::Request(request@),
            Step::Done(outcome) => StepView::Done(*outcome),
        }
    }
}

/// The status read that opens a receive: the mode register, read as one byte.
pub open spec fn status_read() -> BusRequestView {
    register_read(registers::Mode::address(), 1)
}

/// The packet validity flags that a status byte reports.
pub open spec fn packet_status(status: u8) -> registers::Mode {
    <registers::Mode as FromSpec<u8>>::from_spec(status)
}

/// Where a receive stands.
#[derive(PartialEq, Eq, Debug, Copy, Clone)]
pub enum ReceiveStage {
    /// Waiting for the status register.
    Status,
    /// Waiting for the RX read pointer reset.
    ReadPointerReset,
    /// Waiting for the RX FIFO contents.
    Buffer,
    /// Over.
    Done,
}

/// One move of a receive: from the stage it is in, the buffer length and the reply to the
/// pending request, the next stage and what comes next.
pub open spec fn receive_step<E>(stage: ReceiveStage, len: nat, reply: Result<Vec<u8>, E>) -> (
    ReceiveStage,
    StepView<Vec<u8>, ReadPacketError<E>>,
) {
    match reply {
        Err(e) => (ReceiveStage::Done, StepView::Done(Err(ReadPacketError::SpiError(e)))),
        Ok(bytes) => match stage {
            ReceiveStage::Status => {
                let status = packet_status(bytes@[0]);
                if status.fec_pass && status.crc_pass {
                    (
                        ReceiveStage::ReadPointerReset,
                        StepView::Request(command_write(Command::ResetFifoReadPointer)),
                    )
                } else {
                    (
                        ReceiveStage::Done,
                        StepView::Done(
                            Err(
                                ReadPacketError::PacketError(
                                    PacketError {
                                        fec_failed: !status.fec_pass,
                                        crc_failed: !status.crc_pass,
                                    },
                                ),
                            ),
                        ),
                    )
                }
            },
            ReceiveStage::ReadPointerReset => (
                ReceiveStage::Buffer,
                StepView::Request(rx_buffer_read(len)),
            ),
            _ => (ReceiveStage::Done, StepView::Done(Ok(bytes))),
        },
    }
}

/// Receiving a packet: check that the chip reports it valid, rewind the RX FIFO read
/// pointer, then read as many bytes as the caller's buffer holds.
pub struct PacketReceive {
    len: usize,
    stage: ReceiveStage,
}

impl PacketReceive {
    /// The number of bytes to read from the RX FIFO.
    pub closed spec fn len(&self) -> nat {
        self.len as nat
    }

    /// Where the receive stands.
    pub closed spec fn stage(&self) -> ReceiveStage {
        self.stage
    }

    /// The request that the machine is waiting on a reply to.
    pub open spec fn pending(&self) -> BusRequestView {
        match self.stage() {
            ReceiveStage::Status => status_read(),
            ReceiveStage::ReadPointerReset => command_write(Command::ResetFifoReadPointer),
            _ => rx_buffer_read(self.len()),
        }
    }

    /// How many bytes a successful reply to the pending request carries.
    pub open spec fn reply_len(&self) -> nat {
        match self.stage() {
            ReceiveStage::Status => 1,
            ReceiveStage::ReadPointerReset => 0,
            _ => self.len(),
        }
    }

    /// Starts receiving a packet of `len` bytes: the first request reads the status
    /// register.
    pub fn start(len: usize) -> (r: (PacketReceive, BusRequest))
        ensures
            r.0.len() == len,
            r.0.stage() == ReceiveStage::Status,
            r.1@ == status_read(),
            r.1@ == r.0.pending(),
            reply_len(r.1@) == r.0.reply_len(),
    {
        let request = read_register_request::<1, registers::Mode>();
        (PacketReceive { len, stage: ReceiveStage::Status }, request)
    }

    /// Takes the reply to the pending request and says what comes next, as
    /// [`receive_step`] describes:
    ///
    /// - A device error ends the receive with that error.
    /// - A status whose FEC or CRC flag is not set ends it with a [`PacketError`] that
    ///   names the failed checks; the FIFO is neither rewound nor read.
    /// - A status with both flags set leads to the read pointer reset, and that to the
    ///   FIFO read; the bytes read are the outcome.
    pub fn advance<E>(&mut self, reply: Result<Vec<u8>, E>) -> (s: Step<Vec<u8>, ReadPacketError<E>>)
        requires
            old(self).stage() != ReceiveStage::Done,
            reply matches Ok(bytes) ==> bytes@.len() == old(self).reply_len(),
        ensures
            final(self).len() == old(self).len(),
            (final(self).stage(), s@) == receive_step(old(self).stage(), old(self).len(), reply),
            s matches Step::Request(request) ==> request@ == final(self).pending() && reply_len(
                request@,
            ) == final(self).reply_len(),
    {
        match reply {
            Err(e) => {
                self.stage = ReceiveStage::Done;
                Step::Done(Err(ReadPacketError::from(e)))
            },
            Ok(bytes) => match self.stage {
                ReceiveStage::Status => {
                    let status = registers::Mode::from_slice([bytes[0]]);
                    if !status.crc_pass || !status.fec_pass {
                        self.stage = ReceiveStage::Done;
                        Step::Done(Err(ReadPacketError::PacketError(PacketError::from(status))))
                    } else {
                        self.stage = ReceiveStage::ReadPointerReset;
                        Step::Request(command_request(Command::ResetFifoReadPointer))
                    }
                },
                ReceiveStage::ReadPointerReset => {
                    self.stage = ReceiveStage::Buffer;
                    Step::Request(rx_buffer_request(self.len))
                },
                _ => {
                    self.stage = ReceiveStage::Done;
                    Step::Done(Ok(bytes))
                },
            },
        }
    }
}

/// Where a transmit stands.
#[derive(PartialEq, Eq, Debug, Copy, Clone)]
pub enum TransmitStage {
    /// Waiting for the TX write pointer reset.
    WritePointerReset,
    /// Waiting for the TX FIFO write.
    Buffer,
    /// Over.
    Done,
}

/// One move of a transmit: from the stage it is in, the packet and the reply to the
/// pending request, the next stage and what comes next.
pub open spec fn transmit_step<E>(stage: TransmitStage, data: Seq<u8>, reply: Result<Vec<u8>, E>) -> (
    TransmitStage,
    StepView<(), E>,
) {
    match reply {
        Err(e) => (TransmitStage::Done, StepView::Done(Err(e))),
        Ok(_) => match stage {
            TransmitStage::WritePointerReset => (
                TransmitStage::Buffer,
                StepView::Request(tx_buffer_write(data)),
            ),
            _ => (TransmitStage::Done, StepView::Done(Ok(()))),
        },
    }
}

/// Transmitting a packet: rewind the TX FIFO write pointer, then write the packet.
pub struct PacketTransmit {
    data: Vec<u8>,
    stage: TransmitStage,
}

impl PacketTransmit {
    /// The bytes still to be written to the TX FIFO.
    pub closed spec fn data(&self) -> Seq<u8> {
        self.data@
    }

    /// Where the transmit stands.
    pub closed spec fn stage(&self) -> TransmitStage {
        self.stage
    }


    /// Starts transmitting `data`: the first request resets the TX write pointer.
    pub fn start(data: Vec<u8>) -> (r: (PacketTransmit, BusRequest))
        ensures
            r.0.data() == data@,
            r.0.stage() == TransmitStage::WritePointerReset,
            r.1@ == command_write(Command::ResetFifoWritePointer),
    {
        let request = command_request(Command::ResetFifoWritePointer);
        (PacketTransmit { data, stage: TransmitStage::WritePointerReset }, request)
    }

    /// Takes the reply to the pending request and says what comes next, as
    /// [`transmit_step`] describes:
    ///
    /// - A device error ends the transmit with that error.
    /// - After the pointer reset comes one write of the packet, unchanged, to the TX FIFO.
    /// - After that write the transmit is done.
    pub fn advance<E>(&mut self, reply: Result<Vec<u8>, E>) -> (s: Step<(), E>)
        requires
            old(self).stage() != TransmitStage::Done,
        ensures
            (final(self).stage(), s@) == transmit_step(old(self).stage(), old(self).data(), reply),
    {
        match reply {
            Err(e) => {
                self.stage = TransmitStage::Done;
                Step::Done(Err(e))
            },
            Ok(_) => match self.stage {
                TransmitStage::WritePointerReset => {
                    let mut data: Vec<u8> = Vec::new();
                    core::mem::swap(&mut data, &mut self.data);
                    self.stage = TransmitStage::Buffer;
                    Step::Request(tx_buffer_request(data))
                },
                _ => {
                    self.stage = TransmitStage::Done;
                    Step::Done(Ok(()))
                },
            },
        }
    }
}

/// A receive whose status read reports the FEC check failed ends right there, with a
/// [`PacketError`] whose `fec_failed` is set, whatever the CRC flag says; as the receive
/// is over, no further request follows.
pub proof fn lemma_receive_rejects_failed_fec<E>(len: nat, status: Vec<u8>)
    requires
        status@.len() == 1,
        !packet_status(status@[0]).fec_pass,
    ensures
        receive_step::<E>(ReceiveStage::Status, len, Ok(status)) == (
            ReceiveStage::Done,
            StepView::<Vec<u8>, ReadPacketError<E>>::Done(
                Err(
                    ReadPacketError::PacketError(
                        PacketError {
                            fec_failed: true,
                            crc_failed: !packet_status(status@[0]).crc_pass,
                        },
                    ),
                ),
            ),
        ),
{
}

/// A receive whose status read reports both checks passed asks for exactly the RX read
/// pointer reset, then one read of the FIFO of the buffer's length, and then succeeds with
/// the bytes that read returned.
pub proof fn lemma_receive_valid_packet<E>(len: nat, status: Vec<u8>, ack: Vec<u8>, data: Vec<u8>)
    requires
        status@.len() == 1,
        packet_status(status@[0]).fec_pass,
        packet_status(status@[0]).crc_pass,
    ensures
        ({
            let (stage1, step1) = receive_step::<E>(ReceiveStage::Status, len, Ok(status));
            let (stage2, step2) = receive_step::<E>(stage1, len, Ok(ack));
            let (stage3, step3) = receive_step::<E>(stage2, len, Ok(data));
            &&& step1 == StepView::<Vec<u8>, ReadPacketError<E>>::Request(
                command_write(Command::ResetFifoReadPointer),
            )
            &&& step2 == StepView::<Vec<u8>, ReadPacketError<E>>::Request(rx_buffer_read(len))
            &&& step3 == StepView::<Vec<u8>, ReadPacketError<E>>::Done(Ok(data))
            &&& stage3 == ReceiveStage::Done
        }),
{
}

/// A transmit asks for exactly the TX write pointer reset, then one write of the packet,
/// unchanged, to the TX FIFO, and then succeeds.
pub proof fn lemma_transmit_sequence<E>(data: Seq<u8>, ack1: Vec<u8>, ack2: Vec<u8>)
    ensures
        ({
            let (stage1, step1) = transmit_step::<E>(TransmitStage::WritePointerReset, data, Ok(ack1));
            let (stage2, step2) = transmit_step::<E>(stage1, Seq::empty(), Ok(ack2));
            &&& step1 == StepView::<(), E>::Request(tx_buffer_write(data))
            &&& step2 == StepView::<(), E>::Done(Ok(()))
            &&& stage2 == TransmitStage::Done
        }),
{
}

/// A device error at any step of a receive or a transmit ends it at once with that error:
/// no further request follows.
pub proof fn lemma_device_error_ends_transfer<E>(
    receive: ReceiveStage,
    transmit: TransmitStage,
    len: nat,
    data: Seq<u8>,
    e: E,
)
    requires
        receive != ReceiveStage::Done,
        transmit != TransmitStage::Done,
    ensures
        receive_step(receive, len, Err(e)) == (
            ReceiveStage::Done,
            StepView::<Vec<u8>, ReadPacketError<E>>::Done(Err(ReadPacketError::SpiError(e))),
        ),
        transmit_step(transmit, data, Err(e)) == (
            TransmitStage::Done,
            StepView::<(), E>::Done(Err(e)),
        ),
{
}

} // verus!
