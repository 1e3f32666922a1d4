use a7105::bus::{
    command_request, mode_request, read_register_request, rx_buffer_request, tx_buffer_request,
    write_register_request, BusRequest, Operation,
};
use a7105::commands::{Command, Mode};
use a7105::packet::{PacketReceive, PacketTransmit, Step};
use a7105::registers::{DataRate, IdData, Mode as Status, Pll2};
use a7105::{PacketError, ReadPacketError, A7105};

/// A bus that answers each request with the next scripted reply and records the requests.
struct SimBus {
    replies: Vec<Result<Vec<u8>, &'static str>>,
    seen: Vec<BusRequest>,
}

impl SimBus {
    fn new(replies: Vec<Result<Vec<u8>, &'static str>>) -> Self {
        SimBus { replies, seen: Vec::new() }
    }

    fn perform(&mut self, request: BusRequest) -> Result<Vec<u8>, &'static str> {
        self.seen.push(request);
        self.replies.remove(0)
    }
}

fn receive(bus: &mut SimBus, len: usize) -> Result<Vec<u8>, ReadPacketError<&'static str>> {
    let (mut machine, mut request) = PacketReceive::start(len);
    loop {
        let reply = bus.perform(request);
        match machine.advance(reply) {
            Step::Request(next) => request = next,
            Step::Done(outcome) => return outcome,
        }
    }
}

fn transmit(bus: &mut SimBus, data: Vec<u8>) -> Result<(), &'static str> {
    let (mut machine, mut request) = PacketTransmit::start(data);
    loop {
        let reply = bus.perform(request);
        match machine.advance(reply) {
            Step::Request(next) => request = next,
            Step::Done(outcome) => return outcome,
        }
    }
}

fn status_request() -> BusRequest {
    BusRequest::Transaction(vec![Operation::Write(vec![0x40]), Operation::Read(1)])
}

#[test]
fn mode_bytes() {
    let cases = [
        (Mode::Sleep, 0x80u8),
        (Mode::Idle, 0x90),
        (Mode::Standby, 0xA0),
        (Mode::Pll, 0xB0),
        (Mode::Rx, 0xC0),
        (Mode::Tx, 0xD0),
    ];
    for (mode, byte) in cases {
        assert_eq!(u8::from(mode), byte);
        assert_eq!(mode_request(mode), BusRequest::Write(vec![byte]));
    }
}

#[test]
fn command_bytes() {
    assert_eq!(Command::Reset.bytes(), vec![0x00, 0x00]);
    assert_eq!(Command::ResetFifoReadPointer.bytes(), vec![0xF0]);
    assert_eq!(Command::ResetFifoWritePointer.bytes(), vec![0xE0]);
    assert_eq!(command_request(Command::Reset), BusRequest::Write(vec![0x00, 0x00]));
    assert_eq!(command_request(Command::ResetFifoReadPointer), BusRequest::Write(vec![0xF0]));
    assert_eq!(command_request(Command::ResetFifoWritePointer), BusRequest::Write(vec![0xE0]));
}

#[test]
fn register_transactions() {
    assert_eq!(
        read_register_request::<1, DataRate>(),
        BusRequest::Transaction(vec![Operation::Write(vec![0x4E]), Operation::Read(1)])
    );
    assert_eq!(
        read_register_request::<4, IdData>(),
        BusRequest::Transaction(vec![Operation::Write(vec![0x46]), Operation::Read(4)])
    );
    assert_eq!(
        write_register_request::<4, IdData>(IdData { id: 0x5475_C52A }),
        BusRequest::Transaction(vec![
            Operation::Write(vec![0x06]),
            Operation::Write(vec![0x2A, 0xC5, 0x75, 0x54]),
        ])
    );
    assert_eq!(
        write_register_request::<1, Pll2>(Pll2::default()),
        BusRequest::Transaction(vec![Operation::Write(vec![0x10]), Operation::Write(vec![0b1001_1110])])
    );
    assert_eq!(read_register_request::<1, Status>(), status_request());
}

#[test]
fn buffer_transactions() {
    assert_eq!(
        rx_buffer_request(3),
        BusRequest::Transaction(vec![Operation::Write(vec![0x45]), Operation::Read(3)])
    );
    assert_eq!(
        tx_buffer_request(vec![9, 8]),
        BusRequest::Transaction(vec![Operation::Write(vec![0x05]), Operation::Write(vec![9, 8])])
    );
}

#[test]
fn receive_rejects_failed_fec() {
    for status in [0b0000_0000u8, 0b0010_0000] {
        let mut bus = SimBus::new(vec![Ok(vec![status])]);
        let outcome = receive(&mut bus, 4);
        assert_eq!(
            outcome,
            Err(ReadPacketError::PacketError(PacketError {
                fec_failed: true,
                crc_failed: status & 0b0010_0000 == 0,
            }))
        );
        assert_eq!(bus.seen, vec![status_request()]);
        assert!(bus.replies.is_empty());
    }
}

#[test]
fn receive_rejects_failed_crc() {
    let mut bus = SimBus::new(vec![Ok(vec![0b0100_0000])]);
    let outcome = receive(&mut bus, 4);
    assert_eq!(
        outcome,
        Err(ReadPacketError::PacketError(PacketError { fec_failed: false, crc_failed: true }))
    );
    assert_eq!(bus.seen, vec![status_request()]);
}

#[test]
fn receive_valid_packet() {
    let mut bus = SimBus::new(vec![Ok(vec![0b0110_0000]), Ok(vec![]), Ok(vec![1, 2, 3, 4, 5])]);
    let outcome = receive(&mut bus, 5);
    assert_eq!(outcome, Ok(vec![1, 2, 3, 4, 5]));
    assert_eq!(
        bus.seen,
        vec![
            status_request(),
            BusRequest::Write(vec![0xF0]),
            BusRequest::Transaction(vec![Operation::Write(vec![0x45]), Operation::Read(5)]),
        ]
    );
}

#[test]
fn transmit_packet() {
    let mut bus = SimBus::new(vec![Ok(vec![]), Ok(vec![])]);
    assert_eq!(transmit(&mut bus, vec![0xAA, 0x55, 0x01]), Ok(()));
    assert_eq!(
        bus.seen,
        vec![
            BusRequest::Write(vec![0xE0]),
            BusRequest::Transaction(vec![
                Operation::Write(vec![0x05]),
                Operation::Write(vec![0xAA, 0x55, 0x01]),
            ]),
        ]
    );
}

#[test]
fn device_error_stops_receive_at_each_step() {
    let mut bus = SimBus::new(vec![Err("bus")]);
    assert_eq!(receive(&mut bus, 2), Err(ReadPacketError::SpiError("bus")));
    assert_eq!(bus.seen.len(), 1);

    let mut bus = SimBus::new(vec![Ok(vec![0x60]), Err("bus")]);
    assert_eq!(receive(&mut bus, 2), Err(ReadPacketError::SpiError("bus")));
    assert_eq!(bus.seen, vec![status_request(), BusRequest::Write(vec![0xF0])]);

    let mut bus = SimBus::new(vec![Ok(vec![0x60]), Ok(vec![]), Err("bus")]);
    assert_eq!(receive(&mut bus, 2), Err(ReadPacketError::SpiError("bus")));
    assert_eq!(bus.seen.len(), 3);
}

#[test]
fn device_error_stops_transmit_at_each_step() {
    let mut bus = SimBus::new(vec![Err("bus")]);
    assert_eq!(transmit(&mut bus, vec![1]), Err("bus"));
    assert_eq!(bus.seen, vec![BusRequest::Write(vec![0xE0])]);

    let mut bus = SimBus::new(vec![Ok(vec![]), Err("bus")]);
    assert_eq!(transmit(&mut bus, vec![1]), Err("bus"));
    assert_eq!(bus.seen.len(), 2);
}

#[test]
fn errors_convert() {
    assert_eq!(ReadPacketError::from(7u8), ReadPacketError::SpiError(7u8));
    assert_eq!(
        PacketError::from(Status { fec_pass: true, crc_pass: false }),
        PacketError { fec_failed: false, crc_failed: true }
    );
}

#[test]
fn device_handle_keeps_the_device() {
    let mut radio = A7105::new(41u32);
    *radio.spi_mut() += 1;
    assert_eq!(radio.destroy(), 42);
}
