//! Bus transactions as plain values.
//!
//! The chip is driven through an SPI device that performs, atomically, an ordered list of
//! write and read phases with chip select held; a single write is its one-phase form. The
//! functions here say which transaction each driver operation needs. Performing it is
//! the caller's part: every read phase fills exactly the number of bytes it names.
use crate::commands::{Command, Mode};
use crate::registers::{ReadableRegister, Register, WritableRegister, IntoSlice};
use vstd::prelude::*;
use vstd::std_specs::convert::FromSpec;

verus! {

/// Or'ed into an address byte to select the chip's read path.
pub const READ_FLAG: u8 = 0x40;

/// Address of the RX FIFO buffer.
pub const RX_BUFFER_ID: u8 = 0x05;

/// Address of the TX FIFO buffer.
pub const TX_BUFFER_ID: u8 = 0x05;

/// One phase of a bus transaction.
#[derive(PartialEq, Debug, Clone)]
pub enum Operation {
    /// Write these bytes.
    Write(Vec<u8>),
    /// Read this many bytes.
    Read(usize),
}

/// What an [`Operation`] does, as plain values.
pub enum OperationView {
    Write(Seq<u8>),
    Read(nat),
}

impl View for Operation {
    type V = OperationView;

    open spec fn view(&self) -> OperationView {
        match self {
            Operation::Write(bytes) => OperationView::Write(bytes@),
            Operation::Read(len) => OperationView::Read(*len as nat),
        }
    }
}

/// One use of the bus.
#[derive(PartialEq, Debug, Clone)]
pub enum BusRequest {
    /// A single write phase.
    Write(Vec<u8>),
    /// An atomic transaction of several phases, performed in order.
    Transaction(Vec<Operation>),
}

/// What a [`BusRequest`] does, as plain values.
pub enum BusRequestView {
    Write(Seq<u8>),
    Transaction(Seq<OperationView>),
}

impl View for BusRequest {
    type V = BusRequestView;

    open spec fn view(&self) -> BusRequestView {
        match self {
            BusRequest::Write(bytes) => BusRequestView::Write(bytes@),
            BusRequest::Transaction(ops) => BusRequestView::Transaction(
                ops@.map_values(|op: Operation| op@),
            ),
        }
    }
}

/// How many bytes the reply to a request carries: the sum of its read phases.
pub open spec fn reply_len(request: BusRequestView) -> nat {
    match request {
        BusRequestView::Write(_) => 0,
        BusRequestView::Transaction(ops) => read_len(ops),
    }
}

/// The number of bytes that the read phases among `ops` fill.
pub open spec fn read_len(ops: Seq<OperationView>) -> nat
    decreases ops.len(),
{
    if ops.len() == 0 {
        0
    } else {
        (match ops.last() {
            OperationView::Read(n) => n,
            OperationView::Write(_) => 0,
        }) + read_len(ops.drop_last())
    }
}

/// A transaction of an address or opcode byte followed by one payload phase.
pub open spec fn addressed(header: u8, payload: OperationView) -> BusRequestView {
    BusRequestView::Transaction(seq![OperationView::Write(seq![header]), payload])
}

/// Reading `width` bytes from the register at `address`.
pub open spec fn register_read(address: u8, width: nat) -> BusRequestView {
    addressed(address | READ_FLAG, OperationView::Read(width))
}

/// Writing `payload` to the register at `address`.
pub open spec fn register_write(address: u8, payload: Seq<u8>) -> BusRequestView {
    addressed(address, OperationView::Write(payload))
}

/// Issuing a command.
pub open spec fn command_write(command: Command) -> BusRequestView {
    BusRequestView::Write(command.spec_bytes())
}

/// Reading `len` bytes from the RX FIFO.
pub open spec fn rx_buffer_read(len: nat) -> BusRequestView {
    addressed(RX_BUFFER_ID | READ_FLAG, OperationView::Read(len))
}

/// Writing `data` to the TX FIFO.
pub open spec fn tx_buffer_write(data: Seq<u8>) -> BusRequestView {
    addressed(TX_BUFFER_ID, OperationView::Write(data))
}

fn addressed_request(header: u8, payload: Operation) -> (r: BusRequest)
    ensures
        r@ == addressed(header, payload@),
{
    let ghost p = payload@;
    let head = vec![header];
    assert(head@ =~= seq![header]);
    let ops = vec![Operation::Write(head), payload];
    assert(ops@.map_values(|op: Operation| op@) =~= seq![OperationView::Write(seq![header]), p]);
    BusRequest::Transaction(ops)
}

/// The transaction that reads register `R`: its address with the read flag, then `N`
/// bytes read.
pub fn read_register_request<const N: usize, R: ReadableRegister<N>>() -> (r: BusRequest)
    ensures
        r@ == register_read(R::address(), N as nat),
        reply_len(r@) == N,
{
    let r = addressed_request(R::id() | READ_FLAG, Operation::Read(N));
    proof {
        lemma_addressed_reply_len(R::address() | READ_FLAG, OperationView::Read(N as nat));
    }
    r
}

/// The transaction that writes `reg`: the register's address, then its `N` encoded bytes.
pub fn write_register_request<const N: usize, R: WritableRegister<N>>(reg: R) -> (r: BusRequest)
    ensures
        R::obeys_into_slice() ==> r@ == register_write(R::address(), reg.into_slice_spec()),
        reply_len(r@) == 0,
{
    let bytes = reg.into_slice();
    let mut payload: Vec<u8> = Vec::new();
    let mut i: usize = 0;
    while i < N
        invariant
            i <= N,
            bytes@.len() == N,
            payload@ == bytes@.subrange(0, i as int),
        decreases N - i,
    {
        payload.push(bytes[i]);
        i = i + 1;
    }
    assert(payload@ =~= bytes@);
    let r = addressed_request(R::id(), Operation::Write(payload));
    proof {
        lemma_addressed_reply_len(R::address(), OperationView::Write(bytes@));
    }
    r
}

/// The single write that puts the chip into `mode`.
pub fn mode_request(mode: Mode) -> (r: BusRequest)
    ensures
        r@ == BusRequestView::Write(seq![<u8 as FromSpec<Mode>>::from_spec(mode)]),
        reply_len(r@) == 0,
{
    let bytes = vec![u8::from(mode)];
    assert(bytes@ =~= seq![<u8 as FromSpec<Mode>>::from_spec(mode)]);
    BusRequest::Write(bytes)
}

/// The single write that issues `command`.
pub fn command_request(command: Command) -> (r: BusRequest)
    ensures
        r@ == command_write(command),
        reply_len(r@) == 0,
{
    BusRequest::Write(command.bytes())
}

/// The transaction that reads `len` bytes from the RX FIFO.
pub fn rx_buffer_request(len: usize) -> (r: BusRequest)
    ensures
        r@ == rx_buffer_read(len as nat),
        reply_len(r@) == len,
{
    let r = addressed_request(RX_BUFFER_ID | READ_FLAG, Operation::Read(len));
    proof {
        lemma_addressed_reply_len(RX_BUFFER_ID | READ_FLAG, OperationView::Read(len as nat));
    }
    r
}

/// The transaction that writes `data` to the TX FIFO.
pub fn tx_buffer_request(data: Vec<u8>) -> (r: BusRequest)
    ensures
        r@ == tx_buffer_write(data@),
        reply_len(r@) == 0,
{
    let ghost d = data@;
    let r = addressed_request(TX_BUFFER_ID, Operation::Write(data));
    proof {
        lemma_addressed_reply_len(TX_BUFFER_ID, OperationView::Write(d));
    }
    r
}

proof fn lemma_addressed_reply_len(header: u8, payload: OperationView)
    ensures
        reply_len(addressed(header, payload)) == match payload {
            OperationView::Read(n) => n,
            OperationView::Write(_) => 0nat,
        },
{
    let ops = seq![OperationView::Write(seq![header]), payload];
    assert(ops.drop_last() =~= seq![OperationView::Write(seq![header])]);
    assert(ops.drop_last().drop_last() =~= Seq::<OperationView>::empty());
    reveal_with_fuel(read_len, 3);
}

} // verus!
