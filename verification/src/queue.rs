//! The two bounded buffers of the host interface, which `arrayvec`
//! provides: the transmit queue of commands and the receive buffer of
//! bytes.

use crate::codec::TxCommand;
use arrayvec::ArrayVec;
use vstd::prelude::*;

verus! {

/// `arrayvec::ArrayVec`, a vector of fixed capacity stored inline. What one
/// holds is known only through `tx_items` and `rx_bytes`.
#[verifier::external_type_specification]
#[verifier::external_body]
#[verifier::reject_recursive_types(T)]
pub struct ExArrayVec<T, const CAP: usize>(ArrayVec<T, CAP>);

/// Capacity of one transmit queue.
pub const TX_CMD_BUF_SIZE: usize = 64;

/// The commands that a transmit queue holds, oldest first.
pub uninterp spec fn tx_items(queue: ArrayVec<TxCommand, 64>) -> Seq<TxCommand>;

/// The bytes that a receive buffer holds, oldest first.
pub uninterp spec fn rx_bytes(buffer: ArrayVec<u8, 3>) -> Seq<u8>;

/// `ArrayVec::new`: an empty queue.
#[verifier::external_body]
pub(crate) fn tx_new() -> (queue: ArrayVec<TxCommand, 64>)
    ensures
        tx_items(queue) == Seq::<TxCommand>::empty(),
{
    ArrayVec::new()
}

/// `ArrayVec::try_push`: with room left, `cmd` goes to the end of the queue
/// and the call succeeds; at capacity the queue stays as it is and the call
/// hands `cmd` back.
#[verifier::external_body]
pub(crate) fn tx_try_push(queue: &mut ArrayVec<TxCommand, 64>, cmd: TxCommand) -> (pushed: Result<(), TxCommand>)
    ensures
        pushed is Ok <==> tx_items(*old(queue)).len() < 64,
        pushed is Ok ==> tx_items(*final(queue)) == tx_items(*old(queue)).push(cmd),
        pushed is Err ==> pushed->Err_0 == cmd,
        pushed is Err ==> tx_items(*final(queue)) == tx_items(*old(queue)),
{
    match queue.try_push(cmd) {
        Ok(()) => Ok(()),
        Err(full) => Err(full.element()),
    }
}

/// `ArrayVec::drain` over the whole range: hands out every command, oldest
/// first, and leaves the queue empty.
#[verifier::external_body]
pub(crate) fn tx_drain(queue: &mut ArrayVec<TxCommand, 64>) -> (drained: Vec<TxCommand>)
    ensures
        drained@ == tx_items(*old(queue)),
        tx_items(*final(queue)) == Seq::<TxCommand>::empty(),
{
    queue.drain(..).collect()
}

/// `ArrayVec::clear`: leaves the queue empty.
#[verifier::external_body]
pub(crate) fn tx_clear(queue: &mut ArrayVec<TxCommand, 64>)
    ensures
        tx_items(*final(queue)) == Seq::<TxCommand>::empty(),
{
    queue.clear()
}

/// `ArrayVec::new`: an empty buffer.
#[verifier::external_body]
pub(crate) fn rx_new() -> (buffer: ArrayVec<u8, 3>)
    ensures
        rx_bytes(buffer) == Seq::<u8>::empty(),
{
    ArrayVec::new()
}

/// `ArrayVec::len`: the number of bytes in the buffer, never more than its
/// capacity of three.
#[verifier::external_body]
pub(crate) fn rx_len(buffer: &ArrayVec<u8, 3>) -> (len: usize)
    ensures
        len == rx_bytes(*buffer).len(),
        len <= 3,
{
    buffer.len()
}

/// `ArrayVec::is_empty`: whether the buffer holds no byte.
#[verifier::external_body]
pub(crate) fn rx_is_empty(buffer: &ArrayVec<u8, 3>) -> (empty: bool)
    ensures
        empty == (rx_bytes(*buffer).len() == 0),
{
    buffer.is_empty()
}

/// `ArrayVec::push`: `byte` goes to the end of the buffer. The method
/// panics on a full buffer, so the call asks for room.
#[verifier::external_body]
pub(crate) fn rx_push(buffer: &mut ArrayVec<u8, 3>, byte: u8)
    requires
        rx_bytes(*old(buffer)).len() < 3,
    ensures
        rx_bytes(*final(buffer)) == rx_bytes(*old(buffer)).push(byte),
{
    buffer.push(byte)
}

/// `ArrayVec::clear`: leaves the buffer empty.
#[verifier::external_body]
pub(crate) fn rx_clear(buffer: &mut ArrayVec<u8, 3>)
    ensures
        rx_bytes(*final(buffer)) == Seq::<u8>::empty(),
{
    buffer.clear()
}

/// `ArrayVec::as_slice`: the bytes of the buffer.
#[verifier::external_body]
pub(crate) fn rx_as_slice(buffer: &ArrayVec<u8, 3>) -> (bytes: &[u8])
    ensures
        bytes@ == rx_bytes(*buffer),
{
    buffer.as_slice()
}

} // verus!
