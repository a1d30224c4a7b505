//! The channels between caller threads and the worker, from `crossbeam_channel`.
//!
//! What a send or a receive does depends on the other threads, so nothing is
//! promised of it beyond its type.
use vstd::prelude::*;
use crossbeam_channel::{Receiver, Sender};
use crate::protocol::Message;

verus! {

#[verifier::external_type_specification]
#[verifier::external_body]
#[verifier::reject_recursive_types(T)]
pub struct ExSender<T>(Sender<T>);

#[verifier::external_type_specification]
#[verifier::external_body]
#[verifier::reject_recursive_types(T)]
pub struct ExReceiver<T>(Receiver<T>);

/// The bound on queued messages that a request channel was made with; `None`
/// for an unbounded channel.
pub uninterp spec fn request_bound(s: Sender<Message>) -> Option<usize>;

/// `crossbeam_channel::bounded(cap)` returns without a panic: the capacity's
/// next power of two, doubled, fits the channel's index (at least `usize`
/// wide), and the array of `cap` slots, each a message and an 8-byte stamp
/// with padding, fits in `isize::MAX` bytes. Running out of memory is no panic.
pub open spec fn capacity_fits(cap: usize) -> bool {
    &&& cap <= usize::MAX / 4
    &&& cap * (vstd::layout::size_of::<Message>() + 16) <= isize::MAX
}

/// Whether a bounded request channel of capacity `cap` can be made.
pub fn fits_capacity(cap: usize) -> (r: bool)
    ensures
        r == capacity_fits(cap),
{
    let slot = core::mem::size_of::<Message>();
    if cap > usize::MAX / 4 {
        return false;
    }
    if cap == 0 {
        return true;
    }
    if slot > usize::MAX - 16 {
        assert(cap * (slot + 16) >= slot + 16) by (nonlinear_arith)
            requires
                cap >= 1,
        ;
        return false;
    }
    match cap.checked_mul(slot + 16) {
        Some(bytes) => bytes <= isize::MAX as usize,
        None => false,
    }
}

/// Relies on `crossbeam_channel::unbounded`: makes a request channel with no
/// bound.
#[verifier::external_body]
pub(crate) fn unbounded_requests() -> (r: (Sender<Message>, Receiver<Message>))
    ensures
        request_bound(r.0) is None,
{
    crossbeam_channel::unbounded()
}

/// Relies on `crossbeam_channel::bounded`: makes a request channel that holds
/// at most `cap` messages.
#[verifier::external_body]
pub(crate) fn bounded_requests(cap: usize) -> (r: (Sender<Message>, Receiver<Message>))
    requires
        capacity_fits(cap),
    ensures
        request_bound(r.0) == Some(cap),
{
    crossbeam_channel::bounded(cap)
}

/// Relies on `crossbeam_channel::bounded`, for the one-message channel that
/// carries a reply: one slot never overflows the capacity arithmetic, and a
/// single value of a type fits in memory.
pub assume_specification<T>[ crossbeam_channel::bounded::<T> ](cap: usize) -> (Sender<T>, Receiver<T>)
    requires
        cap == 1,
;

/// Relies on `crossbeam_channel::Sender::send`: blocks until `msg` is queued,
/// and tells whether it was (false once every receiver is gone).
#[verifier::external_body]
pub(crate) fn send<T>(sender: &Sender<T>, msg: T) -> (sent: bool) {
    sender.send(msg).is_ok()
}

/// Relies on `crossbeam_channel::Receiver::recv`: blocks until a message
/// arrives, or gives `None` once the channel is empty and every sender is gone.
#[verifier::external_body]
pub(crate) fn recv<T>(receiver: &Receiver<T>) -> (msg: Option<T>) {
    receiver.recv().ok()
}

} // verus!
