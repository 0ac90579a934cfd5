//! Broadcast channels, on which a component tells every subscriber what
//! happened. The channel itself is tokio's; each sending handle carries, as
//! its model, the channel it belongs to and every value handed to the
//! channel through it.

use tokio::sync::broadcast::Receiver;
use tokio::sync::broadcast::Sender;
use vstd::prelude::*;

verus! {

#[verifier::external_type_specification]
#[verifier::external_body]
#[verifier::reject_recursive_types(T)]
pub struct ExSender<T>(tokio::sync::broadcast::Sender<T>);

#[verifier::external_type_specification]
#[verifier::external_body]
#[verifier::reject_recursive_types(T)]
pub struct ExReceiver<T>(tokio::sync::broadcast::Receiver<T>);

/// A sending handle of a broadcast channel. Only the functions of this
/// module make or change one, so its model follows the calls made on it.
#[verifier::reject_recursive_types(T)]
pub struct BusSender<T> {
    sender: Sender<T>,
    channel: Ghost<int>,
    sent: Ghost<Seq<T>>,
}

/// A receiving handle of a broadcast channel, with the channel it belongs to.
#[verifier::reject_recursive_types(T)]
pub struct BusReceiver<T> {
    pub receiver: Receiver<T>,
    channel: Ghost<int>,
}

impl<T> BusSender<T> {
    /// The channel this handle sends on.
    pub closed spec fn channel(&self) -> int {
        self.channel@
    }

    /// Every value handed to the channel through this handle, in order.
    pub closed spec fn sent(&self) -> Seq<T> {
        self.sent@
    }

    /// Hands `value` to the channel, for every receiver alive at the moment.
    pub fn send(&mut self, value: T)
        ensures
            final(self).channel() == old(self).channel(),
            final(self).sent() == old(self).sent().push(value),
    {
        broadcast_send(self, value);
    }
}

impl<T> BusReceiver<T> {
    /// The channel this handle receives from.
    pub closed spec fn channel(&self) -> int {
        self.channel@
    }
}

/// `tokio::sync::broadcast::channel`, keeping the sending half: the first
/// receiver is dropped at once. tokio panics on a capacity of zero or above
/// `usize::MAX / 2`, which `requires` leaves out. The new handle has sent
/// nothing; which channel it names is left open.
#[verifier::external_body]
pub(crate) fn broadcast_channel<T: Clone>(capacity: usize) -> (tx: BusSender<T>)
    requires
        0 < capacity <= usize::MAX / 2,
    ensures
        tx.sent() == Seq::<T>::empty(),
{
    let (sender, _rx) = tokio::sync::broadcast::channel(capacity);
    BusSender { sender, channel: Ghost(0int), sent: Ghost(Seq::empty()) }
}

/// `Sender::send`, its outcome dropped: `value` is handed to the handle's
/// channel, which passes it to every receiver alive at the moment (with
/// none, it is lost). The handle stays on its channel.
#[verifier::external_body]
pub(crate) fn broadcast_send<T>(tx: &mut BusSender<T>, value: T)
    ensures
        final(tx).channel() == old(tx).channel(),
        final(tx).sent() == old(tx).sent().push(value),
{
    let _ = tx.sender.send(value);
}

/// `Sender::subscribe`: a receiver, on the handle's channel, of the values
/// sent from now on. tokio panics when `usize::MAX >> 2` receivers of one
/// channel are alive at once; how many receivers others hold is not known
/// here, so that bound is not stated.
#[verifier::external_body]
pub(crate) fn broadcast_subscribe<T>(tx: &BusSender<T>) -> (r: BusReceiver<T>)
    ensures
        r.channel() == tx.channel(),
{
    BusReceiver { receiver: tx.sender.subscribe(), channel: Ghost(tx.channel@) }
}

/// `Sender::clone`: one more sending handle of the same channel, which has
/// sent nothing yet.
#[verifier::external_body]
pub(crate) fn sender_clone<T>(tx: &BusSender<T>) -> (s: BusSender<T>)
    ensures
        s.channel() == tx.channel(),
        s.sent() == Seq::<T>::empty(),
{
    BusSender { sender: tx.sender.clone(), channel: Ghost(tx.channel@), sent: Ghost(Seq::empty()) }
}

} // verus!
