//! Bounded channels between the router's tasks: a `Sink` to send on and a
//! `Source` to receive from, both tagged with the channel's key.

use vstd::prelude::*;
use vstd::string::StringExecFns;
use tokio::sync::mpsc;
use tokio::sync::mpsc::error::TrySendError;
use crate::global::ChannelKey;

verus! {

#[verifier::external_type_specification]
#[verifier::external_body]
#[verifier::reject_recursive_types(T)]
pub struct ExSender<T>(mpsc::Sender<T>);

#[verifier::external_type_specification]
#[verifier::external_body]
#[verifier::reject_recursive_types(T)]
pub struct ExReceiver<T>(mpsc::Receiver<T>);

/// Why a non-blocking send was refused.
pub enum SendRefusal {
    /// The channel holds as many messages as it may.
    Full,
    /// Every receiver of the channel is gone.
    Closed,
}

/// `tokio::sync::mpsc::channel`: a bounded channel of `buffer` slots. Its
/// source asserts `buffer > 0` and, through its semaphore, that `buffer` is
/// at most `usize::MAX >> 3`; the `requires` leaves both panics out. The
/// channel's capacity is left unsaid: a name for it would have to be generic.
#[verifier::external_body]
fn mpsc_channel<T>(buffer: usize) -> (r: (mpsc::Sender<T>, mpsc::Receiver<T>))
    requires
        0 < buffer <= usize::MAX / 8,
{
    mpsc::channel(buffer)
}

/// `tokio::sync::mpsc::Sender::try_send`: sends without waiting. Whether it
/// succeeds depends on the other ends of the channel, so no clause says
/// when; its source shows that a refused message is handed back unchanged,
/// as `TrySendError::Full` or `TrySendError::Closed`.
#[verifier::external_body]
fn sender_try_send<T>(sender: &mpsc::Sender<T>, value: T) -> (r: Result<(), (T, SendRefusal)>)
    ensures
        r matches Err((v, _)) ==> v == value,
{
    match sender.try_send(value) {
        Ok(()) => Ok(()),
        Err(TrySendError::Full(v)) => Err((v, SendRefusal::Full)),
        Err(TrySendError::Closed(v)) => Err((v, SendRefusal::Closed)),
    }
}

/// `Clone` for `tokio::sync::mpsc::Sender`: another handle on the same
/// channel. A handle is opaque here, so nothing is stated of it.
#[verifier::external_body]
fn sender_clone<T>(sender: &mpsc::Sender<T>) -> (r: mpsc::Sender<T>) {
    sender.clone()
}

/// The receiving end of a channel. Its receiver can be taken out once.
#[verifier::reject_recursive_types(T)]
pub struct Source<T> {
    key: ChannelKey,
    capacity: usize,
    channel: Option<mpsc::Receiver<T>>,
}

/// The sending end of a channel; it can be forked into more handles.
#[verifier::reject_recursive_types(T)]
pub struct Sink<T> {
    key: ChannelKey,
    capacity: usize,
    channel: mpsc::Sender<T>,
}

impl<T> Source<T> {
    /// The key of the channel this source belongs to.
    pub closed spec fn channel_key(&self) -> ChannelKey {
        self.key
    }

    /// How many messages the channel holds at most.
    pub closed spec fn capacity(&self) -> usize {
        self.capacity
    }

    /// The receiver, while it is still inside (not yet exposed).
    pub closed spec fn receiver(&self) -> Option<mpsc::Receiver<T>> {
        self.channel
    }

    /// Whether the receiver is still inside (not yet exposed).
    pub open spec fn holds_receiver(&self) -> bool {
        self.receiver() is Some
    }

    /// Takes the receiver out. The source must still hold it: it is taken
    /// out only once.
    pub fn expose_receiver(self) -> (r: mpsc::Receiver<T>)
        requires
            self.holds_receiver(),
        ensures
            self.receiver() == Some(r),
    {
        let mut this = self;
        let mut channel: Option<mpsc::Receiver<T>> = None;
        core::mem::swap(&mut this.channel, &mut channel);
        match channel {
            Some(receiver) => receiver,
            None => vstd::pervasive::unreached(),
        }
    }
}

/// A bounded channel of `size` slots tagged with `key`; both ends record
/// the capacity it was made with.
pub fn channel<T>(size: usize, key: ChannelKey) -> (r: (Sink<T>, Source<T>))
    requires
        0 < size <= usize::MAX / 8,
    ensures
        r.0.channel_key() == key,
        r.1.channel_key() == key,
        r.0.capacity() == size,
        r.1.capacity() == size,
        r.1.holds_receiver(),
{
    let (sender, receiver) = mpsc_channel(size);
    (
        Sink { key, capacity: size, channel: sender },
        Source { key, capacity: size, channel: Some(receiver) },
    )
}

/// The text of a refusal: `"full"`, or `"backlog closed!"` when every
/// receiver is gone.
pub open spec fn refusal_text(refusal: SendRefusal) -> Seq<char> {
    match refusal {
        SendRefusal::Full => "full"@,
        SendRefusal::Closed => "backlog closed!"@,
    }
}

/// A refused send's reason: one of the two texts above.
pub open spec fn is_refusal_text(reason: Seq<char>) -> bool {
    reason == refusal_text(SendRefusal::Full) || reason == refusal_text(SendRefusal::Closed)
}

/// How a sink reports what a non-blocking send gave: success as it is, a
/// refusal as the refused value with the refusal's text.
pub fn send_outcome<T>(outcome: Result<(), (T, SendRefusal)>) -> (r: Result<(), (T, String)>)
    ensures
        match outcome {
            Ok(()) => r is Ok,
            Err((v, refusal)) => r matches Err((w, reason)) && w == v && reason@ == refusal_text(
                refusal,
            ),
        },
{
    match outcome {
        Ok(()) => Ok(()),
        Err((v, SendRefusal::Closed)) => Err((v, String::from_str("backlog closed!"))),
        Err((v, SendRefusal::Full)) => Err((v, String::from_str("full"))),
    }
}

impl<T> Sink<T> {
    /// The key of the channel this sink belongs to.
    pub closed spec fn channel_key(&self) -> ChannelKey {
        self.key
    }

    /// How many messages the channel holds at most.
    pub closed spec fn capacity(&self) -> usize {
        self.capacity
    }

    /// The channel's sending handle.
    pub closed spec fn handle(&self) -> mpsc::Sender<T> {
        self.channel
    }

    /// The channel's sending handle, for sends that wait for room.
    pub fn sender(&self) -> (r: &mpsc::Sender<T>)
        ensures
            *r == self.handle(),
    {
        &self.channel
    }

    /// Sends `value` without waiting and reports the outcome as
    /// `send_outcome` does. Whether the channel takes `value` depends on its
    /// other ends, so no clause says when it succeeds; when it refuses,
    /// `value` comes back with the reason: `"full"` or `"backlog closed!"`.
    pub fn try_send(&self, value: T) -> (r: Result<(), (T, String)>)
        ensures
            r matches Err((v, reason)) ==> v == value && is_refusal_text(reason@),
    {
        send_outcome(sender_try_send(&self.channel, value))
    }
}

/// A handle that can be duplicated into another handle on the same thing.
pub trait Fork: Sized {
    fn fork(&self) -> Self;
}

impl<T> Fork for Sink<T> {
    /// Another sink on the same channel, with the same key and capacity.
    fn fork(&self) -> (r: Sink<T>)
        ensures
            r.channel_key() == self.channel_key(),
            r.capacity() == self.capacity(),
    {
        Sink { key: self.key, capacity: self.capacity, channel: sender_clone(&self.channel) }
    }
}

} // verus!
