//! Trusted boundary around the shared multi-producer multi-consumer
//! queue that carries the pool's messages.
//!
//! The queue itself is `crossbeam_channel`'s unbounded channel; what a
//! blocked receive hands back depends on what other threads have sent,
//! so the contracts here state only what holds of every outcome.

use vstd::prelude::*;

verus! {

#[verifier::external_type_specification]
#[verifier::external_body]
#[verifier::reject_recursive_types(T)]
pub struct ExSender<T>(crossbeam_channel::Sender<T>);

#[verifier::external_type_specification]
#[verifier::external_body]
#[verifier::reject_recursive_types(T)]
pub struct ExReceiver<T>(crossbeam_channel::Receiver<T>);

/// Relies on crossbeam_channel::unbounded: a connected channel pair of
/// unlimited capacity, so sending never blocks.
#[verifier::external_body]
pub(crate) fn channel_unbounded<T>() -> (crossbeam_channel::Sender<T>, crossbeam_channel::Receiver<T>) {
    crossbeam_channel::unbounded()
}

/// Relies on crossbeam_channel::Sender::send: on an unbounded channel it
/// never blocks, and it fails only when every receiver has been dropped,
/// in which case the rejected message comes back unchanged.
#[verifier::external_body]
pub(crate) fn channel_send<T>(tx: &crossbeam_channel::Sender<T>, msg: T) -> (r: Result<(), T>)
    ensures
        r matches Err(m) ==> m == msg,
{
    match tx.send(msg) {
        Ok(()) => Ok(()),
        Err(crossbeam_channel::SendError(m)) => Err(m),
    }
}

/// Relies on crossbeam_channel::Receiver::recv: blocks until a message
/// arrives, and returns none only when the channel is empty and every
/// sender has been dropped. Which message arrives depends on the other
/// threads, so nothing is stated of the value.
#[verifier::external_body]
pub(crate) fn channel_recv<T>(rx: &crossbeam_channel::Receiver<T>) -> (r: Option<T>) {
    rx.recv().ok()
}

/// Relies on crossbeam_channel::Receiver::clone: another handle on the
/// same shared queue, racing with every other clone for each message.
#[verifier::external_body]
pub(crate) fn channel_clone_receiver<T>(rx: &crossbeam_channel::Receiver<T>) -> (r: crossbeam_channel::Receiver<T>) {
    rx.clone()
}

/// The sending half of a shared queue together with a ghost log of its
/// own traffic: every message it attempted to enqueue, and the subset
/// the queue accepted, each in send order. What other senders or other
/// threads put on the queue is no part of the log.
///
/// The fields are private to this module, so the log can change only
/// through [`LoggedSender::send`], whose body is verified: the link
/// between the log and the real queue rests solely on `channel_send`'s
/// contract.
#[verifier::reject_recursive_types(T)]
pub struct LoggedSender<T> {
    tx: crossbeam_channel::Sender<T>,
    attempted: Ghost<Seq<T>>,
    accepted: Ghost<Seq<T>>,
}

impl<T> LoggedSender<T> {
    /// Every message this sender has handed to the queue, in order.
    pub closed spec fn attempted(self) -> Seq<T> {
        self.attempted@
    }

    /// Every message the queue accepted from this sender, in order.
    pub closed spec fn accepted(self) -> Seq<T> {
        self.accepted@
    }

    /// Enqueue one message, without blocking, and log it: the message
    /// is always appended to the attempted log, and to the accepted
    /// log exactly when the queue took it.
    pub(crate) fn send(&mut self, msg: T) -> (r: Result<(), T>)
        ensures
            final(self).attempted() == old(self).attempted().push(msg),
            r is Ok ==> final(self).accepted() == old(self).accepted().push(msg),
            r is Err ==> final(self).accepted() == old(self).accepted(),
            r matches Err(m) ==> m == msg,
        {
        let ghost logged = msg;
        self.attempted = Ghost(self.attempted@.push(logged));
        match channel_send(&self.tx, msg) {
            Ok(()) => {
                self.accepted = Ghost(self.accepted@.push(logged));
                Ok(())
            }
            Err(m) => Err(m),
        }
    }
}

/// A fresh shared unbounded queue: its sending half with an empty log,
/// and its receiving half.
pub(crate) fn logged_unbounded<T>() -> (r: (LoggedSender<T>, crossbeam_channel::Receiver<T>))
    ensures
        r.0.attempted() == Seq::<T>::empty(),
        r.0.accepted() == Seq::<T>::empty(),
    {
    let (tx, rx) = channel_unbounded();
    let sender = LoggedSender {
        tx,
        attempted: Ghost(Seq::empty()),
        accepted: Ghost(Seq::empty()),
    };
    (sender, rx)
}

} // verus!
