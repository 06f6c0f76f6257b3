//! The channel on which a list tells its owner what was confirmed: an
//! unbounded first-in first-out queue that never blocks.

use crate::components::optionselector::Actions;
use tokio::sync::mpsc::{unbounded_channel, UnboundedReceiver, UnboundedSender};
use vstd::prelude::*;

verus! {

/// The sending end of an unbounded channel of tokio, carried as it is.
#[verifier::external_type_specification]
#[verifier::external_body]
#[verifier::reject_recursive_types(T)]
pub struct ExUnboundedSender<T>(UnboundedSender<T>);

/// The receiving end of an unbounded channel of tokio, carried as it is.
#[verifier::external_type_specification]
#[verifier::external_body]
#[verifier::reject_recursive_types(T)]
pub struct ExUnboundedReceiver<T>(UnboundedReceiver<T>);

/// The messages that were sent to a receiver and that it has not handed out
/// yet, oldest first.
pub uninterp spec fn queued(rx: UnboundedReceiver<Actions>) -> Seq<Actions>;

/// The sender sends into the channel that the receiver, alive and open,
/// receives from.
pub uninterp spec fn feeds(tx: UnboundedSender<Actions>, rx: UnboundedReceiver<Actions>) -> bool;

/// Calls `unbounded_channel` of tokio: the two ends of a new channel, with
/// nothing queued.
#[verifier::external_body]
fn open_channel() -> (ends: (UnboundedSender<Actions>, UnboundedReceiver<Actions>))
    ensures
        queued(ends.1) == Seq::<Actions>::empty(),
        feeds(ends.0, ends.1),
{
    unbounded_channel()
}

/// Calls `UnboundedSender::send` of tokio on a sender whose receiver is
/// alive and open, where the send always succeeds: the message is queued
/// behind every message sent before.
#[verifier::external_body]
fn send_on(tx: &UnboundedSender<Actions>, rx: &mut UnboundedReceiver<Actions>, msg: Actions)
    requires
        feeds(*tx, *old(rx)),
    ensures
        queued(*final(rx)) == queued(*old(rx)).push(msg),
        feeds(*tx, *final(rx)),
    no_unwind
{
    let _ = tx.send(msg);
}

/// Calls `UnboundedReceiver::try_recv` of tokio: the oldest queued message
/// is taken off the queue, and an empty queue gives nothing and stays as it
/// is. The receiver goes on receiving from the same senders.
#[verifier::external_body]
fn take_from(rx: &mut UnboundedReceiver<Actions>) -> (msg: Option<Actions>)
    ensures
        queued(*old(rx)).len() > 0 ==> msg == Some(queued(*old(rx))[0]) && queued(*final(rx))
            == queued(*old(rx)).drop_first(),
        queued(*old(rx)).len() == 0 ==> msg is None && queued(*final(rx)) == queued(*old(rx)),
        forall|tx: UnboundedSender<Actions>| #[trigger]
            feeds(tx, *old(rx)) ==> feeds(tx, *final(rx)),
    no_unwind
{
    rx.try_recv().ok()
}

/// Calls `UnboundedReceiver::len` of tokio: the number of queued messages.
#[verifier::external_body]
fn count_in(rx: &UnboundedReceiver<Actions>) -> (n: usize)
    ensures
        n == queued(*rx).len(),
{
    rx.len()
}

/// Why a receive gave no message.
#[derive(Clone, Copy, Debug, PartialEq, Eq, Structural)]
pub enum TryRecvError {
    /// Nothing is queued, but the sender is still alive.
    Empty,
    /// Nothing is queued and the sender is gone: no message will ever
    /// arrive.
    Disconnected,
}

/// The sender is gone, so the message was not queued.
#[derive(Clone, Copy, Debug, PartialEq, Eq, Structural)]
pub struct SendError;

/// A channel with its one sender and its receiver. Messages come out in the
/// order they went in.
#[derive(Debug)]
pub struct ActionChannel {
    tx: Option<UnboundedSender<Actions>>,
    rx: UnboundedReceiver<Actions>,
}

impl View for ActionChannel {
    type V = Seq<Actions>;

    /// The queued messages, oldest first.
    closed spec fn view(&self) -> Seq<Actions> {
        queued(self.rx)
    }
}

impl ActionChannel {
    /// While the channel has its sender, the sender feeds its receiver.
    #[verifier::type_invariant]
    spec fn paired(self) -> bool {
        self.tx matches Some(tx) ==> feeds(tx, self.rx)
    }

    /// Whether the sender has been dropped.
    pub closed spec fn is_closed(&self) -> bool {
        self.tx is None
    }

    /// An open channel with nothing queued.
    pub fn new() -> (ch: Self)
        ensures
            ch@ == Seq::<Actions>::empty(),
            !ch.is_closed(),
    {
        let (tx, rx) = open_channel();
        ActionChannel { tx: Some(tx), rx }
    }

    /// Queues `msg` behind everything sent before, without blocking. Fails
    /// only once the sender is dropped, and then changes nothing.
    pub fn send(&mut self, msg: Actions) -> (r: Result<(), SendError>)
        ensures
            final(self).is_closed() == old(self).is_closed(),
            !old(self).is_closed() ==> r is Ok && final(self)@ == old(self)@.push(msg),
            old(self).is_closed() ==> r is Err && final(self)@ == old(self)@,
    {
        proof {
            use_type_invariant(&*self);
        }
        match &self.tx {
            Some(tx) => {
                send_on(tx, &mut self.rx, msg);
                Ok(())
            },
            None => Err(SendError),
        }
    }

    /// Takes the oldest queued message without blocking. An empty channel
    /// answers `Empty` while the sender lives and `Disconnected` after.
    pub fn try_recv(&mut self) -> (r: Result<Actions, TryRecvError>)
        ensures
            final(self).is_closed() == old(self).is_closed(),
            old(self)@.len() > 0 ==> r == Ok::<Actions, TryRecvError>(old(self)@[0]) && final(self)@ == old(self)@.drop_first(),
            old(self)@.len() == 0 ==> final(self)@ == old(self)@ && r == Err::<
                Actions,
                TryRecvError,
            >(
                if old(self).is_closed() {
                    TryRecvError::Disconnected
                } else {
                    TryRecvError::Empty
                },
            ),
    {
        proof {
            use_type_invariant(&*self);
        }
        match take_from(&mut self.rx) {
            Some(msg) => Ok(msg),
            None => {
                if self.tx.is_none() {
                    Err(TryRecvError::Disconnected)
                } else {
                    Err(TryRecvError::Empty)
                }
            },
        }
    }

    /// Drops the sender. What is queued can still be received.
    pub fn close(&mut self)
        ensures
            final(self).is_closed(),
            final(self)@ == old(self)@,
    {
        self.tx = None;
    }

    /// The number of queued messages.
    pub fn len(&self) -> (n: usize)
        ensures
            n == self@.len(),
    {
        count_in(&self.rx)
    }
}

/// Messages come out in the order they went in: a message sent later is
/// behind every message sent before, whenever those are taken.
pub proof fn lemma_fifo(q: Seq<Actions>, a: Actions, b: Actions)
    ensures
        q.push(a).push(b).drop_first() == q.push(a).drop_first().push(b),
        q.len() == 0 ==> q.push(a).push(b)[0] == a && q.push(a).push(b).drop_first()[0] == b,
{
    assert(q.push(a).push(b).drop_first() =~= q.push(a).drop_first().push(b));
}

} // verus!
