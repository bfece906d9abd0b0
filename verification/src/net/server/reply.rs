//! The queue behind a reply whose messages can be held back until it is flushed, with support for
//! putting a message in front of all the held ones.
use vstd::prelude::*;

verus! {

/// Why a reply could not be sent: the connection it goes back through is closed.
#[derive(Clone, Debug, PartialEq, Eq)]
pub struct ReplyClosed {
    /// What went wrong
    pub description: String,
}

/// Interface to send a reply to some request
pub trait Reply {
    /// The data the reply carries.
    type Data;

    /// Sends a reply out from the server.
    fn send(&self, data: Self::Data) -> Result<(), ReplyClosed>;
}

/// What to do with a message given to a reply queue.
#[derive(Clone, Debug, PartialEq, Eq)]
pub enum ReplyAction<T> {
    /// The message was held in the queue.
    Queued,
    /// The queue is not holding messages: send this one now.
    SendNow(T),
}

/// Messages of a reply held until the queue is flushed.
///
/// * While holding, messages are kept in the queue.
/// * While not holding, messages are sent directly as they come in.
pub struct ReplyQueue<T> {
    hold: bool,
    queue: Vec<T>,
}

impl<T> ReplyQueue<T> {
    /// Whether messages are held.
    pub closed spec fn holding(&self) -> bool {
        self.hold
    }

    /// The held messages, in the order in which they will be sent.
    pub closed spec fn pending(&self) -> Seq<T> {
        self.queue@
    }

    /// A new queue, which holds messages.
    pub fn new() -> (r: Self)
        ensures
            r.holding(),
            r.pending() == Seq::<T>::empty(),
    {
        ReplyQueue { hold: true, queue: Vec::new() }
    }

    /// Whether messages are held.
    pub fn is_holding(&self) -> (r: bool)
        ensures
            r == self.holding(),
    {
        self.hold
    }

    /// Updates the hold status for the queue
    ///
    /// * If true, all messages are held until the queue is flushed
    /// * If false, messages are sent directly as they come in
    pub fn hold(&mut self, hold: bool)
        ensures
            final(self).holding() == hold,
            final(self).pending() == old(self).pending(),
    {
        self.hold = hold;
    }

    /// Takes a message, holding it at the back of the queue if holding messages.
    pub fn send(&mut self, data: T) -> (r: ReplyAction<T>)
        ensures
            final(self).holding() == old(self).holding(),
            old(self).holding() ==> r == ReplyAction::<T>::Queued && final(self).pending() == old(
                self,
            ).pending().push(data),
            !old(self).holding() ==> r == ReplyAction::SendNow(data) && final(self).pending()
                == old(self).pending(),
    {
        if self.hold {
            self.queue.push(data);
            ReplyAction::Queued
        } else {
            ReplyAction::SendNow(data)
        }
    }

    /// Takes a message to send before anything else in the queue.
    pub fn send_before(&mut self, data: T) -> (r: ReplyAction<T>)
        ensures
            final(self).holding() == old(self).holding(),
            old(self).holding() ==> r == ReplyAction::<T>::Queued && final(self).pending() == seq![
                data,
            ] + old(self).pending(),
            !old(self).holding() ==> r == ReplyAction::SendNow(data) && final(self).pending()
                == old(self).pending(),
    {
        if self.hold {
            self.queue.insert(0, data);
            proof {
                assert(self.queue@ =~= seq![data] + old(self).queue@);
            }
            ReplyAction::Queued
        } else {
            ReplyAction::SendNow(data)
        }
    }

    /// Takes every held message out of the queue, in the order in which they are to be sent.
    pub fn take_pending(&mut self) -> (r: Vec<T>)
        ensures
            r@ == old(self).pending(),
            final(self).pending() == Seq::<T>::empty(),
            final(self).holding() == old(self).holding(),
    {
        let mut taken: Vec<T> = Vec::new();
        std::mem::swap(&mut taken, &mut self.queue);
        taken
    }

    /// Sends all pending messages and clears the queue: returns them in order, and sets whether
    /// later messages are held.
    pub fn flush(&mut self, hold: bool) -> (r: Vec<T>)
        ensures
            r@ == old(self).pending(),
            final(self).pending() == Seq::<T>::empty(),
            final(self).holding() == hold,
    {
        let r = self.take_pending();
        self.hold = hold;
        r
    }
}

/// A message put in front with `send_before` goes out before every message held with `send`,
/// and flushing gives back the held messages in order: holding `a` with `send` then `b` with
/// `send_before` flushes `b` then `a`.
pub proof fn lemma_send_before_goes_first<T>(pending: Seq<T>, a: T, b: T)
    ensures
        seq![b] + pending.push(a) == seq![b] + pending + seq![a],
        (seq![b] + pending.push(a))[0] == b,
{
    assert(seq![b] + pending.push(a) =~= seq![b] + pending + seq![a]);
}

} // verus!
