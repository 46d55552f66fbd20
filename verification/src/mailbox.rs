//! The dispatch channel: a bounded FIFO of command tickets, kept in a
//! `futures_channel::mpsc` channel whose two ends stay together.

use vstd::prelude::*;

verus! {

#[verifier::external_type_specification]
#[verifier::external_body]
#[verifier::reject_recursive_types(T)]
pub struct ExSender<T>(futures_channel::mpsc::Sender<T>);

#[verifier::external_type_specification]
#[verifier::external_body]
#[verifier::reject_recursive_types(T)]
pub struct ExReceiver<T>(futures_channel::mpsc::Receiver<T>);

/// The tickets that a channel holds, oldest first.
pub uninterp spec fn channel_items(
    ends: (futures_channel::mpsc::Sender<u64>, futures_channel::mpsc::Receiver<u64>),
) -> Seq<u64>;

/// The number of tickets that a channel with a single sender takes before it
/// turns one away.
pub uninterp spec fn channel_bound(
    ends: (futures_channel::mpsc::Sender<u64>, futures_channel::mpsc::Receiver<u64>),
) -> nat;

/// Whether the two ends belong to one open channel that has no other sender.
pub uninterp spec fn channel_linked(
    ends: (futures_channel::mpsc::Sender<u64>, futures_channel::mpsc::Receiver<u64>),
) -> bool;

/// Calls `futures_channel::mpsc::channel`. Not proved: the new channel is
/// empty, its two ends are linked, and with its one sender it holds
/// `buffer + 1` messages (the buffer and the sender's guaranteed slot).
/// The outside function panics unless `buffer` is under its maximum.
#[verifier::external_body]
fn open_channel(buffer: usize) -> (ends: (
    futures_channel::mpsc::Sender<u64>,
    futures_channel::mpsc::Receiver<u64>,
))
    requires
        buffer < usize::MAX / 4,
    ensures
        channel_linked(ends),
        channel_items(ends) == Seq::<u64>::empty(),
        channel_bound(ends) == buffer + 1,
{
    futures_channel::mpsc::channel::<u64>(buffer)
}

/// Calls `Sender::try_send` and, on failure, `TrySendError::into_inner`.
/// Not proved: with both ends in one place and a single sender, the message
/// is appended exactly when the channel is under its bound; otherwise the
/// channel is unchanged and the message comes back.
#[verifier::external_body]
fn try_send(
    ends: &mut (futures_channel::mpsc::Sender<u64>, futures_channel::mpsc::Receiver<u64>),
    ticket: u64,
) -> (refused: Option<u64>)
    requires
        channel_linked(*old(ends)),
    ensures
        channel_linked(*final(ends)),
        channel_bound(*final(ends)) == channel_bound(*old(ends)),
        refused is None <==> channel_items(*old(ends)).len() < channel_bound(*old(ends)),
        refused is None ==> channel_items(*final(ends)) == channel_items(*old(ends)).push(ticket),
        refused is Some ==> refused == Some(ticket) && channel_items(*final(ends))
            == channel_items(*old(ends)),
{
    ends.0.try_send(ticket).err().map(|e| e.into_inner())
}

/// Calls `Receiver::try_recv`. Not proved: the oldest message leaves the
/// channel and is returned; an empty channel is unchanged and gives `None`.
#[verifier::external_body]
fn try_recv(
    ends: &mut (futures_channel::mpsc::Sender<u64>, futures_channel::mpsc::Receiver<u64>),
) -> (r: Option<u64>)
    requires
        channel_linked(*old(ends)),
    ensures
        channel_linked(*final(ends)),
        channel_bound(*final(ends)) == channel_bound(*old(ends)),
        channel_items(*old(ends)).len() == 0 ==> r is None && channel_items(*final(ends))
            == channel_items(*old(ends)),
        channel_items(*old(ends)).len() > 0 ==> r == Some(channel_items(*old(ends))[0])
            && channel_items(*final(ends)) == channel_items(*old(ends)).drop_first(),
{
    ends.1.try_recv().ok()
}

/// A bounded first-in, first-out mailbox of tickets.
pub struct Mailbox {
    ends: (futures_channel::mpsc::Sender<u64>, futures_channel::mpsc::Receiver<u64>),
}

impl Mailbox {
    /// The tickets in the mailbox, oldest first.
    pub closed spec fn view(&self) -> Seq<u64> {
        channel_items(self.ends)
    }

    /// How many tickets the mailbox holds at most.
    pub closed spec fn capacity(&self) -> nat {
        channel_bound(self.ends)
    }

    /// The mailbox is usable and within its capacity.
    pub closed spec fn wf(&self) -> bool {
        &&& channel_linked(self.ends)
        &&& channel_items(self.ends).len() <= channel_bound(self.ends)
        &&& 1 <= channel_bound(self.ends) <= usize::MAX / 4
    }

    /// An empty mailbox that holds up to `capacity` tickets.
    pub fn new(capacity: usize) -> (mailbox: Mailbox)
        requires
            1 <= capacity <= usize::MAX / 4,
        ensures
            mailbox.wf(),
            mailbox@ == Seq::<u64>::empty(),
            mailbox.capacity() == capacity,
    {
        Mailbox { ends: open_channel(capacity - 1) }
    }

    /// Appends `ticket` unless the mailbox is full; says whether it did.
    pub fn offer(&mut self, ticket: u64) -> (accepted: bool)
        requires
            old(self).wf(),
        ensures
            final(self).wf(),
            final(self).capacity() == old(self).capacity(),
            accepted <==> old(self)@.len() < old(self).capacity(),
            accepted ==> final(self)@ == old(self)@.push(ticket),
            !accepted ==> final(self)@ == old(self)@,
    {
        try_send(&mut self.ends, ticket).is_none()
    }

    /// Removes and returns the oldest ticket, if there is one.
    pub fn take(&mut self) -> (ticket: Option<u64>)
        requires
            old(self).wf(),
        ensures
            final(self).wf(),
            final(self).capacity() == old(self).capacity(),
            old(self)@.len() == 0 ==> ticket is None && final(self)@ == old(self)@,
            old(self)@.len() > 0 ==> ticket == Some(old(self)@[0]) && final(self)@ == old(
                self,
            )@.drop_first(),
    {
        try_recv(&mut self.ends)
    }
}

} // verus!
