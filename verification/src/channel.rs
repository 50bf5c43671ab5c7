//! An unbounded first-in, first-out queue of text with two ends that can be
//! closed independently: the link between the caller and one pump.

use std::collections::VecDeque;
use vstd::prelude::*;
use vstd::string::*;

verus! {

/// The texts held by a sequence of strings, in order.
pub open spec fn texts(items: Seq<String>) -> Seq<Seq<char>> {
    Seq::new(items.len(), |i: int| items[i]@)
}

/// What a channel is, mathematically: the texts in flight, oldest first, and
/// whether each end is still held.
pub struct ChannelModel {
    pub queue: Seq<Seq<char>>,
    pub sender_open: bool,
    pub receiver_open: bool,
}

/// Why a receive handed out nothing.
#[derive(Clone, Copy, Debug, PartialEq, Eq, Structural)]
pub enum ReceiveFailure {
    /// Nothing is queued now; the sending end may still deliver.
    Empty,
    /// Nothing is queued and the sending end is gone.
    Disconnected,
}

/// A text that could not be queued because the receiving end is gone.
#[derive(Debug)]
pub struct SendFailure {
    /// The text that was not delivered.
    pub undelivered: String,
}

/// What is reported of a text that could not be queued.
pub open spec fn send_failure_text() -> Seq<char> {
    "sending on a closed channel"@
}

impl SendFailure {
    /// The failure in words.
    pub fn message(&self) -> (text: String)
        ensures
            text@ == send_failure_text(),
    {
        String::from_str("sending on a closed channel")
    }
}

impl ChannelModel {
    /// A new channel: nothing queued, both ends held.
    pub open spec fn fresh() -> ChannelModel {
        ChannelModel { queue: Seq::empty(), sender_open: true, receiver_open: true }
    }

    /// Whether a send is accepted: exactly while both ends are held.
    pub open spec fn accepts(self) -> bool {
        self.sender_open && self.receiver_open
    }

    /// The channel after `item` was offered to it.
    pub open spec fn after_send(self, item: Seq<char>) -> ChannelModel {
        if self.accepts() {
            ChannelModel { queue: self.queue.push(item), ..self }
        } else {
            self
        }
    }

    /// The channel after `items` were offered to it one by one, in order.
    pub open spec fn after_send_all(self, items: Seq<Seq<char>>) -> ChannelModel
        decreases items.len(),
    {
        if items.len() == 0 {
            self
        } else {
            self.after_send_all(items.drop_last()).after_send(items.last())
        }
    }

    /// What a receive hands out.
    pub open spec fn received(self) -> Result<Seq<char>, ReceiveFailure> {
        if !self.receiver_open {
            Err(ReceiveFailure::Disconnected)
        } else if self.queue.len() > 0 {
            Ok(self.queue[0])
        } else if self.sender_open {
            Err(ReceiveFailure::Empty)
        } else {
            Err(ReceiveFailure::Disconnected)
        }
    }

    /// The channel after a receive.
    pub open spec fn after_receive(self) -> ChannelModel {
        if self.receiver_open && self.queue.len() > 0 {
            ChannelModel { queue: self.queue.drop_first(), ..self }
        } else {
            self
        }
    }

    /// The channel after `n` receives.
    pub open spec fn after_receives(self, n: nat) -> ChannelModel
        decreases n,
    {
        if n == 0 {
            self
        } else {
            self.after_receive().after_receives((n - 1) as nat)
        }
    }

    /// The channel after its sending end was given up. What is queued stays
    /// receivable.
    pub open spec fn after_sender_closed(self) -> ChannelModel {
        ChannelModel { sender_open: false, ..self }
    }

    /// The channel after its receiving end was given up. What was queued is
    /// lost with it.
    pub open spec fn after_receiver_closed(self) -> ChannelModel {
        ChannelModel { queue: Seq::empty(), receiver_open: false, ..self }
    }
}

/// An unbounded queue of text between one producing and one consuming side.
#[derive(Debug)]
pub struct Channel {
    items: VecDeque<String>,
    sender_open: bool,
    receiver_open: bool,
}

impl View for Channel {
    type V = ChannelModel;

    closed spec fn view(&self) -> ChannelModel {
        ChannelModel {
            queue: texts(self.items@),
            sender_open: self.sender_open,
            receiver_open: self.receiver_open,
        }
    }
}

impl Channel {
    /// An empty channel with both ends held.
    pub fn new() -> (channel: Channel)
        ensures
            channel@ == ChannelModel::fresh(),
    {
        let channel = Channel { items: VecDeque::new(), sender_open: true, receiver_open: true };
        assert(texts(channel.items@) =~= Seq::<Seq<char>>::empty());
        channel
    }

    /// Queues `item` behind everything queued before. Never waits: the queue
    /// has no capacity limit. Fails, handing the text back, exactly when one
    /// of the two ends is gone.
    pub fn send(&mut self, item: String) -> (sent: Result<(), SendFailure>)
        ensures
            final(self)@ == old(self)@.after_send(item@),
            old(self)@.accepts() ==> sent is Ok,
            !old(self)@.accepts() ==> sent is Err && sent->Err_0.undelivered@ == item@,
    {
        if self.sender_open && self.receiver_open {
            self.items.push_back(item);
            assert(texts(self.items@) =~= texts(old(self).items@).push(item@));
            Ok(())
        } else {
            Err(SendFailure { undelivered: item })
        }
    }

    /// Takes the oldest queued text, if there is one, without waiting.
    pub fn try_recv(&mut self) -> (taken: Result<String, ReceiveFailure>)
        ensures
            final(self)@ == old(self)@.after_receive(),
            match taken {
                Ok(item) => old(self)@.received() == Ok::<Seq<char>, ReceiveFailure>(item@),
                Err(why) => old(self)@.received() == Err::<Seq<char>, ReceiveFailure>(why),
            },
    {
        if !self.receiver_open {
            return Err(ReceiveFailure::Disconnected);
        }
        match self.items.pop_front() {
            Some(item) => {
                assert(texts(self.items@) =~= texts(old(self).items@).drop_first());
                Ok(item)
            },
            None => {
                if self.sender_open {
                    Err(ReceiveFailure::Empty)
                } else {
                    Err(ReceiveFailure::Disconnected)
                }
            },
        }
    }

    /// The number of texts queued.
    pub fn len(&self) -> (n: usize)
        ensures
            n == self@.queue.len(),
    {
        self.items.len()
    }

    /// Whether the sending end is still held.
    pub fn is_sender_open(&self) -> (open: bool)
        ensures
            open == self@.sender_open,
    {
        self.sender_open
    }

    /// Whether the receiving end is still held.
    pub fn is_receiver_open(&self) -> (open: bool)
        ensures
            open == self@.receiver_open,
    {
        self.receiver_open
    }

    /// Gives up the sending end. The consuming side sees
    /// [`ReceiveFailure::Disconnected`] once it has taken what is queued.
    pub fn close_sender(&mut self)
        ensures
            final(self)@ == old(self)@.after_sender_closed(),
    {
        self.sender_open = false;
    }

    /// Gives up the receiving end. Every later send fails.
    pub fn close_receiver(&mut self)
        ensures
            final(self)@ == old(self)@.after_receiver_closed(),
    {
        self.receiver_open = false;
        self.items.clear();
        assert(texts(self.items@) =~= Seq::<Seq<char>>::empty());
    }
}

} // verus!
