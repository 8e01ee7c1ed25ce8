//! The channel fabric: a bounded FIFO queue carrying typed messages from one
//! producer to one consumer.
//!
//! A full queue refuses further messages (backpressure: the sender suspends
//! until a slot frees), and a closed queue makes further receives return an
//! end-of-stream marker once it has drained.

use vstd::prelude::*;

verus! {

/// Mathematical state of one bounded FIFO channel: the messages queued right
/// now (oldest first), the fixed capacity, and whether the sending side has
/// been closed.
pub struct QueueView<T> {
    pub contents: Seq<T>,
    pub capacity: nat,
    pub closed: bool,
}

impl<T> QueueView<T> {
    pub open spec fn wf(self) -> bool {
        self.contents.len() <= self.capacity && self.capacity >= 1
    }

    pub open spec fn is_full(self) -> bool {
        self.contents.len() == self.capacity
    }

    /// The channel after one successful send: the message is appended.
    pub open spec fn sent(self, message: T) -> Self {
        QueueView { contents: self.contents.push(message), ..self }
    }

    /// The channel after one successful receive: the oldest message leaves.
    pub open spec fn received(self) -> Self {
        QueueView { contents: self.contents.drop_first(), ..self }
    }

    /// The channel after the sending side is closed.
    pub open spec fn with_closed(self) -> Self {
        QueueView { closed: true, ..self }
    }
}

/// Outcome of one send attempt. A `Full` or `Closed` outcome hands the
/// message back untouched: a full channel suspends the sender rather than
/// dropping anything.
#[derive(Debug, PartialEq, Eq)]
pub enum SendPoll<T> {
    Sent,
    Full(T),
    Closed(T),
}

/// Outcome of one receive attempt. `Empty` means the receiver would suspend;
/// `Ended` is the end-of-stream marker of a closed, drained channel.
#[derive(Debug, PartialEq, Eq)]
pub enum QueuePoll<T> {
    Received(T),
    Empty,
    Ended,
}

/// A bounded FIFO queue: one channel of the fabric.
pub struct BoundedQueue<T> {
    items: Vec<T>,
    capacity: usize,
    closed: bool,
}

impl<T> View for BoundedQueue<T> {
    type V = QueueView<T>;

    closed spec fn view(&self) -> QueueView<T> {
        QueueView {
            contents: self.items@,
            capacity: self.capacity as nat,
            closed: self.closed,
        }
    }
}

impl<T> BoundedQueue<T> {
    /// A fresh, open, empty channel of the given capacity.
    pub fn new(capacity: usize) -> (queue: Self)
        requires
            capacity >= 1,
        ensures
            queue@ == (QueueView::<T> {
                contents: Seq::empty(),
                capacity: capacity as nat,
                closed: false,
            }),
            queue@.wf(),
    {
        BoundedQueue { items: Vec::new(), capacity, closed: false }
    }

    pub fn len(&self) -> (n: usize)
        ensures
            n == self@.contents.len(),
    {
        self.items.len()
    }

    pub fn is_empty(&self) -> (empty: bool)
        ensures
            empty == (self@.contents.len() == 0),
    {
        self.items.len() == 0
    }

    pub fn is_full(&self) -> (full: bool)
        ensures
            full == self@.is_full(),
    {
        self.items.len() == self.capacity
    }

    pub fn is_closed(&self) -> (closed: bool)
        ensures
            closed == self@.closed,
    {
        self.closed
    }

    /// Attempt to enqueue one message. The message is appended exactly when
    /// the channel is open and below capacity; otherwise the channel is left
    /// untouched and the message comes back with the reason.
    pub fn try_send(&mut self, message: T) -> (r: SendPoll<T>)
        requires
            old(self)@.wf(),
        ensures
            final(self)@.wf(),
            old(self)@.closed ==> r == SendPoll::Closed(message) && final(self)@ == old(self)@,
            !old(self)@.closed && old(self)@.is_full() ==> r == SendPoll::Full(message)
                && final(self)@ == old(self)@,
            !old(self)@.closed && !old(self)@.is_full() ==> r == SendPoll::<T>::Sent
                && final(self)@ == old(self)@.sent(message),
    {
        if self.closed {
            SendPoll::Closed(message)
        } else if self.items.len() == self.capacity {
            SendPoll::Full(message)
        } else {
            self.items.push(message);
            SendPoll::Sent
        }
    }

    /// Attempt to dequeue the oldest message. An open, empty channel reports
    /// `Empty` (the receiver would suspend); a closed, empty channel reports
    /// end-of-stream.
    pub fn try_recv(&mut self) -> (r: QueuePoll<T>)
        requires
            old(self)@.wf(),
        ensures
            final(self)@.wf(),
            old(self)@.contents.len() > 0 ==> r == QueuePoll::Received(old(self)@.contents[0])
                && final(self)@ == old(self)@.received(),
            old(self)@.contents.len() == 0 && old(self)@.closed ==> r == QueuePoll::<T>::Ended
                && final(self)@ == old(self)@,
            old(self)@.contents.len() == 0 && !old(self)@.closed ==> r == QueuePoll::<T>::Empty
                && final(self)@ == old(self)@,
    {
        if self.items.len() > 0 {
            let message = self.items.remove(0);
            QueuePoll::Received(message)
        } else if self.closed {
            QueuePoll::Ended
        } else {
            QueuePoll::Empty
        }
    }

    /// Close the sending side. Queued messages stay receivable; once drained,
    /// the receiver sees end-of-stream. Idempotent.
    pub fn close(&mut self)
        ensures
            final(self)@ == old(self)@.with_closed(),
    {
        self.closed = true;
    }
}

/// The channel after a whole batch of sends, oldest first.
pub open spec fn send_all<T>(queue: QueueView<T>, messages: Seq<T>) -> QueueView<T>
    decreases messages.len(),
{
    if messages.len() == 0 {
        queue
    } else {
        send_all(queue.sent(messages[0]), messages.drop_first())
    }
}

/// The messages observed by `count` receives in a row, in the order received.
pub open spec fn received_prefix<T>(queue: QueueView<T>, count: nat) -> Seq<T>
    decreases count,
{
    if count == 0 || queue.contents.len() == 0 {
        Seq::empty()
    } else {
        seq![queue.contents[0]] + received_prefix(queue.received(), (count - 1) as nat)
    }
}

proof fn lemma_send_all_contents<T>(queue: QueueView<T>, messages: Seq<T>)
    ensures
        send_all(queue, messages).contents =~= queue.contents + messages,
        send_all(queue, messages).capacity == queue.capacity,
        send_all(queue, messages).closed == queue.closed,
    decreases messages.len(),
{
    if messages.len() > 0 {
        lemma_send_all_contents(queue.sent(messages[0]), messages.drop_first());
        assert(queue.contents.push(messages[0]) + messages.drop_first() =~= queue.contents
            + messages);
    }
}

proof fn lemma_received_prefix_all<T>(queue: QueueView<T>)
    ensures
        received_prefix(queue, queue.contents.len()) =~= queue.contents,
    decreases queue.contents.len(),
{
    if queue.contents.len() > 0 {
        lemma_received_prefix_all(queue.received());
        assert(seq![queue.contents[0]] + queue.contents.drop_first() =~= queue.contents);
    }
}

/// FIFO law: for every sequence of sends on one channel, the receiver
/// observes exactly those messages in the order they were sent — a batch
/// that fits the remaining capacity is appended behind what was already
/// queued, and draining the channel yields the old contents followed by the
/// batch, element for element.
pub proof fn lemma_fifo_order<T>(queue: QueueView<T>, messages: Seq<T>)
    requires
        queue.wf(),
        queue.contents.len() + messages.len() <= queue.capacity,
    ensures
        send_all(queue, messages).wf(),
        send_all(queue, messages).contents =~= queue.contents + messages,
        received_prefix(send_all(queue, messages), queue.contents.len() + messages.len())
            =~= queue.contents + messages,
{
    lemma_send_all_contents(queue, messages);
    lemma_received_prefix_all(send_all(queue, messages));
}

} // verus!
