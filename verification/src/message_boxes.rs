//! Message boxes: the only way for actors to interact with each other.
//!
//! A message box pairs one input receiver and one out-of-band control
//! receiver with one output sender. `recv` observes either the next input
//! message or a control signal, whichever is ready first; a shutdown signal
//! ends the receive stream. `send` forwards a message downstream, suspending
//! on backpressure and failing once the downstream receiver is gone.
//!
//! The boxes here are the synchronous, verified core of the runtime: every
//! operation is a state transition with an exact contract, and the points
//! where an asynchronous caller would suspend (an empty input channel, a full
//! output channel, an unresolved pending task) surface as explicit outcomes
//! or preconditions. The event loop that waits on those points lives outside
//! the crate and drives these transitions.

use vstd::prelude::*;

use crate::queue::BoundedQueue;
use crate::queue::QueuePoll;
use crate::queue::QueueView;
use crate::queue::SendPoll;

verus! {

/// A runtime control request, delivered out of band on its own channel.
#[derive(Clone, Copy, Debug, PartialEq, Eq, Structural)]
pub enum RuntimeRequest {
    Shutdown,
}

/// A channel-level failure surfaced to the owning actor.
#[derive(Clone, Copy, Debug, PartialEq, Eq, Structural)]
pub enum ChannelError {
    /// The downstream receiver has been dropped or closed.
    SendError,
    /// The upstream sender closed before a required message arrived.
    ReceiveError,
}

/// Identifies the logical peer that issued a request, so one server box can
/// route each response back to its originating client.
pub type ClientId = usize;

/// Outcome of one receive poll on a message box. `Pending` marks the point
/// where an asynchronous caller would suspend; `Closed` is the end-of-stream
/// marker.
#[derive(Debug, PartialEq, Eq)]
pub enum RecvPoll<I> {
    Message(I),
    Closed,
    Pending,
}

/// Mathematical state of a basic message box: its three channels, whether a
/// shutdown signal has been observed, the diagnostic-logging toggle and
/// name, and the ghost trace of messages logged so far.
pub struct SimpleBoxView<I, O> {
    pub input: QueueView<I>,
    pub signal: QueueView<RuntimeRequest>,
    pub output: QueueView<O>,
    pub stopped: bool,
    pub logging: bool,
    pub name: Seq<char>,
    pub input_log: Seq<I>,
    pub output_log: Seq<O>,
}

impl<I, O> SimpleBoxView<I, O> {
    pub open spec fn wf(self) -> bool {
        self.input.wf() && self.signal.wf() && self.output.wf()
    }

    /// A freshly connected box: all channels open and empty, logging on.
    pub open spec fn fresh(name: Seq<char>, capacity: nat) -> Self {
        SimpleBoxView {
            input: QueueView { contents: Seq::empty(), capacity, closed: false },
            signal: QueueView { contents: Seq::empty(), capacity, closed: false },
            output: QueueView { contents: Seq::empty(), capacity, closed: false },
            stopped: false,
            logging: true,
            name,
            input_log: Seq::empty(),
            output_log: Seq::empty(),
        }
    }

    /// The box after a shutdown signal is taken off the control channel:
    /// the receive stream is over.
    pub open spec fn observed_shutdown(self) -> Self {
        SimpleBoxView { signal: self.signal.received(), stopped: true, ..self }
    }

    /// The box after the oldest input message is delivered to the actor,
    /// logged first when logging is on.
    pub open spec fn delivered_head(self) -> Self {
        SimpleBoxView {
            input: self.input.received(),
            input_log: if self.logging {
                self.input_log.push(self.input.contents[0])
            } else {
                self.input_log
            },
            ..self
        }
    }

    /// One receive poll. The `signal_first` coin stands for the race between
    /// the input channel and the control channel: when both are ready either
    /// may win, and the box imposes no artificial priority. A shutdown
    /// signal, or exhaustion of both channels, ends the stream; an empty but
    /// open pair of channels leaves the caller suspended.
    pub open spec fn poll_spec(self, signal_first: bool) -> (Self, RecvPoll<I>) {
        if self.stopped {
            (self, RecvPoll::Closed)
        } else if signal_first && self.signal.contents.len() > 0 {
            (self.observed_shutdown(), RecvPoll::Closed)
        } else if self.input.contents.len() > 0 {
            (self.delivered_head(), RecvPoll::Message(self.input.contents[0]))
        } else if self.signal.contents.len() > 0 {
            (self.observed_shutdown(), RecvPoll::Closed)
        } else if self.input.closed && self.signal.closed {
            (self, RecvPoll::Closed)
        } else {
            (self, RecvPoll::Pending)
        }
    }

    /// A receive poll can make progress, or report end-of-stream, without
    /// suspending.
    pub open spec fn recv_ready(self) -> bool {
        self.stopped || self.signal.contents.len() > 0 || self.input.contents.len() > 0 || (
        self.input.closed && self.signal.closed)
    }

    /// One send: the message is logged first (when logging is on), then
    /// forwarded, which fails if the downstream receiver is gone. A full
    /// open channel is not covered here: the sender suspends instead.
    pub open spec fn send_spec(self, message: O) -> (Self, Result<(), ChannelError>) {
        let logged = SimpleBoxView {
            output_log: if self.logging {
                self.output_log.push(message)
            } else {
                self.output_log
            },
            ..self
        };
        if self.output.closed {
            (logged, Err(ChannelError::SendError))
        } else {
            (
                SimpleBoxView { output: self.output.sent(message), ..logged },
                Ok(()),
            )
        }
    }
}

/// The shared contract of every message-box variant: a stable name used as
/// the diagnostic-logging namespace, and a logging on/off toggle.
pub trait MessageBox: Sized {
    spec fn box_name(&self) -> Seq<char>;

    spec fn box_logging(&self) -> bool;

    /// Turn on/off logging of input and output messages.
    fn turn_logging_on(&mut self, on: bool)
        ensures
            final(self).box_logging() == on,
            final(self).box_name() == old(self).box_name(),
    ;

    /// Name of the associated actor.
    fn name(&self) -> (r: &str)
        ensures
            r@ == self.box_name(),
    ;

    fn logging_is_on(&self) -> (r: bool)
        ensures
            r == self.box_logging(),
    ;
}

/// The basic message box: one input channel, one control channel, one output
/// channel.
pub struct SimpleMessageBox<I, O> {
    name: String,
    input: BoundedQueue<I>,
    signal: BoundedQueue<RuntimeRequest>,
    output: BoundedQueue<O>,
    logging_is_on: bool,
    stopped: bool,
    input_log: Ghost<Seq<I>>,
    output_log: Ghost<Seq<O>>,
}

impl<I, O> View for SimpleMessageBox<I, O> {
    type V = SimpleBoxView<I, O>;

    closed spec fn view(&self) -> SimpleBoxView<I, O> {
        SimpleBoxView {
            input: self.input@,
            signal: self.signal@,
            output: self.output@,
            stopped: self.stopped,
            logging: self.logging_is_on,
            name: self.name@,
            input_log: self.input_log@,
            output_log: self.output_log@,
        }
    }
}

impl<I, O> SimpleMessageBox<I, O> {
    /// Assemble a box from its three channel endpoints. Logging starts on.
    pub fn new(
        name: String,
        input: BoundedQueue<I>,
        signal: BoundedQueue<RuntimeRequest>,
        output: BoundedQueue<O>,
    ) -> (r: Self)
        requires
            input@.wf(),
            signal@.wf(),
            output@.wf(),
        ensures
            r@ == (SimpleBoxView {
                input: input@,
                signal: signal@,
                output: output@,
                stopped: false,
                logging: true,
                name: name@,
                input_log: Seq::<I>::empty(),
                output_log: Seq::<O>::empty(),
            }),
            r@.wf(),
    {
        SimpleMessageBox {
            name,
            input,
            signal,
            output,
            logging_is_on: true,
            stopped: false,
            input_log: Ghost(Seq::empty()),
            output_log: Ghost(Seq::empty()),
        }
    }

    /// Create a connected message box pair under one shared logical name:
    /// what the first box sends, the fabric delivers to the second, and vice
    /// versa. The first box is the client view, the second the service view.
    pub fn channel(name: &str, capacity: usize) -> (pair: (SimpleMessageBox<O, I>, Self))
        requires
            capacity >= 1,
        ensures
            pair.0@ == SimpleBoxView::<O, I>::fresh(name@, capacity as nat),
            pair.1@ == SimpleBoxView::<I, O>::fresh(name@, capacity as nat),
    {
        let client = SimpleMessageBox::<O, I>::new(
            String::from_str(name),
            BoundedQueue::new(capacity),
            BoundedQueue::new(capacity),
            BoundedQueue::new(capacity),
        );
        let service = SimpleMessageBox::<I, O>::new(
            String::from_str(name),
            BoundedQueue::new(capacity),
            BoundedQueue::new(capacity),
            BoundedQueue::new(capacity),
        );
        (client, service)
    }

    /// One receive poll: the verified step behind `recv`. The caller's event
    /// loop supplies `signal_first`, the observed winner of the race between
    /// the control channel and the input channel.
    pub fn poll_recv(&mut self, signal_first: bool) -> (r: RecvPoll<I>)
        requires
            old(self)@.wf(),
        ensures
            final(self)@.wf(),
            (final(self)@, r) == old(self)@.poll_spec(signal_first),
    {
        if self.stopped {
            return RecvPoll::Closed;
        }
        if signal_first {
            match self.signal.try_recv() {
                QueuePoll::Received(_) => {
                    self.stopped = true;
                    return RecvPoll::Closed;
                },
                _ => {},
            }
        }
        match self.input.try_recv() {
            QueuePoll::Received(message) => {
                let ghost new_log = if self.logging_is_on {
                    self.input_log@.push(message)
                } else {
                    self.input_log@
                };
                self.input_log = Ghost(new_log);
                RecvPoll::Message(message)
            },
            QueuePoll::Empty => {
                if signal_first {
                    return RecvPoll::Pending;
                }
                match self.signal.try_recv() {
                    QueuePoll::Received(_) => {
                        self.stopped = true;
                        RecvPoll::Closed
                    },
                    _ => RecvPoll::Pending,
                }
            },
            QueuePoll::Ended => {
                if signal_first {
                    if self.signal.is_closed() {
                        return RecvPoll::Closed;
                    } else {
                        return RecvPoll::Pending;
                    }
                }
                match self.signal.try_recv() {
                    QueuePoll::Received(_) => {
                        self.stopped = true;
                        RecvPoll::Closed
                    },
                    QueuePoll::Ended => RecvPoll::Closed,
                    QueuePoll::Empty => RecvPoll::Pending,
                }
            },
        }
    }

    /// Wait for the next input message or a control signal, whichever is
    /// ready first. A shutdown signal ends the receive stream; so does
    /// exhaustion of both channels. The precondition asks that some event is
    /// ready: an asynchronous caller suspends on `poll_recv` otherwise.
    pub fn recv(&mut self, signal_first: bool) -> (r: Option<I>)
        requires
            old(self)@.wf(),
            old(self)@.recv_ready(),
        ensures
            final(self)@.wf(),
            final(self)@ == old(self)@.poll_spec(signal_first).0,
            r matches Some(message) ==> old(self)@.poll_spec(signal_first).1
                == RecvPoll::Message(message),
            r is None ==> old(self)@.poll_spec(signal_first).1 == RecvPoll::<I>::Closed,
    {
        match self.poll_recv(signal_first) {
            RecvPoll::Message(message) => Some(message),
            RecvPoll::Closed => None,
            RecvPoll::Pending => {
                proof {
                    assert(false);
                }
                None
            },
        }
    }

    /// Log the message (ghost trace, when logging is on), then forward it to
    /// the output channel. Fails exactly when the downstream receiver is
    /// gone. A full open channel is excluded by precondition: there the
    /// sender suspends until a slot frees, which is backpressure, not an
    /// error.
    pub fn send(&mut self, message: O) -> (r: Result<(), ChannelError>)
        requires
            old(self)@.wf(),
            !old(self)@.output.closed ==> !old(self)@.output.is_full(),
        ensures
            final(self)@.wf(),
            (final(self)@, r) == old(self)@.send_spec(message),
    {
        let ghost new_log = if self.logging_is_on {
            self.output_log@.push(message)
        } else {
            self.output_log@
        };
        self.output_log = Ghost(new_log);
        match self.output.try_send(message) {
            SendPoll::Sent => Ok(()),
            SendPoll::Closed(_) => Err(ChannelError::SendError),
            SendPoll::Full(_) => {
                proof {
                    assert(false);
                }
                Err(ChannelError::SendError)
            },
        }
    }

    /// One send attempt that never suspends: a full open channel hands the
    /// message back as `Full`, the point where an asynchronous sender would
    /// block. The message is logged only once actually sent.
    pub fn try_send(&mut self, message: O) -> (r: SendPoll<O>)
        requires
            old(self)@.wf(),
        ensures
            final(self)@.wf(),
            old(self)@.output.closed ==> r == SendPoll::Closed(message) && final(self)@ == old(
                self,
            )@,
            !old(self)@.output.closed && old(self)@.output.is_full() ==> r == SendPoll::Full(
                message,
            ) && final(self)@ == old(self)@,
            !old(self)@.output.closed && !old(self)@.output.is_full() ==> r == SendPoll::<O>::Sent
                && final(self)@ == old(self)@.send_spec(message).0,
    {
        if self.output.is_closed() {
            return SendPoll::Closed(message);
        }
        if self.output.is_full() {
            return SendPoll::Full(message);
        }
        let ghost new_log = if self.logging_is_on {
            self.output_log@.push(message)
        } else {
            self.output_log@
        };
        self.output_log = Ghost(new_log);
        match self.output.try_send(message) {
            SendPoll::Sent => SendPoll::Sent,
            _ => {
                proof {
                    assert(false);
                }
                SendPoll::Sent
            },
        }
    }

    /// Close the sending side of this box: the downstream consumer learns
    /// that no further output will arrive. Idempotent.
    pub fn close_output(&mut self)
        ensures
            final(self)@ == (SimpleBoxView { output: old(self)@.output.with_closed(), ..old(self)@ }),
    {
        self.output.close();
    }

    /// Fabric side: place one message on this box's input channel, as the
    /// connected peer's sender would.
    pub fn deliver_input(&mut self, message: I) -> (r: SendPoll<I>)
        requires
            old(self)@.wf(),
        ensures
            final(self)@.wf(),
            old(self)@.input.closed ==> r == SendPoll::Closed(message) && final(self)@ == old(
                self,
            )@,
            !old(self)@.input.closed && old(self)@.input.is_full() ==> r == SendPoll::Full(message)
                && final(self)@ == old(self)@,
            !old(self)@.input.closed && !old(self)@.input.is_full() ==> r == SendPoll::<I>::Sent
                && final(self)@ == (SimpleBoxView {
                input: old(self)@.input.sent(message),
                ..old(self)@
            }),
    {
        self.input.try_send(message)
    }

    /// Fabric side: deliver a runtime control request on the out-of-band
    /// control channel.
    pub fn deliver_signal(&mut self, signal: RuntimeRequest) -> (r: SendPoll<RuntimeRequest>)
        requires
            old(self)@.wf(),
        ensures
            final(self)@.wf(),
            old(self)@.signal.closed ==> r == SendPoll::Closed(signal) && final(self)@ == old(
                self,
            )@,
            !old(self)@.signal.closed && old(self)@.signal.is_full() ==> r == SendPoll::Full(signal)
                && final(self)@ == old(self)@,
            !old(self)@.signal.closed && !old(self)@.signal.is_full() ==> r == SendPoll::<
                RuntimeRequest,
            >::Sent && final(self)@ == (SimpleBoxView {
                signal: old(self)@.signal.sent(signal),
                ..old(self)@
            }),
    {
        self.signal.try_send(signal)
    }

    /// Fabric side: close this box's input channel, so that once drained its
    /// receives report end-of-stream.
    pub fn close_input(&mut self)
        ensures
            final(self)@ == (SimpleBoxView { input: old(self)@.input.with_closed(), ..old(self)@ }),
    {
        self.input.close();
    }

    /// Fabric side: close this box's control channel.
    pub fn close_signal(&mut self)
        ensures
            final(self)@ == (SimpleBoxView {
                signal: old(self)@.signal.with_closed(),
                ..old(self)@
            }),
    {
        self.signal.close();
    }

    /// Fabric side: take the oldest message off this box's output channel,
    /// as the connected peer's receiver would.
    pub fn take_output(&mut self) -> (r: QueuePoll<O>)
        requires
            old(self)@.wf(),
        ensures
            final(self)@.wf(),
            old(self)@.output.contents.len() > 0 ==> r == QueuePoll::Received(
                old(self)@.output.contents[0],
            ) && final(self)@ == (SimpleBoxView {
                output: old(self)@.output.received(),
                ..old(self)@
            }),
            old(self)@.output.contents.len() == 0 ==> r != QueuePoll::Received(
                old(self)@.output.contents[0],
            ) && final(self)@ == old(self)@,
    {
        self.output.try_recv()
    }
}

impl<I, O> MessageBox for SimpleMessageBox<I, O> {
    open spec fn box_name(&self) -> Seq<char> {
        self@.name
    }

    open spec fn box_logging(&self) -> bool {
        self@.logging
    }

    fn turn_logging_on(&mut self, on: bool)
        ensures
            final(self)@ == (SimpleBoxView { logging: on, ..old(self)@ }),
    {
        self.logging_is_on = on;
    }

    fn name(&self) -> (r: &str) {
        self.name.as_str()
    }

    fn logging_is_on(&self) -> (r: bool) {
        self.logging_is_on
    }
}

/// Outcome of one fabric step moving a message between two connected boxes.
#[derive(Debug, PartialEq, Eq)]
pub enum ForwardPoll {
    /// The oldest output of the source box became the newest input of the
    /// destination box.
    Forwarded,
    /// The source box had no output queued.
    Idle,
    /// The destination input channel is full or closed; nothing was moved,
    /// so delivery order and content are preserved for a later attempt.
    Busy,
}

/// One fabric step between two connected boxes, as a state transition.
pub open spec fn forward_spec<A, B>(
    from: SimpleBoxView<A, B>,
    to: SimpleBoxView<B, A>,
) -> (SimpleBoxView<A, B>, SimpleBoxView<B, A>, ForwardPoll) {
    if to.input.closed || to.input.is_full() {
        (from, to, ForwardPoll::Busy)
    } else if from.output.contents.len() == 0 {
        (from, to, ForwardPoll::Idle)
    } else {
        (
            SimpleBoxView { output: from.output.received(), ..from },
            SimpleBoxView { input: to.input.sent(from.output.contents[0]), ..to },
            ForwardPoll::Forwarded,
        )
    }
}

/// The channel fabric: move the oldest message sent by `from` onto the input
/// channel of the connected box `to`. Nothing is moved unless the
/// destination has room, so no message is ever dropped or reordered.
pub fn forward_message<A, B>(
    from: &mut SimpleMessageBox<A, B>,
    to: &mut SimpleMessageBox<B, A>,
) -> (r: ForwardPoll)
    requires
        old(from)@.wf(),
        old(to)@.wf(),
    ensures
        final(from)@.wf(),
        final(to)@.wf(),
        (final(from)@, final(to)@, r) == forward_spec(old(from)@, old(to)@),
{
    if to.input.is_closed() || to.input.is_full() {
        return ForwardPoll::Busy;
    }
    match from.output.try_recv() {
        QueuePoll::Received(message) => {
            match to.input.try_send(message) {
                SendPoll::Sent => ForwardPoll::Forwarded,
                _ => {
                    proof {
                        assert(false);
                    }
                    ForwardPoll::Forwarded
                },
            }
        },
        _ => ForwardPoll::Idle,
    }
}

/// A message box for a request-response server: every input carries the
/// identifier of the client that issued the request, and every output
/// carries the identifier of the client the response is routed to.
pub type ServerMessageBox<Request, Response> = SimpleMessageBox<
    (ClientId, Request),
    (ClientId, Response),
>;

/// Outcome of one receive poll on a bounded-concurrency server box.
#[derive(Debug, PartialEq, Eq)]
pub enum ConcurrentPoll<T> {
    /// A new request was admitted: a concurrency slot is reserved for it.
    Admitted(T),
    /// The request stream is over and no pending task remains.
    Exhausted,
    /// Nothing can be admitted right now: the box is at its concurrency
    /// ceiling, or no request is ready. The caller waits for a task
    /// completion or channel event.
    Waiting,
}

/// Mathematical state of a bounded-concurrency server box: the underlying
/// correlated box, the admission ceiling, and how many units of work are
/// registered but not yet resolved.
pub struct ConcurrentBoxView<Request, Response> {
    pub clients: SimpleBoxView<(ClientId, Request), (ClientId, Response)>,
    pub max_concurrency: nat,
    pub pending: nat,
}

impl<Request, Response> ConcurrentBoxView<Request, Response> {
    /// The admission-control invariant: the number of registered-but-not-yet-
    /// resolved tasks never exceeds the ceiling.
    pub open spec fn wf(self) -> bool {
        self.clients.wf() && self.max_concurrency >= 1 && self.pending <= self.max_concurrency
    }

    /// One unit of pending work is registered.
    pub open spec fn registered(self) -> Self {
        ConcurrentBoxView { pending: self.pending + 1, ..self }
    }

    /// A pending task resolved with a response for `client`: the slot is
    /// freed and the response routed back, unless the client side is gone
    /// (then the send failure is ignored, as an out-of-band route).
    pub open spec fn task_done_spec(self, client: ClientId, response: Response) -> Self {
        ConcurrentBoxView {
            clients: self.clients.send_spec((client, response)).0,
            pending: (self.pending - 1) as nat,
            ..self
        }
    }

    /// A pending task was cancelled or faulted: the slot is freed and the
    /// result discarded. The awaiting client is not notified — a known gap
    /// of the protocol, kept visible here rather than papered over.
    pub open spec fn task_failed_spec(self) -> Self {
        ConcurrentBoxView { pending: (self.pending - 1) as nat, ..self }
    }

    /// One receive poll under admission control: at the ceiling nothing is
    /// read from the clients — the box first waits for a pending task to
    /// resolve. Below the ceiling, a ready request is admitted; end of the
    /// request stream yields `Exhausted` only once no pending task remains.
    pub open spec fn recv_spec(self, signal_first: bool) -> (
        Self,
        ConcurrentPoll<(ClientId, Request)>,
    ) {
        if self.pending >= self.max_concurrency {
            (self, ConcurrentPoll::Waiting)
        } else {
            let (clients1, poll) = self.clients.poll_spec(signal_first);
            let next = ConcurrentBoxView { clients: clients1, ..self };
            match poll {
                RecvPoll::Message(request) => (next, ConcurrentPoll::Admitted(request)),
                RecvPoll::Closed => if self.pending == 0 {
                    (next, ConcurrentPoll::Exhausted)
                } else {
                    (next, ConcurrentPoll::Waiting)
                },
                RecvPoll::Pending => (next, ConcurrentPoll::Waiting),
            }
        }
    }
}

/// A message box for services that handle requests concurrently, under a
/// single admission-control ceiling.
pub struct ConcurrentServerMessageBox<Request, Response> {
    max_concurrency: usize,
    clients: ServerMessageBox<Request, Response>,
    pending_count: usize,
}

impl<Request, Response> View for ConcurrentServerMessageBox<Request, Response> {
    type V = ConcurrentBoxView<Request, Response>;

    closed spec fn view(&self) -> ConcurrentBoxView<Request, Response> {
        ConcurrentBoxView {
            clients: self.clients@,
            max_concurrency: self.max_concurrency as nat,
            pending: self.pending_count as nat,
        }
    }
}

impl<Request, Response> ConcurrentServerMessageBox<Request, Response> {
    /// Wrap a correlated server box with an admission ceiling of
    /// `max_concurrency` in-flight requests.
    pub fn new(max_concurrency: usize, clients: ServerMessageBox<Request, Response>) -> (r: Self)
        requires
            max_concurrency >= 1,
            clients@.wf(),
        ensures
            r@ == (ConcurrentBoxView {
                clients: clients@,
                max_concurrency: max_concurrency as nat,
                pending: 0nat,
            }),
            r@.wf(),
    {
        ConcurrentServerMessageBox { max_concurrency, clients, pending_count: 0 }
    }

    /// Create a connected pair: a raw client-side box, and a
    /// bounded-concurrency service box wrapping the other end.
    pub fn channel(name: &str, capacity: usize, max_concurrency: usize) -> (pair: (
        SimpleMessageBox<(ClientId, Response), (ClientId, Request)>,
        Self,
    ))
        requires
            capacity >= 1,
            max_concurrency >= 1,
        ensures
            pair.0@ == SimpleBoxView::<(ClientId, Response), (ClientId, Request)>::fresh(
                name@,
                capacity as nat,
            ),
            pair.1@ == (ConcurrentBoxView {
                clients: SimpleBoxView::<(ClientId, Request), (ClientId, Response)>::fresh(
                    name@,
                    capacity as nat,
                ),
                max_concurrency: max_concurrency as nat,
                pending: 0nat,
            }),
            pair.1@.wf(),
    {
        let (client_box, service_box) = SimpleMessageBox::<
            (ClientId, Request),
            (ClientId, Response),
        >::channel(name, capacity);
        let concurrent_service_box = ConcurrentServerMessageBox::new(max_concurrency, service_box);
        (client_box, concurrent_service_box)
    }

    /// One receive poll under admission control. While the box is at its
    /// ceiling no new request is admitted, whatever is queued: the caller
    /// must resolve a pending task first. The call reports `Exhausted` only
    /// once the request stream has ended and no pending task remains.
    pub fn recv(&mut self, signal_first: bool) -> (r: ConcurrentPoll<(ClientId, Request)>)
        requires
            old(self)@.wf(),
        ensures
            final(self)@.wf(),
            (final(self)@, r) == old(self)@.recv_spec(signal_first),
            r matches ConcurrentPoll::Admitted(request) ==> old(self)@.pending < old(
                self,
            )@.max_concurrency,
    {
        if self.pending_count >= self.max_concurrency {
            return ConcurrentPoll::Waiting;
        }
        match self.clients.poll_recv(signal_first) {
            RecvPoll::Message(request) => ConcurrentPoll::Admitted(request),
            RecvPoll::Closed => if self.pending_count == 0 {
                ConcurrentPoll::Exhausted
            } else {
                ConcurrentPoll::Waiting
            },
            RecvPoll::Pending => ConcurrentPoll::Waiting,
        }
    }

    /// Send a response out of band, not generated via a tracked task.
    pub fn send(&mut self, message: (ClientId, Response)) -> (r: Result<(), ChannelError>)
        requires
            old(self)@.wf(),
            !old(self)@.clients.output.closed ==> !old(self)@.clients.output.is_full(),
        ensures
            final(self)@.wf(),
            final(self)@ == (ConcurrentBoxView {
                clients: old(self)@.clients.send_spec(message).0,
                ..old(self)@
            }),
            r == old(self)@.clients.send_spec(message).1,
    {
        self.clients.send(message)
    }

    /// Register one unit of pending work: the owning actor has started an
    /// asynchronous computation that will eventually yield a correlated
    /// response, and hands the box only the registration. Admission control
    /// has already reserved the slot, so the ceiling is never exceeded.
    pub fn send_response_once_done(&mut self)
        requires
            old(self)@.wf(),
            old(self)@.pending < old(self)@.max_concurrency,
        ensures
            final(self)@.wf(),
            final(self)@ == old(self)@.registered(),
    {
        self.pending_count = self.pending_count + 1;
    }

    /// A pending task resolved: free its slot and route the response to its
    /// originating client. A failure of that send (client side gone) is
    /// deliberately ignored, matching the out-of-band nature of the route.
    pub fn task_done(&mut self, client: ClientId, response: Response)
        requires
            old(self)@.wf(),
            old(self)@.pending > 0,
            !old(self)@.clients.output.closed ==> !old(self)@.clients.output.is_full(),
        ensures
            final(self)@.wf(),
            final(self)@ == old(self)@.task_done_spec(client, response),
    {
        let _ = self.clients.send((client, response));
        self.pending_count = self.pending_count - 1;
    }

    /// A pending task was cancelled or faulted: free its slot and discard
    /// the result. The awaiting client receives nothing — the documented
    /// gap of the protocol, preserved as-is rather than silently redesigned.
    pub fn task_failed(&mut self)
        requires
            old(self)@.wf(),
            old(self)@.pending > 0,
        ensures
            final(self)@.wf(),
            final(self)@ == old(self)@.task_failed_spec(),
    {
        self.pending_count = self.pending_count - 1;
    }

    /// Fabric side: place one client request on this box's input channel.
    pub fn deliver_request(&mut self, message: (ClientId, Request)) -> (r: SendPoll<
        (ClientId, Request),
    >)
        requires
            old(self)@.wf(),
        ensures
            final(self)@.wf(),
            final(self)@.max_concurrency == old(self)@.max_concurrency,
            final(self)@.pending == old(self)@.pending,
            old(self)@.clients.input.closed ==> r == SendPoll::Closed(message) && final(self)@
                == old(self)@,
            !old(self)@.clients.input.closed && old(self)@.clients.input.is_full() ==> r
                == SendPoll::Full(message) && final(self)@ == old(self)@,
            !old(self)@.clients.input.closed && !old(self)@.clients.input.is_full() ==> r
                == SendPoll::<(ClientId, Request)>::Sent && final(self)@.clients
                == (SimpleBoxView {
                input: old(self)@.clients.input.sent(message),
                ..old(self)@.clients
            }),
    {
        self.clients.deliver_input(message)
    }

    /// Fabric side: deliver a runtime control request to this box.
    pub fn deliver_signal(&mut self, signal: RuntimeRequest) -> (r: SendPoll<RuntimeRequest>)
        requires
            old(self)@.wf(),
        ensures
            final(self)@.wf(),
            final(self)@.max_concurrency == old(self)@.max_concurrency,
            final(self)@.pending == old(self)@.pending,
            !old(self)@.clients.signal.closed && !old(self)@.clients.signal.is_full() ==> r
                == SendPoll::<RuntimeRequest>::Sent && final(self)@.clients == (SimpleBoxView {
                signal: old(self)@.clients.signal.sent(signal),
                ..old(self)@.clients
            }),
            old(self)@.clients.signal.closed || old(self)@.clients.signal.is_full()
                ==> final(self)@ == old(self)@,
    {
        self.clients.deliver_signal(signal)
    }

    /// Fabric side: take the oldest response this box routed out.
    pub fn take_response(&mut self) -> (r: QueuePoll<(ClientId, Response)>)
        requires
            old(self)@.wf(),
        ensures
            final(self)@.wf(),
            final(self)@.max_concurrency == old(self)@.max_concurrency,
            final(self)@.pending == old(self)@.pending,
            old(self)@.clients.output.contents.len() > 0 ==> r == QueuePoll::Received(
                old(self)@.clients.output.contents[0],
            ) && final(self)@.clients == (SimpleBoxView {
                output: old(self)@.clients.output.received(),
                ..old(self)@.clients
            }),
            old(self)@.clients.output.contents.len() == 0 ==> final(self)@ == old(self)@ && r
                != QueuePoll::Received(old(self)@.clients.output.contents[0]),
    {
        self.clients.take_output()
    }

    /// Fabric side: close this box's request channel.
    pub fn close_requests(&mut self)
        ensures
            final(self)@ == (ConcurrentBoxView {
                clients: (SimpleBoxView {
                    input: old(self)@.clients.input.with_closed(),
                    ..old(self)@.clients
                }),
                ..old(self)@
            }),
    {
        self.clients.close_input();
    }

    /// Fabric side: close this box's control channel.
    pub fn close_signals(&mut self)
        ensures
            final(self)@ == (ConcurrentBoxView {
                clients: (SimpleBoxView {
                    signal: old(self)@.clients.signal.with_closed(),
                    ..old(self)@.clients
                }),
                ..old(self)@
            }),
    {
        self.clients.close_signal();
    }

    /// How many units of work are registered but not yet resolved.
    pub fn pending_tasks(&self) -> (n: usize)
        ensures
            n == self@.pending,
    {
        self.pending_count
    }

    /// The admission ceiling this box was created with.
    pub fn max_concurrency(&self) -> (n: usize)
        ensures
            n == self@.max_concurrency,
    {
        self.max_concurrency
    }
}

impl<Request, Response> MessageBox for ConcurrentServerMessageBox<Request, Response> {
    open spec fn box_name(&self) -> Seq<char> {
        self@.clients.name
    }

    open spec fn box_logging(&self) -> bool {
        self@.clients.logging
    }

    fn turn_logging_on(&mut self, on: bool)
        ensures
            final(self)@ == (ConcurrentBoxView {
                clients: (SimpleBoxView { logging: on, ..old(self)@.clients }),
                ..old(self)@
            }),
    {
        self.clients.turn_logging_on(on);
    }

    fn name(&self) -> (r: &str) {
        self.clients.name()
    }

    fn logging_is_on(&self) -> (r: bool) {
        self.clients.logging_is_on()
    }
}

/// Client-side handler of requests sent to a service: this box sends
/// requests and receives responses, with an output queue of capacity one,
/// under the assumption that the owning actor has at most one request
/// outstanding at a time.
pub struct ClientMessageBox<Request, Response> {
    messages: SimpleMessageBox<Response, Request>,
}

impl<Request, Response> View for ClientMessageBox<Request, Response> {
    type V = SimpleBoxView<Response, Request>;

    closed spec fn view(&self) -> SimpleBoxView<Response, Request> {
        self.messages@
    }
}

impl<Request, Response> ClientMessageBox<Request, Response> {
    /// Create a connected pair: the service-side box, and a client adapter
    /// on the other end. The channel capacity is one: at most one response
    /// is ever expected.
    pub fn new(client_name: &str) -> (pair: (SimpleMessageBox<Request, Response>, Self))
        ensures
            pair.0@ == SimpleBoxView::<Request, Response>::fresh(client_name@, 1nat),
            pair.1@ == SimpleBoxView::<Response, Request>::fresh(client_name@, 1nat),
    {
        let (client_side, service_side) = SimpleMessageBox::<Request, Response>::channel(
            client_name,
            1,
        );
        (service_side, ClientMessageBox { messages: client_side })
    }

    /// Send the request, then wait for exactly one response. Fails with a
    /// send error if the service side is gone, and with a receive error if
    /// the channel closes before a response arrives. Strict alternation is
    /// assumed: the previous exchange is complete, so the output queue has
    /// room and the next message received is the response to this request.
    pub fn await_response(&mut self, request: Request, signal_first: bool) -> (r: Result<
        Response,
        ChannelError,
    >)
        requires
            old(self)@.wf(),
            !old(self)@.output.closed ==> !old(self)@.output.is_full(),
            !old(self)@.output.closed ==> old(self)@.recv_ready(),
        ensures
            final(self)@.wf(),
            ({
                let (sent, send_result) = old(self)@.send_spec(request);
                if send_result is Err {
                    final(self)@ == sent && r == Err::<Response, ChannelError>(
                        ChannelError::SendError,
                    )
                } else {
                    let (received, poll) = sent.poll_spec(signal_first);
                    final(self)@ == received && (match poll {
                        RecvPoll::Message(response) => r == Ok::<Response, ChannelError>(response),
                        RecvPoll::Closed => r == Err::<Response, ChannelError>(
                            ChannelError::ReceiveError,
                        ),
                        RecvPoll::Pending => false,
                    })
                }
            }),
    {
        match self.messages.send(request) {
            Err(error) => Err(error),
            Ok(()) => {
                match self.messages.recv(signal_first) {
                    Some(response) => Ok(response),
                    None => Err(ChannelError::ReceiveError),
                }
            },
        }
    }
}

impl<Request, Response> ClientMessageBox<Request, Response> {
    /// Fabric side: place the service's response on this adapter's input
    /// channel.
    pub fn deliver_response(&mut self, response: Response) -> (r: SendPoll<Response>)
        requires
            old(self)@.wf(),
        ensures
            final(self)@.wf(),
            !old(self)@.input.closed && !old(self)@.input.is_full() ==> r
                == SendPoll::<Response>::Sent && final(self)@ == (SimpleBoxView {
                input: old(self)@.input.sent(response),
                ..old(self)@
            }),
            old(self)@.input.closed || old(self)@.input.is_full() ==> final(self)@ == old(self)@,
    {
        self.messages.deliver_input(response)
    }

    /// Fabric side: take the oldest request this adapter sent out.
    pub fn take_request(&mut self) -> (r: QueuePoll<Request>)
        requires
            old(self)@.wf(),
        ensures
            final(self)@.wf(),
            old(self)@.output.contents.len() > 0 ==> r == QueuePoll::Received(
                old(self)@.output.contents[0],
            ) && final(self)@ == (SimpleBoxView {
                output: old(self)@.output.received(),
                ..old(self)@
            }),
            old(self)@.output.contents.len() == 0 ==> final(self)@ == old(self)@ && r
                != QueuePoll::Received(old(self)@.output.contents[0]),
    {
        self.messages.take_output()
    }

    /// Fabric side: close this adapter's response channel, as a terminated
    /// peer would.
    pub fn close_responses(&mut self)
        ensures
            final(self)@ == (SimpleBoxView { input: old(self)@.input.with_closed(), ..old(self)@ }),
    {
        self.messages.close_input();
    }
}

impl<Request, Response> MessageBox for ClientMessageBox<Request, Response> {
    open spec fn box_name(&self) -> Seq<char> {
        self@.name
    }

    open spec fn box_logging(&self) -> bool {
        self@.logging
    }

    fn turn_logging_on(&mut self, on: bool)
        ensures
            final(self)@ == (SimpleBoxView { logging: on, ..old(self)@ }),
    {
        self.messages.turn_logging_on(on);
    }

    fn name(&self) -> (r: &str) {
        self.messages.name()
    }

    fn logging_is_on(&self) -> (r: bool) {
        self.messages.logging_is_on()
    }
}

/// The outcomes of a run of receive polls, one per coin: each coin says
/// which channel that poll observed first.
pub open spec fn poll_trace<I, O>(v: SimpleBoxView<I, O>, coins: Seq<bool>) -> Seq<RecvPoll<I>>
    decreases coins.len(),
{
    if coins.len() == 0 {
        Seq::empty()
    } else {
        seq![v.poll_spec(coins[0]).1] + poll_trace(v.poll_spec(coins[0]).0, coins.drop_first())
    }
}

proof fn lemma_poll_trace_len<I, O>(v: SimpleBoxView<I, O>, coins: Seq<bool>)
    ensures
        poll_trace(v, coins).len() == coins.len(),
    decreases coins.len(),
{
    if coins.len() > 0 {
        lemma_poll_trace_len(v.poll_spec(coins[0]).0, coins.drop_first());
    }
}

proof fn lemma_stopped_trace<I, O>(v: SimpleBoxView<I, O>, coins: Seq<bool>)
    requires
        v.stopped,
    ensures
        forall|j: int| 0 <= j < coins.len() ==> #[trigger] poll_trace(v, coins)[j]
            == RecvPoll::<I>::Closed,
    decreases coins.len(),
{
    if coins.len() > 0 {
        lemma_stopped_trace(v, coins.drop_first());
        lemma_poll_trace_len(v, coins.drop_first());
        assert forall|j: int| 0 <= j < coins.len() implies #[trigger] poll_trace(v, coins)[j]
            == RecvPoll::<I>::Closed by {
            if j > 0 {
                assert(poll_trace(v, coins)[j] == poll_trace(v, coins.drop_first())[j - 1]);
            }
        }
    }
}

/// From the `from`-th poll on, every poll of the run reports end-of-stream.
pub open spec fn closed_from<I, O>(v: SimpleBoxView<I, O>, coins: Seq<bool>, from: int) -> bool {
    forall|j: int|
        from <= j < coins.len() ==> #[trigger] poll_trace(v, coins)[j] == RecvPoll::<I>::Closed
}

/// Shutdown is honored promptly: once a shutdown signal is queued on the
/// control channel (or has already been observed), any run of receive polls
/// reaches end-of-stream after at most one poll per queued input message —
/// whichever channel each individual poll happens to observe first — and
/// from that point on every further poll keeps reporting end-of-stream: no
/// later message is delivered any more.
pub proof fn lemma_shutdown_reaches_end<I, O>(v: SimpleBoxView<I, O>, coins: Seq<bool>)
    requires
        v.wf(),
        v.stopped || v.signal.contents.len() > 0,
    ensures
        exists|i: int| 0 <= i <= v.input.contents.len() && #[trigger] closed_from(v, coins, i),
    decreases v.input.contents.len(),
{
    if v.stopped {
        lemma_stopped_trace(v, coins);
        assert(closed_from(v, coins, 0));
    } else if coins.len() == 0 {
        assert(closed_from(v, coins, 0));
    } else {
        let (v1, r) = v.poll_spec(coins[0]);
        lemma_poll_trace_len(v1, coins.drop_first());
        if coins[0] || v.input.contents.len() == 0 {
            // The poll observes the control channel: the signal ends the stream.
            lemma_stopped_trace(v1, coins.drop_first());
            assert forall|j: int| 0 <= j < coins.len() implies #[trigger] poll_trace(v, coins)[j]
                == RecvPoll::<I>::Closed by {
                if j > 0 {
                    assert(poll_trace(v, coins)[j] == poll_trace(v1, coins.drop_first())[j - 1]);
                }
            }
            assert(closed_from(v, coins, 0));
        } else {
            // The poll observes the input channel first: one message is
            // delivered, and the signal is still queued behind it.
            lemma_shutdown_reaches_end(v1, coins.drop_first());
            let i1 = choose|i1: int|
                0 <= i1 <= v1.input.contents.len() && #[trigger] closed_from(
                    v1,
                    coins.drop_first(),
                    i1,
                );
            assert forall|j: int| i1 + 1 <= j < coins.len() implies #[trigger] poll_trace(
                v,
                coins,
            )[j] == RecvPoll::<I>::Closed by {
                assert(poll_trace(v, coins)[j] == poll_trace(v1, coins.drop_first())[j - 1]);
            }
            assert(closed_from(v, coins, i1 + 1));
            assert(0 <= i1 + 1 <= v.input.contents.len());
        }
    }
}

/// Round-trip identity: on a freshly connected client/service pair, a
/// message the client sends is accepted, the fabric moves it, and it is
/// exactly the next message the service receives — whichever channel the
/// service's receive happens to observe first.
pub proof fn lemma_round_trip<I, O>(
    client: SimpleBoxView<O, I>,
    service: SimpleBoxView<I, O>,
    message: I,
    signal_first: bool,
)
    requires
        client.wf(),
        service.wf(),
        !client.output.closed,
        client.output.contents.len() == 0,
        !service.input.closed,
        service.input.contents.len() == 0,
        service.signal.contents.len() == 0,
        !service.stopped,
    ensures
        ({
            let (client_sent, send_result) = client.send_spec(message);
            let (client_after, service_after, moved) = forward_spec(client_sent, service);
            let (service_final, poll) = service_after.poll_spec(signal_first);
            send_result == Ok::<(), ChannelError>(()) && moved == ForwardPoll::Forwarded && poll
                == RecvPoll::Message(message)
        }),
{
}

/// Diagnostic-logging invariant: a message handed to `send` while logging
/// is on is recorded on the box's diagnostic trace before anything is
/// forwarded — the trace extends by exactly that message, whether or not
/// the send then fails downstream.
pub proof fn lemma_send_logs_first<I, O>(v: SimpleBoxView<I, O>, message: O)
    requires
        v.logging,
    ensures
        v.send_spec(message).0.output_log == v.output_log.push(message),
{
}

/// Admission control bounds in-flight work: from any state respecting the
/// ceiling, each step of the bounded-concurrency protocol — polling for a
/// request, registering a unit of work for an admitted request, resolving a
/// task, abandoning a failed task — again respects it, and a new request is
/// only ever admitted while the box is strictly below the ceiling. So at no
/// observable instant do the registered-but-unresolved tasks exceed the
/// ceiling.
pub proof fn lemma_admission_ceiling<Request, Response>(
    v: ConcurrentBoxView<Request, Response>,
    client: ClientId,
    response: Response,
    signal_first: bool,
)
    requires
        v.wf(),
        !v.clients.output.closed ==> !v.clients.output.is_full(),
    ensures
        v.pending < v.max_concurrency ==> v.registered().wf(),
        v.pending > 0 ==> v.task_done_spec(client, response).wf(),
        v.pending > 0 ==> v.task_failed_spec().wf(),
        v.recv_spec(signal_first).0.wf(),
        v.recv_spec(signal_first).1 matches ConcurrentPoll::Admitted(request) ==> v.pending
            < v.max_concurrency,
{
}

} // verus!
