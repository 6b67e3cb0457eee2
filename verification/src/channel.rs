//! The message protocol between a host and one worker.
//!
//! `WorkerChannels` is what a worker's handle guards: the queue of messages
//! from the host to the worker, the queue of events from the worker to the
//! host, and the signals that end the exchange. Both queues are first in,
//! first out. Sharing the value between the two threads, and suspending a
//! poll until an event is there, is left to the handle built around it.

use std::collections::VecDeque;
use vstd::prelude::*;
use crate::event::{WorkerErrorView, WorkerEvent, WorkerEventView};

verus! {

/// A message or an event could not be queued: the other side is gone.
#[derive(Clone, Copy, Debug, PartialEq, Eq, Structural)]
pub enum SendError {
    ChannelClosed,
}

/// What the host finds when it polls for an event.
#[derive(Clone, Debug, PartialEq, Eq)]
pub enum Polled {
    /// The oldest queued event.
    Event(WorkerEvent),
    /// The worker is gone and nothing is queued: the worker has completed.
    Closed,
    /// Nothing is queued yet; the worker may still report.
    Pending,
}

pub enum PolledView {
    Event(WorkerEventView),
    Closed,
    Pending,
}

impl View for Polled {
    type V = PolledView;

    open spec fn view(&self) -> PolledView {
        match self {
            Polled::Event(event) => PolledView::Event(event@),
            Polled::Closed => PolledView::Closed,
            Polled::Pending => PolledView::Pending,
        }
    }
}

/// What the worker finds when it looks for a message.
#[derive(Clone, Debug, PartialEq, Eq)]
pub enum Inbound {
    /// The oldest queued message.
    Message(Vec<u8>),
    /// Nothing is queued yet; the host may still post.
    Empty,
    /// No message will be delivered any more: the worker was told to
    /// terminate, or the host closed its side and nothing is queued.
    Closed,
}

pub enum InboundView {
    Message(Seq<u8>),
    Empty,
    Closed,
}

impl View for Inbound {
    type V = InboundView;

    open spec fn view(&self) -> InboundView {
        match self {
            Inbound::Message(data) => InboundView::Message(data@),
            Inbound::Empty => InboundView::Empty,
            Inbound::Closed => InboundView::Closed,
        }
    }
}

/// The channels as a mathematical value.
pub struct ChannelsView {
    /// Messages posted by the host and not yet taken by the worker.
    pub messages: Seq<Seq<u8>>,
    /// Events posted by the worker and not yet polled by the host.
    pub events: Seq<WorkerEventView>,
    /// The host closed its sending side.
    pub sender_closed: bool,
    /// The host told the worker to terminate.
    pub terminated: bool,
    /// The worker dropped its ends: its thread is about to return.
    pub worker_gone: bool,
}

impl ChannelsView {
    /// Fresh channels: nothing queued, nothing signaled.
    pub open spec fn fresh() -> ChannelsView {
        ChannelsView {
            messages: Seq::empty(),
            events: Seq::empty(),
            sender_closed: false,
            terminated: false,
            worker_gone: false,
        }
    }

    /// Whether a message from the host can still reach the worker.
    pub open spec fn accepts_messages(self) -> bool {
        !self.sender_closed && !self.terminated && !self.worker_gone
    }

    /// The channels after the host posted `data`.
    pub open spec fn post_message(self, data: Seq<u8>) -> ChannelsView {
        if self.accepts_messages() {
            ChannelsView { messages: self.messages.push(data), ..self }
        } else {
            self
        }
    }

    /// What a poll by the host finds.
    pub open spec fn polled(self) -> PolledView {
        if self.events.len() > 0 {
            PolledView::Event(self.events[0])
        } else if self.worker_gone {
            PolledView::Closed
        } else {
            PolledView::Pending
        }
    }

    /// The channels after a poll by the host.
    pub open spec fn poll_event(self) -> ChannelsView {
        if self.events.len() > 0 {
            ChannelsView { events: self.events.drop_first(), ..self }
        } else {
            self
        }
    }

    /// The channels after the host signaled termination.
    pub open spec fn terminate(self) -> ChannelsView {
        ChannelsView { terminated: true, ..self }
    }

    /// The channels after the host closed its sending side.
    pub open spec fn close_sender(self) -> ChannelsView {
        ChannelsView { sender_closed: true, ..self }
    }

    /// What the worker finds when it looks for a message.
    pub open spec fn inbound(self) -> InboundView {
        if self.terminated {
            InboundView::Closed
        } else if self.messages.len() > 0 {
            InboundView::Message(self.messages[0])
        } else if self.sender_closed {
            InboundView::Closed
        } else {
            InboundView::Empty
        }
    }

    /// The channels after the worker looked for a message.
    pub open spec fn next_message(self) -> ChannelsView {
        if !self.terminated && self.messages.len() > 0 {
            ChannelsView { messages: self.messages.drop_first(), ..self }
        } else {
            self
        }
    }

    /// The channels after the worker posted `event`.
    pub open spec fn post_event(self, event: WorkerEventView) -> ChannelsView {
        if self.worker_gone {
            self
        } else {
            ChannelsView { events: self.events.push(event), ..self }
        }
    }

    /// The channels after the worker dropped its ends.
    pub open spec fn worker_exit(self) -> ChannelsView {
        ChannelsView { worker_gone: true, ..self }
    }

    /// The channels after the host posted each of `posts`, in their order.
    pub open spec fn post_all(self, posts: Seq<Seq<u8>>) -> ChannelsView
        decreases posts.len(),
    {
        if posts.len() == 0 {
            self
        } else {
            self.post_message(posts[0]).post_all(posts.drop_first())
        }
    }

    /// One turn of a worker that echoes: it takes the oldest message and
    /// posts the same bytes back as a message event.
    pub open spec fn echo_one(self) -> ChannelsView {
        match self.inbound() {
            InboundView::Message(data) => self.next_message().post_event(
                WorkerEventView::Message(data),
            ),
            _ => self,
        }
    }

    /// The channels after an echoing worker has answered all it can take.
    pub open spec fn echo_all(self) -> ChannelsView
        decreases self.messages.len(),
    {
        if self.inbound() is Message {
            self.echo_one().echo_all()
        } else {
            self
        }
    }

    /// What `n` polls by the host find, one after the other.
    pub open spec fn drain(self, n: nat) -> Seq<PolledView>
        decreases n,
    {
        if n == 0 {
            Seq::empty()
        } else {
            seq![self.polled()] + self.poll_event().drain((n - 1) as nat)
        }
    }

    /// What the host has yet to find if the worker echoes: the queued
    /// events, then one message event for each queued message.
    pub open spec fn in_flight(self) -> Seq<WorkerEventView> {
        self.events + spec_echoes(self.messages)
    }
}

/// The events with which an echoing worker answers `posts`.
pub open spec fn spec_echoes(posts: Seq<Seq<u8>>) -> Seq<WorkerEventView> {
    posts.map_values(|data: Seq<u8>| WorkerEventView::Message(data))
}

/// Posting puts a message last in flight; the echo of the oldest message
/// changes nothing in flight; a poll finds what is first in flight once the
/// worker has echoed it. So, however posts, echoes and polls interleave, the
/// host finds the echoes in the order of its posts.
pub proof fn law_echo_keeps_order(channels: ChannelsView, data: Seq<u8>)
    requires
        channels.accepts_messages(),
    ensures
        channels.post_message(data).in_flight() == channels.in_flight().push(
            WorkerEventView::Message(data),
        ),
        channels.echo_one().in_flight() == channels.in_flight(),
        channels.events.len() > 0 ==> channels.polled() == PolledView::Event(
            channels.in_flight()[0],
        ) && channels.poll_event().in_flight() == channels.in_flight().drop_first(),
        channels.post_message(data).accepts_messages(),
        channels.echo_one().accepts_messages(),
        channels.poll_event().accepts_messages(),
{
}

proof fn lemma_post_all(channels: ChannelsView, posts: Seq<Seq<u8>>)
    requires
        channels.accepts_messages(),
    ensures
        channels.post_all(posts) == (ChannelsView {
            messages: channels.messages + posts,
            ..channels
        }),
    decreases posts.len(),
{
    if posts.len() > 0 {
        let next = channels.post_message(posts[0]);
        lemma_post_all(next, posts.drop_first());
        assert(next.messages + posts.drop_first() =~= channels.messages + posts);
    }
}

proof fn lemma_echo_all(channels: ChannelsView)
    requires
        channels.accepts_messages(),
    ensures
        channels.echo_all() == (ChannelsView {
            messages: Seq::empty(),
            events: channels.in_flight(),
            ..channels
        }),
    decreases channels.messages.len(),
{
    if channels.messages.len() == 0 {
        assert(channels.messages =~= Seq::empty());
    } else {
        let next = channels.echo_one();
        lemma_echo_all(next);
        assert(next.in_flight() =~= channels.in_flight());
    }
}

proof fn lemma_drain(channels: ChannelsView, n: nat)
    requires
        n <= channels.events.len(),
    ensures
        channels.drain(n) == Seq::new(n, |i: int| PolledView::Event(channels.events[i])),
    decreases n,
{
    if n > 0 {
        let next = channels.poll_event();
        lemma_drain(next, (n - 1) as nat);
    }
}

/// A worker that echoes its input hands every message back unchanged and in
/// the order sent: after any sequence of posts to fresh channels, the host
/// polls one message event for each post, with the bytes of that post, in
/// the order of the posts, and no message is left behind.
pub proof fn law_echo_returns_posts_in_order(posts: Seq<Seq<u8>>)
    ensures
        ({
            let echoed = ChannelsView::fresh().post_all(posts).echo_all();
            &&& echoed.messages.len() == 0
            &&& echoed.events == spec_echoes(posts)
            &&& echoed.drain(posts.len()) == Seq::new(
                posts.len(),
                |i: int| PolledView::Event(WorkerEventView::Message(posts[i])),
            )
        }),
{
    let fresh = ChannelsView::fresh();
    let posted = fresh.post_all(posts);
    let echoed = posted.echo_all();
    lemma_post_all(fresh, posts);
    lemma_echo_all(posted);
    lemma_drain(echoed, posts.len());
}

/// After the signal to terminate no further message is delivered and none is
/// accepted, whatever was queued; and signaling again changes nothing.
pub proof fn law_terminate_stops_delivery(channels: ChannelsView, data: Seq<u8>)
    ensures
        channels.terminate().inbound() == InboundView::Closed,
        channels.terminate().next_message() == channels.terminate(),
        !channels.terminate().accepts_messages(),
        channels.terminate().post_message(data) == channels.terminate(),
        channels.terminate().terminate() == channels.terminate(),
{
}

/// A worker that posted a terminal error and returned is closed to its host:
/// nothing more is accepted for it or from it, the error is the last event
/// the host finds, and every poll after that finds the channel closed.
pub proof fn law_dead_worker_is_closed(
    channels: ChannelsView,
    error: WorkerErrorView,
    data: Seq<u8>,
)
    requires
        !channels.worker_gone,
    ensures
        ({
            let dead = channels.post_event(WorkerEventView::TerminalError(error)).worker_exit();
            &&& dead.events == channels.events.push(WorkerEventView::TerminalError(error))
            &&& dead.post_message(data) == dead
            &&& dead.post_event(WorkerEventView::Message(data)) == dead
            &&& forall|n: nat|
                n > dead.events.len() ==> (#[trigger] dead.drain(n)).last() == PolledView::Closed
        }),
{
    let dead = channels.post_event(WorkerEventView::TerminalError(error)).worker_exit();
    assert forall|n: nat| n > dead.events.len() implies (#[trigger] dead.drain(n)).last()
        == PolledView::Closed by {
        lemma_drained(dead, (n - dead.events.len() - 1) as nat);
    }
}

/// A worker that fails before it ever ran reports exactly its failure: on
/// fresh channels, a terminal error followed by the worker's exit lets the
/// host find that one event, no message, and then the closed channel.
pub proof fn law_failed_worker_reports_one_terminal_error(error: WorkerErrorView)
    ensures
        ({
            let dead = ChannelsView::fresh().post_event(
                WorkerEventView::TerminalError(error),
            ).worker_exit();
            &&& dead.events == seq![WorkerEventView::TerminalError(error)]
            &&& dead.drain(2) == seq![
                PolledView::Event(WorkerEventView::TerminalError(error)),
                PolledView::Closed,
            ]
        }),
{
    reveal_with_fuel(ChannelsView::drain, 3);
}

/// Once the worker is gone, a poll after the last queued event finds the
/// channel closed.
proof fn lemma_drained(channels: ChannelsView, extra: nat)
    requires
        channels.worker_gone,
    ensures
        channels.drain(channels.events.len() + 1 + extra).last() == PolledView::Closed,
    decreases channels.events.len() + extra,
{
    let n = channels.events.len() + 1 + extra;
    let next = channels.poll_event();
    if channels.events.len() > 0 {
        lemma_drained(next, extra);
        lemma_drain_len(next, (n - 1) as nat);
    } else if extra > 0 {
        lemma_drained(next, (extra - 1) as nat);
        lemma_drain_len(next, (n - 1) as nat);
    }
}

proof fn lemma_drain_len(channels: ChannelsView, n: nat)
    ensures
        channels.drain(n).len() == n,
    decreases n,
{
    if n > 0 {
        lemma_drain_len(channels.poll_event(), (n - 1) as nat);
    }
}

/// The two queues between a host and one worker, with their signals.
pub struct WorkerChannels {
    messages: VecDeque<Vec<u8>>,
    events: VecDeque<WorkerEvent>,
    sender_closed: bool,
    terminated: bool,
    worker_gone: bool,
}

impl View for WorkerChannels {
    type V = ChannelsView;

    closed spec fn view(&self) -> ChannelsView {
        ChannelsView {
            messages: self.messages@.map_values(|data: Vec<u8>| data@),
            events: self.events@.map_values(|event: WorkerEvent| event@),
            sender_closed: self.sender_closed,
            terminated: self.terminated,
            worker_gone: self.worker_gone,
        }
    }
}

impl WorkerChannels {
    /// Fresh channels for a new worker.
    pub fn new() -> (channels: Self)
        ensures
            channels@ == ChannelsView::fresh(),
    {
        let channels = WorkerChannels {
            messages: VecDeque::new(),
            events: VecDeque::new(),
            sender_closed: false,
            terminated: false,
            worker_gone: false,
        };
        assert(channels@.messages =~= Seq::empty());
        assert(channels@.events =~= Seq::empty());
        channels
    }

    /// Host side: queues `data` for the worker, behind what is queued. Fails,
    /// and queues nothing, if the worker can no longer be reached: it was
    /// told to terminate, the sending side was closed, or it is gone.
    pub fn post_message(&mut self, data: Vec<u8>) -> (sent: Result<(), SendError>)
        ensures
            final(self)@ == old(self)@.post_message(data@),
            sent is Ok <==> old(self)@.accepts_messages(),
    {
        if self.sender_closed || self.terminated || self.worker_gone {
            Err(SendError::ChannelClosed)
        } else {
            self.messages.push_back(data);
            assert(self@.messages =~= old(self)@.messages.push(data@));
            Ok(())
        }
    }

    /// Host side: takes the oldest queued event. With nothing queued, says
    /// whether the worker is gone (`Closed`) or may still report (`Pending`).
    pub fn poll_event(&mut self) -> (found: Polled)
        ensures
            final(self)@ == old(self)@.poll_event(),
            found@ == old(self)@.polled(),
    {
        match self.events.pop_front() {
            Some(event) => {
                assert(self@.events =~= old(self)@.events.drop_first());
                Polled::Event(event)
            },
            None => {
                if self.worker_gone {
                    Polled::Closed
                } else {
                    Polled::Pending
                }
            },
        }
    }

    /// Host side: tells the worker to stop. The worker sees the signal when
    /// it next looks for a message; what it is doing is not interrupted.
    /// Signaling twice is signaling once.
    pub fn terminate(&mut self)
        ensures
            final(self)@ == old(self)@.terminate(),
    {
        self.terminated = true;
    }

    /// Host side: closes the sending side. What is queued stays.
    pub fn close_sender(&mut self)
        ensures
            final(self)@ == old(self)@.close_sender(),
    {
        self.sender_closed = true;
    }

    /// Whether the worker was told to stop.
    pub fn is_terminated(&self) -> (yes: bool)
        ensures
            yes == self@.terminated,
    {
        self.terminated
    }

    /// Worker side: takes the oldest queued message. After a termination
    /// signal nothing is delivered, whatever is queued.
    pub fn next_message(&mut self) -> (found: Inbound)
        ensures
            final(self)@ == old(self)@.next_message(),
            found@ == old(self)@.inbound(),
    {
        if self.terminated {
            return Inbound::Closed;
        }
        match self.messages.pop_front() {
            Some(data) => {
                assert(self@.messages =~= old(self)@.messages.drop_first());
                Inbound::Message(data)
            },
            None => {
                if self.sender_closed {
                    Inbound::Closed
                } else {
                    Inbound::Empty
                }
            },
        }
    }

    /// Worker side: queues `event` for the host, behind what is queued. Fails,
    /// and queues nothing, only after the worker dropped its ends.
    pub fn post_event(&mut self, event: WorkerEvent) -> (sent: Result<(), SendError>)
        ensures
            final(self)@ == old(self)@.post_event(event@),
            sent is Ok <==> !old(self)@.worker_gone,
    {
        if self.worker_gone {
            Err(SendError::ChannelClosed)
        } else {
            self.events.push_back(event);
            assert(self@.events =~= old(self)@.events.push(event@));
            Ok(())
        }
    }

    /// Worker side: drops the worker's ends. Events already queued can still
    /// be polled; after them the host finds the channel closed.
    pub fn worker_exit(&mut self)
        ensures
            final(self)@ == old(self)@.worker_exit(),
    {
        self.worker_gone = true;
    }
}

} // verus!
