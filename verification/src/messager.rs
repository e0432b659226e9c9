//! The messager of a connection: it forwards what the channel delivers to the
//! peer, as text frames.

use vstd::prelude::*;
use crate::frame::{Frame, FrameView};

verus! {

/// What happened to a messager since it last acted.
#[derive(Debug, Clone, PartialEq, Eq)]
pub enum Event {
    /// The subscription delivered a message.
    Delivered(String),
    /// The subscription fell behind: this many messages were lost to it. It
    /// goes on from the oldest message that the channel still holds.
    Lagged(u64),
    /// The channel is gone.
    Closed,
    /// The frame last handed out was sent to the peer.
    Sent,
    /// The frame last handed out could not be sent: the peer is gone.
    SendFailed,
}

/// Mathematical value of an [`Event`].
pub enum EventView {
    Delivered(Seq<char>),
    Lagged(u64),
    Closed,
    Sent,
    SendFailed,
}

impl View for Event {
    type V = EventView;

    open spec fn view(&self) -> EventView {
        match self {
            Event::Delivered(message) => EventView::Delivered(message@),
            Event::Lagged(missed) => EventView::Lagged(*missed),
            Event::Closed => EventView::Closed,
            Event::Sent => EventView::Sent,
            Event::SendFailed => EventView::SendFailed,
        }
    }
}

/// Why a messager stops.
#[derive(Debug, Clone, Copy, PartialEq, Eq, Structural)]
pub enum MessagerEnd {
    /// The channel is gone.
    ChannelClosed,
    /// The peer is gone.
    PeerGone,
}

/// What a messager does next.
#[derive(Debug, Clone, PartialEq, Eq)]
pub enum Action {
    /// Send this frame to the peer, and report how that went.
    Send(Frame),
    /// Wait for the next delivery.
    Receive,
    /// Stop forwarding.
    Stop(MessagerEnd),
}

/// Mathematical value of an [`Action`].
pub enum ActionView {
    Send(FrameView),
    Receive,
    Stop(MessagerEnd),
}

impl View for Action {
    type V = ActionView;

    open spec fn view(&self) -> ActionView {
        match self {
            Action::Send(frame) => ActionView::Send(frame@),
            Action::Receive => ActionView::Receive,
            Action::Stop(end) => ActionView::Stop(*end),
        }
    }
}

/// The rule of the messager. A lag costs the messages that were lost and
/// nothing more: the messager goes on.
pub open spec fn action(event: EventView) -> ActionView {
    match event {
        EventView::Delivered(message) => ActionView::Send(FrameView::Text(message)),
        EventView::Lagged(_) => ActionView::Receive,
        EventView::Closed => ActionView::Stop(MessagerEnd::ChannelClosed),
        EventView::Sent => ActionView::Receive,
        EventView::SendFailed => ActionView::Stop(MessagerEnd::PeerGone),
    }
}

/// One turn of a messager: decides what to do next.
pub fn messager(event: Event) -> (next: Action)
    ensures
        next@ == action(event@),
{
    match event {
        Event::Delivered(message) => Action::Send(Frame::Text(message)),
        Event::Lagged(_) => Action::Receive,
        Event::Closed => Action::Stop(MessagerEnd::ChannelClosed),
        Event::Sent => Action::Receive,
        Event::SendFailed => Action::Stop(MessagerEnd::PeerGone),
    }
}

/// A lag does not end a messager, however many messages were lost.
pub proof fn lemma_lag_is_survived(missed: u64)
    ensures
        action(EventView::Lagged(missed)) == ActionView::Receive,
{
}

/// A messager stops for two reasons only: the channel is gone, or the peer is.
pub proof fn lemma_stops_only_when_cut_off(event: EventView)
    ensures
        action(event) is Stop <==> event is Closed || event is SendFailed,
{
}

/// What a messager sends is what was delivered, unchanged, as a text frame.
pub proof fn lemma_forwards_unchanged(event: EventView)
    ensures
        action(event) is Send <==> event is Delivered,
        event matches EventView::Delivered(message) ==> action(event) == ActionView::Send(
            FrameView::Text(message),
        ),
{
}

} // verus!
