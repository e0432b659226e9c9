//! The identity handshake: the first message of a connection names its user.

use vstd::prelude::*;
use tokio::sync::broadcast::{Receiver, Sender};
use crate::channel::{hangs_on, subscribe};
use crate::frame::{close_frame, CloseFrame, CloseFrameView, Frame, FrameView, TIMEOUT, UNSUPPORTED};

verus! {

/// Seconds a new connection is given to send its identity.
pub const DEADLINE_SECS: u64 = 2;

/// What waiting for the first message of a connection came to.
#[derive(Debug, Clone, PartialEq, Eq)]
pub enum Arrival {
    /// The deadline passed and nothing had arrived.
    Elapsed,
    /// The stream ended before any message.
    Ended,
    /// The stream reported an error before any message.
    Failed,
    /// A message arrived in time.
    Frame(Frame),
}

/// Mathematical value of an [`Arrival`].
pub enum ArrivalView {
    Elapsed,
    Ended,
    Failed,
    Frame(FrameView),
}

impl View for Arrival {
    type V = ArrivalView;

    open spec fn view(&self) -> ArrivalView {
        match self {
            Arrival::Elapsed => ArrivalView::Elapsed,
            Arrival::Ended => ArrivalView::Ended,
            Arrival::Failed => ArrivalView::Failed,
            Arrival::Frame(frame) => ArrivalView::Frame(frame@),
        }
    }
}

/// How a handshake ends.
#[derive(Debug, Clone, PartialEq, Eq)]
pub enum Handshake {
    /// The peer is known by this name from now on.
    Accepted(String),
    /// The peer is sent this close frame and the connection is dropped.
    Rejected(CloseFrame),
    /// The stream is already gone: the connection is dropped without a word.
    Abandoned,
}

/// Mathematical value of a [`Handshake`].
pub enum HandshakeView {
    Accepted(Seq<char>),
    Rejected(CloseFrameView),
    Abandoned,
}

impl View for Handshake {
    type V = HandshakeView;

    open spec fn view(&self) -> HandshakeView {
        match self {
            Handshake::Accepted(user) => HandshakeView::Accepted(user@),
            Handshake::Rejected(close) => HandshakeView::Rejected(close@),
            Handshake::Abandoned => HandshakeView::Abandoned,
        }
    }
}

/// The close frame for a peer that stayed silent until the deadline.
pub open spec fn timeout_close() -> CloseFrameView {
    CloseFrameView { code: TIMEOUT, reason: "no user in 2 secs"@ }
}

/// The close frame for a peer whose first message was not text.
pub open spec fn unsupported_close() -> CloseFrameView {
    CloseFrameView { code: UNSUPPORTED, reason: "expected a `text` message"@ }
}

/// The rule of the handshake. A text frame is taken as the identity as it
/// stands: an empty name and a name already in use are both accepted.
pub open spec fn handshake(arrival: ArrivalView) -> HandshakeView {
    match arrival {
        ArrivalView::Elapsed => HandshakeView::Rejected(timeout_close()),
        ArrivalView::Ended => HandshakeView::Abandoned,
        ArrivalView::Failed => HandshakeView::Abandoned,
        ArrivalView::Frame(frame) => match frame.text() {
            Some(user) => HandshakeView::Accepted(user),
            None => HandshakeView::Rejected(unsupported_close()),
        },
    }
}

/// Decides the handshake from what the first read came to.
pub fn await_identity(arrival: Arrival) -> (outcome: Handshake)
    ensures
        outcome@ == handshake(arrival@),
{
    match arrival {
        Arrival::Elapsed => Handshake::Rejected(close_frame(TIMEOUT, "no user in 2 secs")),
        Arrival::Ended => Handshake::Abandoned,
        Arrival::Failed => Handshake::Abandoned,
        Arrival::Frame(frame) => match frame.into_text() {
            Some(user) => Handshake::Accepted(user),
            None => Handshake::Rejected(close_frame(UNSUPPORTED, "expected a `text` message")),
        },
    }
}

/// What becomes of a new connection.
#[derive(Debug)]
pub enum Session {
    /// The handshake succeeded: a listener and a messager are to be started
    /// for `user`, the messager on `feed`.
    Started { user: String, feed: Receiver<String> },
    /// The handshake failed: the peer is sent the close frame, and no task is
    /// started.
    Closed(CloseFrame),
    /// The stream is gone: nothing is sent, and no task is started.
    Abandoned,
}

impl Session {
    /// The handshake that a session came from.
    pub open spec fn handshake(self) -> HandshakeView {
        match self {
            Session::Started { user, feed } => HandshakeView::Accepted(user@),
            Session::Closed(close) => HandshakeView::Rejected(close@),
            Session::Abandoned => HandshakeView::Abandoned,
        }
    }
}

/// Receives a new connection: decides its handshake and, only if the peer is
/// accepted, subscribes it to `channel`. The subscription is taken here, before
/// any task of the connection runs, so what is published on `channel` after
/// this call is offered to the peer.
pub fn handle_socket(channel: &Sender<String>, arrival: Arrival) -> (session: Session)
    ensures
        session.handshake() == handshake(arrival@),
        session matches Session::Started { feed, .. } ==> hangs_on(feed, *channel),
{
    match await_identity(arrival) {
        Handshake::Accepted(user) => Session::Started { user, feed: subscribe(channel) },
        Handshake::Rejected(close) => Session::Closed(close),
        Handshake::Abandoned => Session::Abandoned,
    }
}

/// A peer that sends nothing before the deadline is sent a close frame with
/// the timeout code, and neither a listener nor a messager is started for it.
pub proof fn lemma_silence_is_timed_out(session: Session)
    requires
        session.handshake() == handshake(ArrivalView::Elapsed),
    ensures
        session matches Session::Closed(close) && close@ == timeout_close(),
        timeout_close().code == TIMEOUT,
{
}

/// A peer whose first message is not a text frame, a binary frame above all,
/// is sent a close frame with the code for unsupported data, and neither a
/// listener nor a messager is started for it.
pub proof fn lemma_first_frame_must_be_text(session: Session, frame: FrameView)
    requires
        !(frame is Text),
        session.handshake() == handshake(ArrivalView::Frame(frame)),
    ensures
        session matches Session::Closed(close) && close@ == unsupported_close(),
        unsupported_close().code == UNSUPPORTED,
{
}

/// A stream that ends or fails before its first message is abandoned: no
/// close frame is sent, and neither a listener nor a messager is started.
pub proof fn lemma_lost_stream_is_abandoned(session: Session, arrival: ArrivalView)
    requires
        arrival is Ended || arrival is Failed,
        session.handshake() == handshake(arrival),
    ensures
        session is Abandoned,
{
}

/// Tasks are started for exactly the peers whose first message is a text
/// frame, under the text of that frame, whatever it holds.
pub proof fn lemma_started_iff_named(session: Session, arrival: ArrivalView)
    requires
        session.handshake() == handshake(arrival),
    ensures
        session is Started <==> arrival matches ArrivalView::Frame(FrameView::Text(_)),
        arrival matches ArrivalView::Frame(FrameView::Text(name)) ==> session matches Session::Started {
            user,
            ..
        } && user@ == name,
{
}

} // verus!
