//! The listener of a connection: it reads what the peer sends and publishes
//! every text message, under the peer's name, to the channel.

use vstd::prelude::*;
use vstd::string::StringExecFns;
use tokio::sync::broadcast::Sender;
use crate::channel::{publish, Closed};
use crate::frame::{Frame, FrameView};

verus! {

/// What a read of the inbound half of a connection came to.
#[derive(Debug, Clone, PartialEq, Eq)]
pub enum Inbound {
    /// The stream has ended.
    Ended,
    /// The stream reported an error.
    Failed,
    /// A message arrived.
    Frame(Frame),
}

/// Mathematical value of an [`Inbound`].
pub enum InboundView {
    Ended,
    Failed,
    Frame(FrameView),
}

impl View for Inbound {
    type V = InboundView;

    open spec fn view(&self) -> InboundView {
        match self {
            Inbound::Ended => InboundView::Ended,
            Inbound::Failed => InboundView::Failed,
            Inbound::Frame(frame) => InboundView::Frame(frame@),
        }
    }
}

/// Why a listener stops.
#[derive(Debug, Clone, Copy, PartialEq, Eq, Structural)]
pub enum ListenerEnd {
    /// The peer's stream ended.
    StreamEnded,
    /// The peer's stream failed.
    StreamFailed,
    /// The channel took no message: it has no subscriber left.
    ChannelClosed,
}

/// What a listener does about a read.
#[derive(Debug, Clone, PartialEq, Eq)]
pub enum Verdict {
    /// Publish this message, then read on.
    Publish(String),
    /// Not a text message: pass over it and read on.
    Skip,
    /// Stop listening.
    Stop(ListenerEnd),
}

/// Mathematical value of a [`Verdict`].
pub enum VerdictView {
    Publish(Seq<char>),
    Skip,
    Stop(ListenerEnd),
}

impl View for Verdict {
    type V = VerdictView;

    open spec fn view(&self) -> VerdictView {
        match self {
            Verdict::Publish(message) => VerdictView::Publish(message@),
            Verdict::Skip => VerdictView::Skip,
            Verdict::Stop(end) => VerdictView::Stop(*end),
        }
    }
}

/// How a listener stands after a read has been dealt with.
#[derive(Debug, Clone, Copy, PartialEq, Eq, Structural)]
pub enum Heard {
    /// A message went out to the channel; the listener reads on.
    Published,
    /// The read was passed over; the listener reads on.
    Ignored,
    /// The listener is done.
    Stopped(ListenerEnd),
}

/// A message as every subscriber sees it: the sender's name, a colon and a
/// space, then the text as it was sent.
pub open spec fn labelled(user: Seq<char>, text: Seq<char>) -> Seq<char> {
    user + ": "@ + text
}

/// The rule of the listener.
pub open spec fn verdict(user: Seq<char>, inbound: InboundView) -> VerdictView {
    match inbound {
        InboundView::Ended => VerdictView::Stop(ListenerEnd::StreamEnded),
        InboundView::Failed => VerdictView::Stop(ListenerEnd::StreamFailed),
        InboundView::Frame(frame) => match frame.text() {
            Some(text) => VerdictView::Publish(labelled(user, text)),
            None => VerdictView::Skip,
        },
    }
}

/// Where the listener stands once the channel has answered a publish.
pub open spec fn published(answer: Result<usize, Closed>) -> Heard {
    match answer {
        Ok(_) => Heard::Published,
        Err(_) => Heard::Stopped(ListenerEnd::ChannelClosed),
    }
}

/// Writes `text` under the name of `user`.
pub fn label(user: &str, text: &str) -> (message: String)
    ensures
        message@ == labelled(user@, text@),
{
    let mut message = String::from_str(user);
    message.append(": ");
    message.append(text);
    message
}

/// Decides what to do about a read, for the connection of `user`.
pub fn weigh(user: &str, inbound: Inbound) -> (decision: Verdict)
    ensures
        decision@ == verdict(user@, inbound@),
{
    match inbound {
        Inbound::Ended => Verdict::Stop(ListenerEnd::StreamEnded),
        Inbound::Failed => Verdict::Stop(ListenerEnd::StreamFailed),
        Inbound::Frame(frame) => match frame.into_text() {
            Some(text) => Verdict::Publish(label(user, text.as_str())),
            None => Verdict::Skip,
        },
    }
}

/// Decides whether the listener goes on after a publish.
pub fn after_publish(answer: Result<usize, Closed>) -> (heard: Heard)
    ensures
        heard == published(answer),
{
    match answer {
        Ok(_) => Heard::Published,
        Err(_) => Heard::Stopped(ListenerEnd::ChannelClosed),
    }
}

/// One turn of the listener of `user`: deals with a read, publishing to
/// `channel` where the rule says so.
///
/// Whether a publish succeeds is for the channel to say, so for a text message
/// either outcome of it may come back; every other read has one outcome.
pub fn listener(channel: &Sender<String>, user: &str, inbound: Inbound) -> (heard: Heard)
    ensures
        match verdict(user@, inbound@) {
            VerdictView::Publish(_) => heard == Heard::Published
                || heard == Heard::Stopped(ListenerEnd::ChannelClosed),
            VerdictView::Skip => heard == Heard::Ignored,
            VerdictView::Stop(end) => heard == Heard::Stopped(end),
        },
{
    match weigh(user, inbound) {
        Verdict::Publish(message) => after_publish(publish(channel, message)),
        Verdict::Skip => Heard::Ignored,
        Verdict::Stop(end) => Heard::Stopped(end),
    }
}

/// A message that is not text is passed over: nothing is published for it,
/// and the listener reads on.
pub proof fn lemma_non_text_is_ignored(user: Seq<char>, frame: FrameView)
    requires
        !(frame is Text),
    ensures
        verdict(user, InboundView::Frame(frame)) == VerdictView::Skip,
{
}

/// Something is published for exactly the text frames, and it is the text
/// under the sender's name.
pub proof fn lemma_publishes_text_only(user: Seq<char>, inbound: InboundView)
    ensures
        verdict(user, inbound) is Publish <==> inbound matches InboundView::Frame(FrameView::Text(_)),
        inbound matches InboundView::Frame(FrameView::Text(text)) ==> verdict(user, inbound)
            == VerdictView::Publish(labelled(user, text)),
{
}

/// A published message keeps the sender's name and the text apart: the name
/// comes first, the text last, and two characters stand between them.
pub proof fn lemma_labelled_shape(user: Seq<char>, text: Seq<char>)
    ensures
        labelled(user, text).len() == user.len() + 2 + text.len(),
        labelled(user, text).subrange(0, user.len() as int) == user,
        labelled(user, text).subrange((user.len() + 2) as int, labelled(user, text).len() as int) == text,
        labelled(user, text)[user.len() as int] == ':',
        labelled(user, text)[(user.len() + 1) as int] == ' ',
{
    reveal_strlit(": ");
}

} // verus!
