//! Frames of the bidirectional stream, as plain values.

use vstd::prelude::*;

verus! {

/// Close code sent to a peer that did not identify itself in time.
pub const TIMEOUT: u16 = 3008;

/// Close code of the stream protocol for data of a kind the endpoint does not take.
pub const UNSUPPORTED: u16 = 1003;

/// Why a stream is being closed: a code and a human-readable reason.
#[derive(Debug, Clone, PartialEq, Eq)]
pub struct CloseFrame {
    pub code: u16,
    pub reason: String,
}

/// Mathematical value of a [`CloseFrame`].
pub struct CloseFrameView {
    pub code: u16,
    pub reason: Seq<char>,
}

impl View for CloseFrame {
    type V = CloseFrameView;

    open spec fn view(&self) -> CloseFrameView {
        CloseFrameView { code: self.code, reason: self.reason@ }
    }
}

/// One message of the stream.
#[derive(Debug, Clone, PartialEq, Eq)]
pub enum Frame {
    Text(String),
    Binary(Vec<u8>),
    Ping(Vec<u8>),
    Pong(Vec<u8>),
    Close(Option<CloseFrame>),
}

/// Mathematical value of a [`Frame`].
pub enum FrameView {
    Text(Seq<char>),
    Binary(Seq<u8>),
    Ping(Seq<u8>),
    Pong(Seq<u8>),
    Close(Option<CloseFrameView>),
}

impl View for Frame {
    type V = FrameView;

    open spec fn view(&self) -> FrameView {
        match self {
            Frame::Text(text) => FrameView::Text(text@),
            Frame::Binary(data) => FrameView::Binary(data@),
            Frame::Ping(data) => FrameView::Ping(data@),
            Frame::Pong(data) => FrameView::Pong(data@),
            Frame::Close(None) => FrameView::Close(None),
            Frame::Close(Some(close)) => FrameView::Close(Some(close@)),
        }
    }
}

impl FrameView {
    /// The payload of a text frame; no other kind of frame has one.
    pub open spec fn text(self) -> Option<Seq<char>> {
        match self {
            FrameView::Text(text) => Some(text),
            _ => None,
        }
    }
}

impl Frame {
    /// Takes the payload out of a text frame. Every other kind of frame,
    /// whatever bytes it carries, gives `None`.
    pub fn into_text(self) -> (text: Option<String>)
        ensures
            match text {
                Some(payload) => self@.text() == Some(payload@),
                None => self@.text().is_none(),
            },
    {
        match self {
            Frame::Text(text) => Some(text),
            _ => None,
        }
    }
}

/// Builds the close frame that carries `code` and `reason`.
pub fn close_frame(code: u16, reason: &str) -> (frame: CloseFrame)
    ensures
        frame@ == (CloseFrameView { code, reason: reason@ }),
{
    CloseFrame { code, reason: reason.to_owned() }
}

} // verus!
