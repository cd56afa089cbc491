//! The HTTP replies that the front-end gives.

use vstd::prelude::*;
use crate::current::{CurrentlyPlaying, CurrentlyPlayingView};

verus! {

/// What a reply carries.
#[derive(Clone, Debug, PartialEq, Eq)]
pub enum ReplyBody {
    /// Nothing.
    Empty,
    /// A text, sent as it is.
    Text(String),
    /// Raw bytes, sent as they are.
    Bytes(Vec<u8>),
    /// What is being played, to be sent as a JSON object.
    Playing(CurrentlyPlaying),
}

/// The mathematical content of a [`ReplyBody`].
pub enum ReplyBodyView {
    Empty,
    Text(Seq<char>),
    Bytes(Seq<u8>),
    Playing(CurrentlyPlayingView),
}

impl View for ReplyBody {
    type V = ReplyBodyView;

    open spec fn view(&self) -> ReplyBodyView {
        match self {
            ReplyBody::Empty => ReplyBodyView::Empty,
            ReplyBody::Text(text) => ReplyBodyView::Text(text@),
            ReplyBody::Bytes(bytes) => ReplyBodyView::Bytes(bytes@),
            ReplyBody::Playing(playing) => ReplyBodyView::Playing(playing@),
        }
    }
}

/// An HTTP reply: the status code, whether the content is declared as
/// `application/json`, and the body.
#[derive(Clone, Debug, PartialEq, Eq)]
pub struct HttpReply {
    pub status: u16,
    pub json: bool,
    pub body: ReplyBody,
}

/// The mathematical content of an [`HttpReply`].
pub struct HttpReplyView {
    pub status: u16,
    pub json: bool,
    pub body: ReplyBodyView,
}

impl View for HttpReply {
    type V = HttpReplyView;

    open spec fn view(&self) -> HttpReplyView {
        HttpReplyView { status: self.status, json: self.json, body: self.body@ }
    }
}

impl HttpReplyView {
    /// A reply declared as JSON whose body is the given text.
    pub open spec fn json_text(status: u16, text: Seq<char>) -> HttpReplyView {
        HttpReplyView { status, json: true, body: ReplyBodyView::Text(text) }
    }
}

impl HttpReply {
    /// A reply declared as JSON whose body is the given text.
    pub fn json_text(status: u16, text: &str) -> (reply: HttpReply)
        ensures
            reply@ == HttpReplyView::json_text(status, text@),
    {
        HttpReply { status, json: true, body: ReplyBody::Text(text.to_owned()) }
    }
}

} // verus!
