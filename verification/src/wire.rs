//! The request document as plain values, in the shape in which it goes
//! onto the wire. The texts of a document are read in place, in the buffers
//! of the messages that it is written for: a document holds no copy of a
//! secret.

use vstd::prelude::*;

verus! {

/// The nested record of an image part on the wire: `{"url": ...}`.
#[derive(PartialEq, Eq)]
pub struct WireImageUrl<'a> {
    pub url: &'a str,
}

/// One element of a content list on the wire, tagged by `type`.
#[derive(PartialEq, Eq)]
pub enum WirePart<'a> {
    /// `{"type": "text", "text": ...}`
    Text { text: &'a str },
    /// `{"type": "image_url", "image_url": {"url": ...}}`
    ImageUrl { image_url: WireImageUrl<'a> },
}

/// The `content` field of a message on the wire: a bare string or a list.
#[derive(PartialEq, Eq)]
pub enum WireContent<'a> {
    Text(&'a str),
    Parts(Vec<WirePart<'a>>),
}

/// A message as it is written into a request document.
#[derive(PartialEq, Eq)]
pub struct WireMessage<'a> {
    pub role: &'a str,
    pub content: WireContent<'a>,
}

/// The request document: `{"messages": [...], "model": ...}`.
#[derive(PartialEq, Eq)]
pub struct WireRequest<'a> {
    pub messages: Vec<WireMessage<'a>>,
    pub model: &'a str,
}

/// The mathematical value of a [`WirePart`]. An image part is given by the
/// `url` of its nested record.
pub enum WirePartView {
    Text { text: Seq<char> },
    ImageUrl { url: Seq<char> },
}

/// The mathematical value of a [`WireContent`].
pub enum WireContentView {
    Text(Seq<char>),
    Parts(Seq<WirePartView>),
}

/// The mathematical value of a [`WireMessage`].
pub struct WireMessageView {
    pub role: Seq<char>,
    pub content: WireContentView,
}

/// The mathematical value of a [`WireRequest`].
pub struct WireRequestView {
    pub messages: Seq<WireMessageView>,
    pub model: Seq<char>,
}

impl View for WirePart<'_> {
    type V = WirePartView;

    open spec fn view(&self) -> WirePartView {
        match self {
            WirePart::Text { text } => WirePartView::Text { text: text@ },
            WirePart::ImageUrl { image_url } => WirePartView::ImageUrl { url: image_url.url@ },
        }
    }
}

impl View for WireContent<'_> {
    type V = WireContentView;

    open spec fn view(&self) -> WireContentView {
        match self {
            WireContent::Text(text) => WireContentView::Text(text@),
            WireContent::Parts(parts) => WireContentView::Parts(
                parts@.map_values(|part: WirePart| part@),
            ),
        }
    }
}

impl View for WireMessage<'_> {
    type V = WireMessageView;

    open spec fn view(&self) -> WireMessageView {
        WireMessageView { role: self.role@, content: self.content@ }
    }
}

impl View for WireRequest<'_> {
    type V = WireRequestView;

    open spec fn view(&self) -> WireRequestView {
        WireRequestView {
            messages: self.messages@.map_values(|message: WireMessage| message@),
            model: self.model@,
        }
    }
}

} // verus!
