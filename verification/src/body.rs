//! What a fetch of a page's body hands to its caller.

use vstd::prelude::*;

verus! {

/// What one GET for the body of a page came to.
#[derive(Debug, PartialEq, Eq)]
pub enum FetchEvent {
    /// The request failed before any response came.
    TransportError,
    /// The response came and its body was read to the end.
    Body(String),
    /// The response came and the read of its body broke off.
    BrokenBody,
}

/// A fetch event as a mathematical value.
pub enum FetchEventView {
    TransportError,
    Body(Seq<char>),
    BrokenBody,
}

impl View for FetchEvent {
    type V = FetchEventView;

    open spec fn view(&self) -> FetchEventView {
        match self {
            FetchEvent::TransportError => FetchEventView::TransportError,
            FetchEvent::Body(text) => FetchEventView::Body(text@),
            FetchEvent::BrokenBody => FetchEventView::BrokenBody,
        }
    }
}

impl FetchEventView {
    /// The text that the fetch returns: the body as it was read, the empty
    /// text for a body that broke off, and nothing at all where the request
    /// itself failed.
    pub open spec fn text(self) -> Option<Seq<char>> {
        match self {
            FetchEventView::TransportError => None,
            FetchEventView::Body(text) => Some(text),
            FetchEventView::BrokenBody => Some(Seq::<char>::empty()),
        }
    }
}

/// The text that a fetch returns for what its GET came to.
///
/// A body that broke off in the middle is no page to take links from, so the
/// fetch goes on with the empty text. A request that failed leaves the fetch
/// without a result: `None`.
pub fn body_text(event: FetchEvent) -> (text: Option<String>)
    ensures
        match text {
            Some(t) => event@.text() == Some(t@),
            None => event@.text() is None,
        },
{
    match event {
        FetchEvent::TransportError => None,
        FetchEvent::Body(text) => Some(text),
        FetchEvent::BrokenBody => Some(String::new()),
    }
}

} // verus!
