//! The result of a probe and its display form.

use crate::resolver::AbsoluteUrl;
use vstd::prelude::*;
use vstd::string::*;

verus! {

/// The result of one probe. The URL in a variant is the resolved one, not
/// the path as the caller wrote it.
#[derive(Debug, PartialEq, Eq)]
pub enum UrlState {
    /// The request was answered with status 200.
    Accessible(AbsoluteUrl),
    /// The request was answered with any other status.
    BadStatus(AbsoluteUrl, u16),
    /// The request failed before a status was received.
    ConnectionFailed(AbsoluteUrl),
    /// Nothing came back within the timeout.
    TimedOut(AbsoluteUrl),
    /// The path resolves to no URL; the payload is the path as it was given.
    Malformed(String),
}

/// A probe result as a mathematical value: URLs and paths as sequences of
/// characters.
pub enum UrlStateView {
    Accessible(Seq<char>),
    BadStatus(Seq<char>, u16),
    ConnectionFailed(Seq<char>),
    TimedOut(Seq<char>),
    Malformed(Seq<char>),
}

/// The character that writes a digit.
pub open spec fn digit_char(digit: nat) -> char {
    if digit == 0 {
        '0'
    } else if digit == 1 {
        '1'
    } else if digit == 2 {
        '2'
    } else if digit == 3 {
        '3'
    } else if digit == 4 {
        '4'
    } else if digit == 5 {
        '5'
    } else if digit == 6 {
        '6'
    } else if digit == 7 {
        '7'
    } else if digit == 8 {
        '8'
    } else {
        '9'
    }
}

/// A number in decimal, without leading zeros.
pub open spec fn decimal(n: nat) -> Seq<char>
    decreases n,
{
    if n < 10 {
        seq![digit_char(n)]
    } else {
        decimal(n / 10).push(digit_char(n % 10))
    }
}

/// The text of one digit.
fn digit_text(digit: u16) -> (text: &'static str)
    requires
        digit < 10,
    ensures
        text@ == seq![digit_char(digit as nat)],
{
    proof {
        reveal_strlit("0");
        reveal_strlit("1");
        reveal_strlit("2");
        reveal_strlit("3");
        reveal_strlit("4");
        reveal_strlit("5");
        reveal_strlit("6");
        reveal_strlit("7");
        reveal_strlit("8");
        reveal_strlit("9");
    }
    let text = if digit == 0 {
        "0"
    } else if digit == 1 {
        "1"
    } else if digit == 2 {
        "2"
    } else if digit == 3 {
        "3"
    } else if digit == 4 {
        "4"
    } else if digit == 5 {
        "5"
    } else if digit == 6 {
        "6"
    } else if digit == 7 {
        "7"
    } else if digit == 8 {
        "8"
    } else {
        "9"
    };
    assert(text@ =~= seq![digit_char(digit as nat)]);
    text
}

/// The number of a status in decimal.
pub fn status_text(status: u16) -> (text: String)
    ensures
        text@ == decimal(status as nat),
    decreases status,
{
    if status < 10 {
        String::from_str(digit_text(status))
    } else {
        let mut text = status_text(status / 10);
        text.append(digit_text(status % 10));
        assert(text@ =~= decimal(status as nat));
        text
    }
}

impl UrlStateView {
    /// The URL that the result carries; a malformed path carries none.
    pub open spec fn url(self) -> Option<Seq<char>> {
        match self {
            UrlStateView::Accessible(url) => Some(url),
            UrlStateView::BadStatus(url, _) => Some(url),
            UrlStateView::ConnectionFailed(url) => Some(url),
            UrlStateView::TimedOut(url) => Some(url),
            UrlStateView::Malformed(_) => None,
        }
    }

    /// The display form: the variant's name, a colon and the payload, with
    /// the status in decimal.
    pub open spec fn display(self) -> Seq<char> {
        match self {
            UrlStateView::Accessible(url) => "Accessible: "@ + url,
            UrlStateView::BadStatus(url, status) => "BadStatus: "@ + url + " "@ + decimal(
                status as nat,
            ),
            UrlStateView::ConnectionFailed(url) => "ConnectionFailed: "@ + url,
            UrlStateView::TimedOut(url) => "TimedOut: "@ + url,
            UrlStateView::Malformed(path) => "Malformed: "@ + path,
        }
    }
}

impl View for UrlState {
    type V = UrlStateView;

    open spec fn view(&self) -> UrlStateView {
        match self {
            UrlState::Accessible(url) => UrlStateView::Accessible(url@),
            UrlState::BadStatus(url, status) => UrlStateView::BadStatus(url@, *status),
            UrlState::ConnectionFailed(url) => UrlStateView::ConnectionFailed(url@),
            UrlState::TimedOut(url) => UrlStateView::TimedOut(url@),
            UrlState::Malformed(path) => UrlStateView::Malformed(path@),
        }
    }
}

impl Clone for UrlState {
    fn clone(&self) -> (copy: Self)
        ensures
            copy@ == self@,
    {
        match self {
            UrlState::Accessible(url) => UrlState::Accessible(url.clone()),
            UrlState::BadStatus(url, status) => UrlState::BadStatus(url.clone(), *status),
            UrlState::ConnectionFailed(url) => UrlState::ConnectionFailed(url.clone()),
            UrlState::TimedOut(url) => UrlState::TimedOut(url.clone()),
            UrlState::Malformed(path) => UrlState::Malformed(path.clone()),
        }
    }
}

/// `label` followed by `payload`.
fn labelled(label: &str, payload: &str) -> (text: String)
    ensures
        text@ == label@ + payload@,
{
    let mut text = String::from_str(label);
    text.append(payload);
    text
}

impl UrlState {
    /// The URL that the result carries; a malformed path carries none.
    pub fn url(&self) -> (url: Option<&AbsoluteUrl>)
        ensures
            match url {
                Some(u) => self@.url() == Some(u@),
                None => self@.url() is None,
            },
    {
        match self {
            UrlState::Accessible(url) => Some(url),
            UrlState::BadStatus(url, _) => Some(url),
            UrlState::ConnectionFailed(url) => Some(url),
            UrlState::TimedOut(url) => Some(url),
            UrlState::Malformed(_) => None,
        }
    }

    /// The display form of the result.
    pub fn to_string(&self) -> (text: String)
        ensures
            text@ == self@.display(),
    {
        match self {
            UrlState::Accessible(url) => labelled("Accessible: ", url.as_str()),
            UrlState::BadStatus(url, status) => {
                let mut text = labelled("BadStatus: ", url.as_str());
                text.append(" ");
                let status = status_text(*status);
                text.append(status.as_str());
                text
            },
            UrlState::ConnectionFailed(url) => labelled("ConnectionFailed: ", url.as_str()),
            UrlState::TimedOut(url) => labelled("TimedOut: ", url.as_str()),
            UrlState::Malformed(path) => labelled("Malformed: ", path.as_str()),
        }
    }
}

} // verus!
