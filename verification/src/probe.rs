//! The probe engine: one resolution, then a race of which the first delivery
//! decides.

use crate::resolver::{build_url, is_valid_domain, resolution, valid_domain, AbsoluteUrl};
use crate::state::{UrlState, UrlStateView};
use vstd::prelude::*;

verus! {

/// The one status that marks a page as reachable.
pub const HTTP_OK: u16 = 200;

/// The seconds that a probe waits for its request.
pub const TIMEOUT: u64 = 10;

/// What the race of a probe can deliver.
#[derive(Debug, Clone, Copy, PartialEq, Eq, Structural)]
pub enum ProbeEvent {
    /// The request reached a status line, with this status.
    Response(u16),
    /// The request failed before any status was received.
    TransportError,
    /// The timeout passed.
    TimerElapsed,
}

/// What a delivery means for a probe of `url`.
pub open spec fn classification(url: Seq<char>, event: ProbeEvent) -> UrlStateView {
    match event {
        ProbeEvent::Response(status) => if status == HTTP_OK {
            UrlStateView::Accessible(url)
        } else {
            UrlStateView::BadStatus(url, status)
        },
        ProbeEvent::TransportError => UrlStateView::ConnectionFailed(url),
        ProbeEvent::TimerElapsed => UrlStateView::TimedOut(url),
    }
}

/// A probe as a mathematical value.
pub enum ProbeView {
    /// The path is resolved and nothing has been delivered yet.
    Racing(Seq<char>),
    /// The probe has its result.
    Finished(UrlStateView),
}

impl ProbeView {
    /// The state in which a probe of `path` under `domain` starts.
    pub open spec fn start(domain: Seq<char>, path: Seq<char>) -> ProbeView {
        match resolution(domain, path) {
            Some(url) => ProbeView::Racing(url),
            None => ProbeView::Finished(UrlStateView::Malformed(path)),
        }
    }

    /// The state after one delivery: the first decides, a later one is dropped.
    pub open spec fn deliver(self, event: ProbeEvent) -> ProbeView {
        match self {
            ProbeView::Racing(url) => ProbeView::Finished(classification(url, event)),
            ProbeView::Finished(state) => ProbeView::Finished(state),
        }
    }

    /// The state after a sequence of deliveries, in their order.
    pub open spec fn deliver_all(self, events: Seq<ProbeEvent>) -> ProbeView
        decreases events.len(),
    {
        if events.len() == 0 {
            self
        } else {
            self.deliver(events.first()).deliver_all(events.drop_first())
        }
    }

    /// The result, once there is one.
    pub open spec fn outcome(self) -> Option<UrlStateView> {
        match self {
            ProbeView::Racing(_) => None,
            ProbeView::Finished(state) => Some(state),
        }
    }
}

/// What a probe of `path` under `domain` reports when `first` is the first
/// thing that its race delivers.
pub open spec fn status_of(domain: Seq<char>, path: Seq<char>, first: ProbeEvent) -> UrlStateView {
    match resolution(domain, path) {
        Some(url) => classification(url, first),
        None => UrlStateView::Malformed(path),
    }
}

/// One probe: resolved and racing, or finished with its result.
#[derive(Debug, PartialEq, Eq)]
pub enum Probe {
    /// The path is resolved and nothing has been delivered yet.
    Racing(AbsoluteUrl),
    /// The probe has its result.
    Finished(UrlState),
}

impl View for Probe {
    type V = ProbeView;

    open spec fn view(&self) -> ProbeView {
        match self {
            Probe::Racing(url) => ProbeView::Racing(url@),
            Probe::Finished(state) => ProbeView::Finished(state@),
        }
    }
}

/// The result that a delivery gives a probe of `url`.
pub fn classify(url: AbsoluteUrl, event: ProbeEvent) -> (state: UrlState)
    ensures
        state@ == classification(url@, event),
        state@ is Accessible <==> event == ProbeEvent::Response(HTTP_OK),
        state@.url() == Some(url@),
{
    match event {
        ProbeEvent::Response(status) => if status == HTTP_OK {
            UrlState::Accessible(url)
        } else {
            UrlState::BadStatus(url, status)
        },
        ProbeEvent::TransportError => UrlState::ConnectionFailed(url),
        ProbeEvent::TimerElapsed => UrlState::TimedOut(url),
    }
}

impl Probe {
    /// Starts a probe of `path` under `domain`: it races on the resolved URL,
    /// or is finished at once where the path is malformed. A domain that
    /// gives no base URL starts no probe.
    pub fn start(domain: &str, path: &str) -> (probe: Option<Probe>)
        ensures
            match probe {
                Some(p) => valid_domain(domain@) && p@ == ProbeView::start(domain@, path@),
                None => !valid_domain(domain@),
            },
    {
        if !is_valid_domain(domain) {
            return None;
        }
        match build_url(domain, path) {
            Ok(url) => Some(Probe::Racing(url)),
            Err(e) => Some(Probe::Finished(UrlState::Malformed(e.path))),
        }
    }

    /// The URL to request and to time, while the probe races.
    pub fn target(&self) -> (url: Option<&AbsoluteUrl>)
        ensures
            match url {
                Some(u) => self@ == ProbeView::Racing(u@),
                None => self@ is Finished,
            },
    {
        match self {
            Probe::Racing(url) => Some(url),
            Probe::Finished(_) => None,
        }
    }

    /// Hands the probe one delivery of its race. The first delivery finishes
    /// the probe; one that comes later changes nothing.
    pub fn deliver(self, event: ProbeEvent) -> (next: Probe)
        ensures
            next@ == self@.deliver(event),
            next@ is Finished,
    {
        match self {
            Probe::Racing(url) => Probe::Finished(classify(url, event)),
            Probe::Finished(state) => Probe::Finished(state),
        }
    }

    /// The result, once the probe is finished.
    pub fn outcome(self) -> (state: Option<UrlState>)
        ensures
            match state {
                Some(s) => self@.outcome() == Some(s@),
                None => self@.outcome() is None,
            },
    {
        match self {
            Probe::Racing(_) => None,
            Probe::Finished(state) => Some(state),
        }
    }
}

/// The state that a probe of `path` under `domain` reports when `first` is
/// the first thing that its race delivers.
///
/// A malformed path is reported as such, with the path as it was given,
/// whatever the race delivers. Every other result carries the URL that the
/// path resolves to.
pub fn url_status(domain: &str, path: &str, first: ProbeEvent) -> (state: UrlState)
    requires
        valid_domain(domain@),
    ensures
        state@ == status_of(domain@, path@, first),
        state@ is Malformed <==> resolution(domain@, path@) is None,
        state@ is Accessible <==> resolution(domain@, path@) is Some && first
            == ProbeEvent::Response(HTTP_OK),
        state@.url() == resolution(domain@, path@),
{
    match build_url(domain, path) {
        Ok(url) => classify(url, first),
        Err(e) => UrlState::Malformed(e.path),
    }
}

/// As `url_status`, for a domain of which nothing is known: `None` where the
/// domain gives no base URL.
pub fn try_url_status(domain: &str, path: &str, first: ProbeEvent) -> (state: Option<UrlState>)
    ensures
        match state {
            Some(s) => valid_domain(domain@) && s@ == status_of(domain@, path@, first),
            None => !valid_domain(domain@),
        },
{
    if is_valid_domain(domain) {
        Some(url_status(domain, path, first))
    } else {
        None
    }
}

/// Of any deliveries, the first alone decides: a probe that gets at least
/// one delivery ends in the state that the first one gives it.
pub proof fn lemma_first_delivery_decides(probe: ProbeView, events: Seq<ProbeEvent>)
    requires
        events.len() > 0,
    ensures
        probe.deliver_all(events) == probe.deliver(events.first()),
        probe.deliver_all(events).outcome() is Some,
    decreases events.len(),
{
    let rest = events.drop_first();
    let next = probe.deliver(events.first());
    assert(probe.deliver_all(events) == next.deliver_all(rest));
    if rest.len() > 0 {
        lemma_first_delivery_decides(next, rest);
        assert(next.deliver(rest.first()) == next);
    } else {
        assert(next.deliver_all(rest) == next);
    }
}

/// A probe yields the same single result however many deliveries follow the
/// first, and that result is the one `status_of` names.
pub proof fn lemma_one_result(domain: Seq<char>, path: Seq<char>, events: Seq<ProbeEvent>)
    requires
        events.len() > 0,
    ensures
        ProbeView::start(domain, path).deliver_all(events).outcome() == Some(
            status_of(domain, path, events.first()),
        ),
{
    lemma_first_delivery_decides(ProbeView::start(domain, path), events);
}

} // verus!
