//! The decisions of a URL reachability prober.
//!
//! A probe resolves a path against a domain, races one HTTP GET against a
//! fixed timeout and reports one [`UrlState`]. This crate holds every
//! decision of that process as a function on plain values: what the path
//! resolves to, what each thing that the race can deliver means, and which
//! delivery counts. Sending the request and waiting for the timer is left
//! to the caller.

pub mod body;
pub mod probe;
pub mod resolver;
pub mod state;
pub mod text;

pub use body::{body_text, FetchEvent, FetchEventView};
pub use probe::{classify, try_url_status, url_status, Probe, ProbeEvent, ProbeView, HTTP_OK, TIMEOUT};
pub use resolver::{build_url, is_valid_domain, AbsoluteUrl, MalformedCause, MalformedError};
pub use state::{status_text, UrlState, UrlStateView};
pub use text::{text_fits, LABEL_LIMIT, WIDE_WEIGHT};
