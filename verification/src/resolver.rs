//! Resolution of a path against the base URL of a domain.

use crate::text::{fits, has_outer_space, text_fits, text_has_outer_space};
use url::{ParseError, Url};
use vstd::prelude::*;
use vstd::string::*;

verus! {

/// `url::ParseError`, the error of the `url` crate's parser. Nothing in this
/// crate looks inside it.
#[verifier::external_type_specification]
#[verifier::external_body]
pub struct ExParseError(ParseError);

/// Whether `Url::parse` reads an absolute URL from `input`.
pub uninterp spec fn is_absolute_url(input: Seq<char>) -> bool;

/// The serialization of the URL that `Url::join` reads from `reference`, taken
/// against the URL that `Url::parse` reads from `base`; `None` where `join`
/// reads no URL. It means something only where `is_absolute_url(base)`.
pub uninterp spec fn joined(base: Seq<char>, reference: Seq<char>) -> Option<Seq<char>>;

/// The base URL of a domain, as text: the domain behind `http://`.
pub open spec fn base_text(domain: Seq<char>) -> Seq<char> {
    "http://"@ + domain
}

/// Whether a domain gives a base URL that paths can be resolved against: no
/// label of it could overflow the parser's encoder, and the parser reads a
/// URL from the text of the base.
pub open spec fn valid_domain(domain: Seq<char>) -> bool {
    fits(base_text(domain)) && is_absolute_url(base_text(domain))
}

/// Why a path is malformed.
pub enum Malformation {
    /// The path names a host with a label that could overflow the parser's
    /// encoder.
    TooLong,
    /// The path begins or ends with a space.
    Space,
    /// The parser reads no URL from the path.
    Unparsed,
}

/// Why a path is malformed under a domain, if it is: the first of the three
/// reasons that holds.
pub open spec fn malformation(domain: Seq<char>, path: Seq<char>) -> Option<Malformation> {
    if !fits(path) {
        Some(Malformation::TooLong)
    } else if has_outer_space(path) {
        Some(Malformation::Space)
    } else if joined(base_text(domain), path) is None {
        Some(Malformation::Unparsed)
    } else {
        None
    }
}

/// What a path resolves to under a domain: the serialization of the absolute
/// URL, or `None` where the path is malformed.
pub open spec fn resolution(domain: Seq<char>, path: Seq<char>) -> Option<Seq<char>> {
    if malformation(domain, path) is None {
        joined(base_text(domain), path)
    } else {
        None
    }
}

/// Whether some base and some reference resolve to `text`.
pub open spec fn is_resolved(text: Seq<char>) -> bool {
    exists|base: Seq<char>, reference: Seq<char>|
        is_absolute_url(base) && #[trigger] joined(base, reference) == Some(text)
}

/// Calls `Url::parse` on `input` and reports whether it returned a URL. The
/// contract claims that the answer depends on the text alone.
///
/// The text has to fit, so that no host label can overflow the parser's
/// Punycode encoder, and to be a base text: its scheme is then `http` and two
/// slashes follow it, which is what `fits` takes the base of a text to be.
#[verifier::external_body]
fn parses_as_absolute(input: &str) -> (accepted: bool)
    requires
        fits(input@),
        exists|domain: Seq<char>| input@ == #[trigger] base_text(domain),
    ensures
        accepted == is_absolute_url(input@),
{
    Url::parse(input).is_ok()
}

/// Parses `base` with `Url::parse`, resolves `reference` against the result
/// with `Url::join` and hands back the serialization of the URL found, or the
/// parser's error. The contract claims that this outcome depends on the two
/// texts alone.
///
/// Both texts have to fit, so that no host label can overflow the parser's
/// Punycode encoder. The base has to be a base text: `fits` reads the
/// reference as one resolved against an `http` base, and against a `file:`
/// base with a drive letter the parser can fail an assertion of its own.
#[verifier::external_body]
fn join_reference(base: &str, reference: &str) -> (found: Result<String, ParseError>)
    requires
        fits(base@),
        fits(reference@),
        exists|domain: Seq<char>| base@ == #[trigger] base_text(domain),
        is_absolute_url(base@),
    ensures
        match found {
            Ok(text) => joined(base@, reference@) == Some(text@),
            Err(_) => joined(base@, reference@) is None,
        },
{
    match Url::parse(base) {
        Ok(base_url) => match base_url.join(reference) {
            Ok(url) => Ok(url.into_string()),
            Err(e) => Err(e),
        },
        Err(e) => Err(e),
    }
}

/// An absolute URL in its normalized, serialized form.
///
/// Every value is the result of a resolution: there is no other way to make one.
#[derive(Debug, PartialEq, Eq)]
pub struct AbsoluteUrl {
    serialization: String,
}

impl View for AbsoluteUrl {
    type V = Seq<char>;

    closed spec fn view(&self) -> Seq<char> {
        self.serialization@
    }
}

impl Clone for AbsoluteUrl {
    fn clone(&self) -> (copy: Self)
        ensures
            copy@ == self@,
    {
        proof {
            use_type_invariant(self);
        }
        AbsoluteUrl { serialization: self.serialization.clone() }
    }
}

impl AbsoluteUrl {
    #[verifier::type_invariant]
    spec fn resolved(self) -> bool {
        is_resolved(self.serialization@)
    }

    /// The serialization of this URL.
    pub fn as_str(&self) -> (text: &str)
        ensures
            text@ == self@,
            is_resolved(self@),
    {
        proof {
            use_type_invariant(self);
        }
        self.serialization.as_str()
    }

    /// The serialization of this URL, as an owned string.
    pub fn into_string(self) -> (text: String)
        ensures
            text@ == self@,
    {
        self.serialization
    }
}

/// Why a path was refused, with the parser's own error where it was the
/// parser that refused.
#[derive(Debug, PartialEq, Eq)]
pub enum MalformedCause {
    /// The path names a host with a label that could overflow the parser's
    /// encoder.
    TooLong,
    /// The path begins or ends with a space.
    Space,
    /// The parser reads no URL from the path.
    Parser(ParseError),
}

impl View for MalformedCause {
    type V = Malformation;

    open spec fn view(&self) -> Malformation {
        match self {
            MalformedCause::TooLong => Malformation::TooLong,
            MalformedCause::Space => Malformation::Space,
            MalformedCause::Parser(_) => Malformation::Unparsed,
        }
    }
}

/// A path that resolves to no URL.
#[derive(Debug, PartialEq, Eq)]
pub struct MalformedError {
    /// The path, as it was given.
    pub path: String,
    /// Why it was refused.
    pub cause: MalformedCause,
}

/// The text of the base URL of `domain`.
fn base_of(domain: &str) -> (base: String)
    ensures
        base@ == base_text(domain@),
{
    let mut base = String::from_str("http://");
    base.append(domain);
    base
}

/// Whether `domain` gives a base URL that paths can be resolved against.
pub fn is_valid_domain(domain: &str) -> (valid: bool)
    ensures
        valid == valid_domain(domain@),
{
    let base = base_of(domain);
    if !text_fits(base.as_str()) {
        return false;
    }
    parses_as_absolute(base.as_str())
}

/// Resolves `path` against the base URL of `domain`.
///
/// A path that is itself an absolute URL overrides the base. A path is
/// malformed where it names a host with a label that could overflow the
/// parser's encoder, where it begins or ends with a space, or where the
/// parser reads no URL from it; it then comes back in the error, as it was
/// given, with the first of these reasons that holds.
///
/// The parser itself would drop a space at either end and go on. Here such
/// a path counts as text that was never meant for a URL. A space inside a
/// path is left to the parser, which escapes it.
pub fn build_url(domain: &str, path: &str) -> (found: Result<AbsoluteUrl, MalformedError>)
    requires
        valid_domain(domain@),
    ensures
        match found {
            Ok(url) => resolution(domain@, path@) == Some(url@),
            Err(e) => resolution(domain@, path@) is None && e.path@ == path@ && malformation(
                domain@,
                path@,
            ) == Some(e.cause@),
        },
{
    if !text_fits(path) {
        return Err(MalformedError { path: path.to_owned(), cause: MalformedCause::TooLong });
    }
    if text_has_outer_space(path) {
        return Err(MalformedError { path: path.to_owned(), cause: MalformedCause::Space });
    }
    let base = base_of(domain);
    match join_reference(base.as_str(), path) {
        Ok(text) => Ok(AbsoluteUrl { serialization: text }),
        Err(e) => Err(MalformedError { path: path.to_owned(), cause: MalformedCause::Parser(e) }),
    }
}

} // verus!
