//! Which texts the URL parser may be handed.
//!
//! The parser writes a host label with a character outside ASCII in
//! Punycode, and its encoder counts in 32 bits: on a label of more than
//! 3,855 characters the count can overflow. Only a host can get there, so
//! only the part of a text that the parser would take for the host of an
//! `http`-like or `file` URL is looked at, label by label, and a text is
//! refused only for a label that could reach the encoder too long.
//!
//! A label reaches the encoder only if it holds a character that is not
//! plain (one outside ASCII, or a `%`, which may stand for one) or begins
//! with `xn--`. A plain character stays one character. Any other becomes 32
//! at most: the longest entry of the parser's mapping table has 18
//! characters, none of which normalization splits; the next longest has 8,
//! and normalization splits a character into 4 at most.

use vstd::prelude::*;
use vstd::std_specs::iter::IteratorSpec;
use vstd::string::*;

verus! {

/// The most characters of a label that the encoder takes without overflow.
pub const LABEL_LIMIT: usize = 3855;

/// The most characters of a label that a character which is not plain can
/// become.
pub const WIDE_WEIGHT: usize = 32;

/// Whether a character reaches a host label as one character: it is ASCII
/// and does not start a percent escape.
pub open spec fn is_plain(c: char) -> bool {
    c <= '\u{7f}' && c != '%'
}

/// Whether the parser drops a character wherever it stands.
pub open spec fn is_dropped(c: char) -> bool {
    c == '\t' || c == '\n' || c == '\r'
}

/// Whether the parser drops a character at the start of a text.
pub open spec fn is_trimmed(c: char) -> bool {
    c <= ' '
}

/// Whether a character is a slash to the parser of an `http`-like URL.
pub open spec fn is_slash(c: char) -> bool {
    c == '/' || c == '\\'
}

/// Whether a character ends the host of a URL.
pub open spec fn ends_host(c: char) -> bool {
    is_slash(c) || c == '?' || c == '#'
}

/// Whether a character can stand in a scheme.
pub open spec fn is_scheme_char(c: char) -> bool {
    ('a' <= c && c <= 'z') || ('A' <= c && c <= 'Z') || ('0' <= c && c <= '9') || c == '+' || c
        == '-' || c == '.'
}

/// The number of a scheme character, an upper-case letter counting as its
/// lower-case one.
pub open spec fn scheme_digit(c: char) -> u64 {
    if 'A' <= c && c <= 'Z' {
        (c as u64 + 32) as u64
    } else {
        c as u64
    }
}

/// How the parser finds the host behind a scheme.
#[derive(Clone, Copy, Debug, PartialEq, Eq, Structural)]
pub enum SchemeKind {
    /// No scheme: the text is resolved against the base, whose scheme is
    /// `http`. A host follows two or more slashes.
    Relative,
    /// `http`, the scheme of the base. A host follows two or more slashes.
    Http,
    /// `https`, `ws`, `wss`, `ftp` or `gopher`. A host follows the slashes,
    /// however many there are.
    Special,
    /// `file`. A host follows exactly two slashes.
    File,
    /// Any other scheme. Its host is never encoded.
    Other,
}

/// The kind of the scheme whose letters, in lower case and read as digits
/// to the base 256, make up `code`.
pub open spec fn scheme_kind(code: u64) -> SchemeKind {
    if code == 0x68_74_74_70 {
        SchemeKind::Http
    } else if code == 0x68_74_74_70_73 || code == 0x77_73 || code == 0x77_73_73 || code
        == 0x66_74_70 || code == 0x67_6f_70_68_65_72 {
        SchemeKind::Special
    } else if code == 0x66_69_6c_65 {
        SchemeKind::File
    } else {
        SchemeKind::Other
    }
}

/// Where in a text a scan stands.
#[derive(Clone, Copy, Debug, PartialEq, Eq, Structural)]
pub enum Stage {
    /// Before the first character that the parser keeps.
    Lead,
    /// In what may be a scheme.
    Scheme,
    /// In the slashes before a host.
    Slashes,
    /// In what the parser takes for the host.
    Host,
    /// Past anything that can be a host.
    Rest,
}

/// The state of a scan of a text for a host label that could reach the
/// encoder too long.
#[derive(Clone, Copy, Debug, PartialEq, Eq, Structural)]
pub struct Scan {
    /// Where the scan stands.
    pub stage: Stage,
    /// The scheme's letters so far, as a number; 0 once there are over six.
    pub scheme: u64,
    /// How many scheme characters were read, up to seven.
    pub scheme_len: u8,
    /// How the host is found.
    pub kind: SchemeKind,
    /// How many slashes were read before the host, up to two.
    pub slashes: u8,
    /// The weight of the label so far, up to one over the limit.
    pub weight: usize,
    /// Whether the label so far can reach the encoder.
    pub risky: bool,
    /// How much of `xn--` the label began with: 0 to 4, or 5 for a label
    /// that began otherwise.
    pub prefix: u8,
    /// Whether a label that can reach the encoder weighs over the limit.
    pub over: bool,
}

impl Scan {
    /// The state before any character.
    pub open spec fn start() -> Scan {
        Scan {
            stage: Stage::Lead,
            scheme: 0,
            scheme_len: 0,
            kind: SchemeKind::Relative,
            slashes: 0,
            weight: 0,
            risky: false,
            prefix: 0,
            over: false,
        }
    }

    /// What keeps the numbers of a state in their ranges.
    pub open spec fn wf(self) -> bool {
        &&& self.scheme_len <= 7
        &&& self.scheme_len == 0 ==> self.scheme == 0
        &&& self.scheme_len == 1 ==> self.scheme < 0x100
        &&& self.scheme_len == 2 ==> self.scheme < 0x1_0000
        &&& self.scheme_len == 3 ==> self.scheme < 0x100_0000
        &&& self.scheme_len == 4 ==> self.scheme < 0x1_0000_0000
        &&& self.scheme_len == 5 ==> self.scheme < 0x100_0000_0000
        &&& self.scheme_len == 6 ==> self.scheme < 0x1_0000_0000_0000
        &&& self.scheme_len == 7 ==> self.scheme == 0
        &&& self.slashes <= 2
        &&& self.weight <= LIMIT_PLUS_ONE
        &&& self.prefix <= 5
    }

    /// The state at the start of a label.
    pub open spec fn new_label(self) -> Scan {
        Scan { weight: 0, risky: false, prefix: 0, ..self }
    }

    /// The state at the start of a host.
    pub open spec fn enter_host(self) -> Scan {
        Scan { stage: Stage::Host, ..self.new_label() }
    }

    /// The state past the host.
    pub open spec fn leave(self) -> Scan {
        Scan { stage: Stage::Rest, ..self }
    }

    /// The state after one more character of a label.
    pub open spec fn in_label(self, c: char) -> Scan {
        let added: int = if is_plain(c) {
            1
        } else {
            WIDE_WEIGHT as int
        };
        let weight: usize = if self.weight + added > LABEL_LIMIT {
            LIMIT_PLUS_ONE
        } else {
            (self.weight + added) as usize
        };
        let prefix: u8 = if self.prefix == 0 && (c == 'x' || c == 'X') {
            1
        } else if self.prefix == 1 && (c == 'n' || c == 'N') {
            2
        } else if self.prefix == 2 && c == '-' {
            3
        } else if self.prefix == 3 && c == '-' {
            4
        } else if self.prefix == 4 {
            4
        } else {
            5
        };
        let risky = self.risky || !is_plain(c) || prefix == 4;
        Scan { weight, risky, prefix, over: self.over || (risky && weight > LABEL_LIMIT), ..self }
    }

    /// The state after one more character of a host.
    pub open spec fn in_host(self, c: char) -> Scan {
        if ends_host(c) {
            self.leave()
        } else if c == '@' && self.kind != SchemeKind::File {
            Scan { over: false, ..self.new_label() }
        } else if c == '.' {
            self.new_label()
        } else {
            self.in_label(c)
        }
    }

    /// The state after one more character of a text.
    pub open spec fn step(self, c: char) -> Scan {
        match self.stage {
            Stage::Rest => self,
            Stage::Lead => if is_trimmed(c) {
                self
            } else if is_slash(c) {
                Scan { stage: Stage::Slashes, kind: SchemeKind::Relative, slashes: 1, ..self }
            } else if ('a' <= c && c <= 'z') || ('A' <= c && c <= 'Z') {
                Scan { stage: Stage::Scheme, scheme: scheme_digit(c), scheme_len: 1, ..self }
            } else {
                self.leave()
            },
            Stage::Scheme => if is_dropped(c) {
                self
            } else if is_scheme_char(c) {
                if self.scheme_len < 6 {
                    Scan {
                        scheme: (self.scheme * 256 + scheme_digit(c)) as u64,
                        scheme_len: (self.scheme_len + 1) as u8,
                        ..self
                    }
                } else {
                    Scan { scheme: 0, scheme_len: 7, ..self }
                }
            } else if c == ':' && scheme_kind(self.scheme) != SchemeKind::Other {
                Scan { stage: Stage::Slashes, kind: scheme_kind(self.scheme), slashes: 0, ..self }
            } else {
                self.leave()
            },
            Stage::Slashes => if is_dropped(c) {
                self
            } else if is_slash(c) {
                if self.kind == SchemeKind::File && self.slashes == 1 {
                    self.enter_host()
                } else if self.slashes < 2 {
                    Scan { slashes: (self.slashes + 1) as u8, ..self }
                } else {
                    self
                }
            } else if self.kind == SchemeKind::Special || (self.kind != SchemeKind::File
                && self.slashes == 2) {
                self.enter_host().in_host(c)
            } else {
                self.leave()
            },
            Stage::Host => if is_dropped(c) {
                self
            } else {
                self.in_host(c)
            },
        }
    }

    /// The state after a text.
    pub open spec fn run(self, text: Seq<char>) -> Scan
        decreases text.len(),
    {
        if text.len() == 0 {
            self
        } else {
            self.step(text.first()).run(text.drop_first())
        }
    }
}

/// One over the label limit: where a weight stops growing.
pub const LIMIT_PLUS_ONE: usize = 3856;

/// Whether a text may be handed to the parser: no label of what the parser
/// would take for its host could reach the encoder with more characters
/// than the encoder takes.
pub open spec fn fits(text: Seq<char>) -> bool {
    !Scan::start().run(text).over
}

/// Whether a text begins or ends with a space.
pub open spec fn has_outer_space(text: Seq<char>) -> bool {
    text.len() > 0 && (text.first() == ' ' || text.last() == ' ')
}

/// Past the host nothing changes the state.
pub proof fn lemma_rest_is_final(scan: Scan, text: Seq<char>)
    requires
        scan.stage == Stage::Rest,
    ensures
        scan.run(text) == scan,
    decreases text.len(),
{
    if text.len() > 0 {
        lemma_rest_is_final(scan, text.drop_first());
    }
}

/// A scan of two texts, one after the other, is the scan of the second
/// from where the first one ended.
pub proof fn lemma_run_in_two(scan: Scan, first: Seq<char>, second: Seq<char>)
    ensures
        scan.run(first + second) == scan.run(first).run(second),
    decreases first.len(),
{
    if first.len() == 0 {
        assert(first + second =~= second);
    } else {
        assert((first + second).drop_first() =~= first.drop_first() + second);
        lemma_run_in_two(scan.step(first.first()), first.drop_first(), second);
    }
}

/// A scan whose label is light enough stays clear of the limit over a text
/// short enough.
proof fn lemma_short_run_stays_under(scan: Scan, text: Seq<char>, read: nat)
    requires
        !scan.over,
        scan.weight <= WIDE_WEIGHT * read,
        read + text.len() <= 120,
    ensures
        !scan.run(text).over,
    decreases text.len(),
{
    if text.len() > 0 {
        let next = scan.step(text.first());
        assert(next.weight <= scan.weight + WIDE_WEIGHT);
        assert(!next.over);
        lemma_short_run_stays_under(next, text.drop_first(), read + 1);
    }
}

/// A text of at most 120 characters fits, whatever it holds.
pub proof fn lemma_short_text_fits(text: Seq<char>)
    requires
        text.len() <= 120,
    ensures
        fits(text),
{
    lemma_short_run_stays_under(Scan::start(), text, 0);
}

/// A scan over plain characters adds one to the weight for each at most.
proof fn lemma_plain_run_stays_under(scan: Scan, text: Seq<char>, read: nat)
    requires
        !scan.over,
        scan.weight <= read,
        read + text.len() <= LABEL_LIMIT,
        forall|i: int| 0 <= i < text.len() ==> is_plain(#[trigger] text[i]),
    ensures
        !scan.run(text).over,
    decreases text.len(),
{
    if text.len() > 0 {
        let next = scan.step(text.first());
        assert(is_plain(text[0]));
        assert(next.weight <= scan.weight + 1);
        assert(!next.over);
        assert forall|i: int| 0 <= i < text.drop_first().len() implies is_plain(
            #[trigger] text.drop_first()[i],
        ) by {
            assert(text.drop_first()[i] == text[i + 1]);
        }
        lemma_plain_run_stays_under(next, text.drop_first(), read + 1);
    }
}

/// A text of plain characters fits if it is no longer than the longest
/// label that the encoder takes.
pub proof fn lemma_plain_text_fits(text: Seq<char>)
    requires
        text.len() <= LABEL_LIMIT,
        forall|i: int| 0 <= i < text.len() ==> is_plain(#[trigger] text[i]),
    ensures
        fits(text),
{
    lemma_plain_run_stays_under(Scan::start(), text, 0);
}

/// Whether a text holds nothing that can bring a label to the encoder:
/// every character is plain, none is one that the parser drops, and no two
/// hyphens stand side by side.
pub open spec fn is_harmless(text: Seq<char>) -> bool {
    &&& forall|i: int| 0 <= i < text.len() ==> is_plain(#[trigger] text[i]) && !is_dropped(text[i])
    &&& forall|i: int| 0 <= i < text.len() - 1 ==> !(#[trigger] text[i] == '-' && text[i + 1] == '-')
}

/// A scan that has met nothing risky meets nothing risky in a harmless text.
proof fn lemma_harmless_run_stays_clear(scan: Scan, text: Seq<char>, last: char)
    requires
        !scan.over,
        scan.stage != Stage::Rest ==> !scan.risky && scan.prefix != 4,
        scan.stage != Stage::Rest && scan.stage != Stage::Host ==> scan.prefix == 0,
        scan.stage == Stage::Host && scan.prefix == 3 ==> last == '-',
        is_harmless(text),
        text.len() > 0 ==> !(last == '-' && text[0] == '-'),
    ensures
        !scan.run(text).over,
    decreases text.len(),
{
    if text.len() > 0 {
        let c = text.first();
        let rest = text.drop_first();
        let next = scan.step(c);
        assert(is_plain(text[0]) && !is_dropped(text[0]));
        assert forall|i: int| 0 <= i < rest.len() implies is_plain(#[trigger] rest[i])
            && !is_dropped(rest[i]) by {
            assert(rest[i] == text[i + 1]);
        }
        assert forall|i: int| 0 <= i < rest.len() - 1 implies !(#[trigger] rest[i] == '-' && rest[i
            + 1] == '-') by {
            assert(rest[i] == text[i + 1]);
            assert(rest[i + 1] == text[i + 2]);
        }
        if rest.len() > 0 {
            assert(rest[0] == text[1]);
            assert(!(text[0] == '-' && text[1] == '-'));
        }
        lemma_harmless_run_stays_clear(next, rest, c);
    }
}

/// A harmless text fits, however long it is.
pub proof fn lemma_harmless_text_fits(text: Seq<char>)
    requires
        is_harmless(text),
    ensures
        fits(text),
{
    lemma_harmless_run_stays_clear(Scan::start(), text, ' ');
}

/// Only the host counts: once a text is past what the parser takes for its
/// host, nothing that follows decides whether it fits.
pub proof fn lemma_only_the_host_counts(head: Seq<char>, tail: Seq<char>)
    requires
        Scan::start().run(head).stage == Stage::Rest,
    ensures
        fits(head + tail) == fits(head),
{
    lemma_run_in_two(Scan::start(), head, tail);
    lemma_rest_is_final(Scan::start().run(head), tail);
}

/// A path that begins with one slash names no host, so it fits however
/// long it is and whatever it holds.
pub proof fn lemma_rooted_path_fits(path: Seq<char>)
    requires
        path.len() >= 2,
        path[0] == '/',
        !is_slash(path[1]),
        !is_dropped(path[1]),
    ensures
        fits(path),
{
    let head = path.take(2);
    let tail = path.skip(2);
    assert(head + tail =~= path);
    assert(head.drop_first() =~= seq![path[1]]);
    assert(seq![path[1]].drop_first() =~= Seq::<char>::empty());
    let first = Scan::start().step(path[0]);
    let second = first.step(path[1]);
    assert(Scan::start().run(head) == first.run(head.drop_first()));
    assert(first.run(seq![path[1]]) == second.run(Seq::<char>::empty()));
    assert(second.stage == Stage::Rest);
    assert(!second.over);
    lemma_only_the_host_counts(head, tail);
}

impl Scan {
    /// The state before any character.
    fn new() -> (scan: Scan)
        ensures
            scan == Scan::start(),
            scan.wf(),
    {
        Scan {
            stage: Stage::Lead,
            scheme: 0,
            scheme_len: 0,
            kind: SchemeKind::Relative,
            slashes: 0,
            weight: 0,
            risky: false,
            prefix: 0,
            over: false,
        }
    }

    fn label_start(self) -> (next: Scan)
        requires
            self.wf(),
        ensures
            next == self.new_label(),
            next.wf(),
    {
        Scan { weight: 0, risky: false, prefix: 0, ..self }
    }

    fn host_start(self) -> (next: Scan)
        requires
            self.wf(),
        ensures
            next == self.enter_host(),
            next.wf(),
    {
        Scan { stage: Stage::Host, ..self.label_start() }
    }

    fn past_host(self) -> (next: Scan)
        requires
            self.wf(),
        ensures
            next == self.leave(),
            next.wf(),
    {
        Scan { stage: Stage::Rest, ..self }
    }

    fn label_char(self, c: char) -> (next: Scan)
        requires
            self.wf(),
        ensures
            next == self.in_label(c),
            next.wf(),
    {
        let plain = c <= '\u{7f}' && c != '%';
        let added: usize = if plain {
            1
        } else {
            WIDE_WEIGHT
        };
        let weight: usize = if self.weight + added > LABEL_LIMIT {
            LIMIT_PLUS_ONE
        } else {
            self.weight + added
        };
        let prefix: u8 = if self.prefix == 0 && (c == 'x' || c == 'X') {
            1
        } else if self.prefix == 1 && (c == 'n' || c == 'N') {
            2
        } else if self.prefix == 2 && c == '-' {
            3
        } else if self.prefix == 3 && c == '-' {
            4
        } else if self.prefix == 4 {
            4
        } else {
            5
        };
        let risky = self.risky || !plain || prefix == 4;
        Scan { weight, risky, prefix, over: self.over || (risky && weight > LABEL_LIMIT), ..self }
    }

    fn host_char(self, c: char) -> (next: Scan)
        requires
            self.wf(),
        ensures
            next == self.in_host(c),
            next.wf(),
    {
        if c == '/' || c == '\\' || c == '?' || c == '#' {
            self.past_host()
        } else if c == '@' && self.kind != SchemeKind::File {
            Scan { over: false, ..self.label_start() }
        } else if c == '.' {
            self.label_start()
        } else {
            self.label_char(c)
        }
    }

    /// The state after one more character of a text.
    fn advance(self, c: char) -> (next: Scan)
        requires
            self.wf(),
        ensures
            next == self.step(c),
            next.wf(),
    {
        let dropped = c == '\t' || c == '\n' || c == '\r';
        let slash = c == '/' || c == '\\';
        let letter = ('a' <= c && c <= 'z') || ('A' <= c && c <= 'Z');
        match self.stage {
            Stage::Rest => self,
            Stage::Lead => if c <= ' ' {
                self
            } else if slash {
                Scan { stage: Stage::Slashes, kind: SchemeKind::Relative, slashes: 1, ..self }
            } else if letter {
                Scan { stage: Stage::Scheme, scheme: digit_of(c), scheme_len: 1, ..self }
            } else {
                self.past_host()
            },
            Stage::Scheme => if dropped {
                self
            } else if letter || ('0' <= c && c <= '9') || c == '+' || c == '-' || c == '.' {
                if self.scheme_len < 6 {
                    Scan {
                        scheme: self.scheme * 256 + digit_of(c),
                        scheme_len: self.scheme_len + 1,
                        ..self
                    }
                } else {
                    Scan { scheme: 0, scheme_len: 7, ..self }
                }
            } else if c == ':' && kind_of(self.scheme) != SchemeKind::Other {
                Scan { stage: Stage::Slashes, kind: kind_of(self.scheme), slashes: 0, ..self }
            } else {
                self.past_host()
            },
            Stage::Slashes => if dropped {
                self
            } else if slash {
                if self.kind == SchemeKind::File && self.slashes == 1 {
                    self.host_start()
                } else if self.slashes < 2 {
                    Scan { slashes: self.slashes + 1, ..self }
                } else {
                    self
                }
            } else if self.kind == SchemeKind::Special || (self.kind != SchemeKind::File
                && self.slashes == 2) {
                self.host_start().host_char(c)
            } else {
                self.past_host()
            },
            Stage::Host => if dropped {
                self
            } else {
                self.host_char(c)
            },
        }
    }
}

/// The number of a scheme character.
fn digit_of(c: char) -> (digit: u64)
    requires
        is_scheme_char(c),
    ensures
        digit == scheme_digit(c),
        digit < 0x100,
{
    if 'A' <= c && c <= 'Z' {
        c as u64 + 32
    } else {
        c as u64
    }
}

/// The kind of the scheme with the number `code`.
fn kind_of(code: u64) -> (kind: SchemeKind)
    ensures
        kind == scheme_kind(code),
{
    if code == 0x68_74_74_70 {
        SchemeKind::Http
    } else if code == 0x68_74_74_70_73 || code == 0x77_73 || code == 0x77_73_73 || code
        == 0x66_74_70 || code == 0x67_6f_70_68_65_72 {
        SchemeKind::Special
    } else if code == 0x66_69_6c_65 {
        SchemeKind::File
    } else {
        SchemeKind::Other
    }
}

/// Whether `text` may be handed to the parser.
pub fn text_fits(text: &str) -> (light: bool)
    ensures
        light == fits(text@),
{
    let mut scan = Scan::new();
    let mut chars = text.chars();
    loop
        invariant
            scan.wf(),
            Scan::start().run(text@) == scan.run(chars.remaining()),
            chars.decrease() is Some,
        ensures
            Scan::start().run(text@) == scan,
        decreases chars.decrease()->0,
    {
        if scan.stage == Stage::Rest {
            proof {
                lemma_rest_is_final(scan, chars.remaining());
            }
            break ;
        }
        let ghost before = chars.remaining();
        match chars.next() {
            Some(c) => {
                assert(scan.run(before) == scan.step(c).run(before.drop_first()));
                scan = scan.advance(c);
            },
            None => {
                assert(scan.run(before) == scan);
                break ;
            },
        }
    }
    !scan.over
}

/// Whether `text` begins or ends with a space.
pub fn text_has_outer_space(text: &str) -> (found: bool)
    ensures
        found == has_outer_space(text@),
{
    let n: usize = text.unicode_len();
    if n == 0 {
        return false;
    }
    text.get_char(0) == ' ' || text.get_char(n - 1) == ' '
}

} // verus!
