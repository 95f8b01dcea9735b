//! Link patterns and URI handling for text printed in a terminal.
//!
//! Five regular expressions decide what a candidate is; the first that matches
//! wins. The kind then decides which scheme the candidate gains when it is
//! opened, whether it may be opened at all, and what copying it yields.

use vstd::prelude::*;
use vstd::string::StringSliceAdditionalSpecFns;

pub mod patterns;
pub mod pcre;

pub use self::patterns::{EMAIL, NEWS_MAN, URL_AS_IS, URL_FILE, URL_HTTP};
use self::pcre::{compile_failure_code, compile_pattern, match_result, pattern_matches};

verus! {

/// The scheme a matched link belongs to.
#[derive(Clone, Copy, Debug, PartialEq, Eq, Structural)]
pub enum LinkKind {
    /// The candidate is already a complete URI.
    FullHttp,
    /// The candidate is a host name that needs an `http` scheme.
    Http,
    /// The candidate is a mail address.
    Email,
    /// The candidate is a `file:` URI.
    File,
}

/// One entry of the pattern table, in the order the terminal registers them.
#[derive(Clone, Copy, Debug)]
pub struct LinkPattern {
    /// The pattern text.
    pub pattern: &'static str,
    /// The scheme handling that applies to a match.
    pub kind: LinkKind,
}

/// The number of registered patterns.
pub const PATTERN_COUNT: usize = 5;

/// The position of the only pattern without the shared definitions.
pub const NEWS_MAN_INDEX: usize = 4;

/// The scheme prefix of a mail address.
pub const MAILTO: &'static str = "mailto:";

/// The text of the pattern at position `k` of the table.
pub open spec fn pattern_source(k: int) -> Seq<char> {
    if k == 0 {
        URL_AS_IS@
    } else if k == 1 {
        URL_HTTP@
    } else if k == 2 {
        URL_FILE@
    } else if k == 3 {
        EMAIL@
    } else {
        NEWS_MAN@
    }
}

/// The kind of the pattern at position `k` of the table.
pub open spec fn pattern_kind(k: int) -> LinkKind {
    if k == 0 {
        LinkKind::FullHttp
    } else if k == 1 {
        LinkKind::Http
    } else if k == 2 {
        LinkKind::File
    } else if k == 3 {
        LinkKind::Email
    } else {
        LinkKind::FullHttp
    }
}

/// Whether `entry` is the entry at position `k` of the table.
pub open spec fn is_table_entry(entry: LinkPattern, k: int) -> bool {
    entry.pattern@ == pattern_source(k) && entry.kind == pattern_kind(k)
}

fn pattern_at(k: usize) -> (entry: LinkPattern)
    requires
        k < PATTERN_COUNT,
    ensures
        is_table_entry(entry, k as int),
{
    if k == 0 {
        LinkPattern { pattern: URL_AS_IS, kind: LinkKind::FullHttp }
    } else if k == 1 {
        LinkPattern { pattern: URL_HTTP, kind: LinkKind::Http }
    } else if k == 2 {
        LinkPattern { pattern: URL_FILE, kind: LinkKind::File }
    } else if k == 3 {
        LinkPattern { pattern: EMAIL, kind: LinkKind::Email }
    } else {
        LinkPattern { pattern: NEWS_MAN, kind: LinkKind::FullHttp }
    }
}

/// Returns the registered patterns. Earlier entries win when several match.
pub fn patterns() -> (table: Vec<LinkPattern>)
    ensures
        table@.len() == PATTERN_COUNT,
        forall|k: int| 0 <= k < PATTERN_COUNT ==> is_table_entry(#[trigger] table@[k], k),
{
    let mut table: Vec<LinkPattern> = Vec::new();
    let mut k: usize = 0;
    while k < PATTERN_COUNT
        invariant
            k <= PATTERN_COUNT,
            table@.len() == k,
            forall|j: int| 0 <= j < k ==> is_table_entry(#[trigger] table@[j], j),
        decreases PATTERN_COUNT - k,
    {
        table.push(pattern_at(k));
        k = k + 1;
    }
    table
}

/// Returns the name the parity comparison prints for a classification.
pub open spec fn kind_label(kind: Option<LinkKind>) -> &'static str {
    match kind {
        None => "none",
        Some(LinkKind::FullHttp) => "full-http",
        Some(LinkKind::Http) => "http",
        Some(LinkKind::Email) => "email",
        Some(LinkKind::File) => "file",
    }
}

/// Returns the name the parity comparison prints for a classification.
pub fn kind_name(kind: Option<LinkKind>) -> (name: &'static str)
    ensures
        name == kind_label(kind),
{
    match kind {
        None => "none",
        Some(LinkKind::FullHttp) => "full-http",
        Some(LinkKind::Http) => "http",
        Some(LinkKind::Email) => "email",
        Some(LinkKind::File) => "file",
    }
}

/// The failures among the first `n` compile outcomes, each with its
/// position, in order.
pub open spec fn failures_among(outcomes: Seq<Option<i32>>, n: int) -> Seq<(usize, i32)>
    decreases n,
{
    if n <= 0 {
        Seq::empty()
    } else {
        failures_among(outcomes, n - 1) + match outcomes[n - 1] {
            Some(code) => seq![((n - 1) as usize, code)],
            None => Seq::empty(),
        }
    }
}

/// What compiling each pattern of the table reports, in table order.
pub open spec fn compile_outcomes() -> Seq<Option<i32>> {
    Seq::new(PATTERN_COUNT as nat, |k: int| compile_failure_code(pattern_source(k)))
}

/// Lists the failures among compile outcomes given in table order, each with
/// its position.
pub fn failures_of(outcomes: &[Option<i32>]) -> (errors: Vec<(usize, i32)>)
    ensures
        errors@ == failures_among(outcomes@, outcomes@.len() as int),
{
    let mut errors: Vec<(usize, i32)> = Vec::new();
    let mut k: usize = 0;
    while k < outcomes.len()
        invariant
            k <= outcomes@.len(),
            errors@ == failures_among(outcomes@, k as int),
        decreases outcomes@.len() - k,
    {
        match outcomes[k] {
            Some(code) => {
                errors.push((k, code));
            },
            None => {},
        }
        k = k + 1;
        assert(errors@ =~= failures_among(outcomes@, k as int));
    }
    errors
}

/// Returns the PCRE2 error number of every pattern that failed to compile.
///
/// A pattern that cannot be compiled is skipped when classifying, so a
/// classification stays possible even then. An empty result means all
/// patterns are available.
pub fn compile_errors() -> (errors: Vec<(usize, i32)>)
    ensures
        errors@ == failures_among(compile_outcomes(), PATTERN_COUNT as int),
{
    let ghost expected = compile_outcomes();
    let mut outcomes: Vec<Option<i32>> = Vec::new();
    let mut k: usize = 0;
    while k < PATTERN_COUNT
        invariant
            k <= PATTERN_COUNT,
            expected == compile_outcomes(),
            outcomes@ =~= expected.take(k as int),
        decreases PATTERN_COUNT - k,
    {
        let entry = pattern_at(k);
        let outcome = match compile_pattern(entry.pattern) {
            Ok(_) => None,
            Err(code) => Some(code),
        };
        outcomes.push(outcome);
        k = k + 1;
    }
    assert(outcomes@ =~= expected);
    failures_of(outcomes.as_slice())
}

/// Whether the pattern at position `k` compiles and matches somewhere in the
/// subject.
pub open spec fn pattern_hit(k: int, subject: Seq<u8>) -> bool {
    &&& compile_failure_code(pattern_source(k)) is None
    &&& match_result(pattern_source(k), subject) == Ok::<bool, i32>(true)
}

/// The kind of the first hit among the first `n` entries of `hits`.
pub open spec fn first_kind(hits: Seq<bool>, n: int) -> Option<LinkKind>
    decreases n,
{
    if n <= 0 {
        None
    } else {
        match first_kind(hits, n - 1) {
            Some(kind) => Some(kind),
            None => if hits[n - 1] { Some(pattern_kind(n - 1)) } else { None },
        }
    }
}

/// What the table makes of a subject: the kind of the first pattern that hits.
pub open spec fn classification(subject: Seq<u8>) -> Option<LinkKind> {
    first_kind(Seq::new(PATTERN_COUNT as nat, |k: int| pattern_hit(k, subject)), PATTERN_COUNT as int)
}

/// Picks the kind of the first pattern that matched, given for each pattern
/// of the table in order whether it matched; entries past the table are
/// ignored.
pub fn first_matching_kind(hits: &[bool]) -> (kind: Option<LinkKind>)
    ensures
        kind == first_kind(hits@, if hits@.len() < PATTERN_COUNT { hits@.len() as int } else { PATTERN_COUNT as int }),
{
    let n: usize = if hits.len() < PATTERN_COUNT { hits.len() } else { PATTERN_COUNT };
    let mut k: usize = 0;
    while k < n
        invariant
            n == (if hits@.len() < PATTERN_COUNT { hits@.len() } else { PATTERN_COUNT as nat }),
            k <= n,
            first_kind(hits@, k as int) is None,
        decreases n - k,
    {
        if hits[k] {
            let entry = pattern_at(k);
            assert(first_kind(hits@, k + 1) == Some(pattern_kind(k as int)));
            proof { lemma_first_kind_settled(hits@, k + 1, n as int); }
            assert(n as int == (if hits@.len() < PATTERN_COUNT { hits@.len() as int } else { PATTERN_COUNT as int }));
            assert(first_kind(hits@, n as int) == Some(entry.kind));
            return Some(entry.kind);
        }
        k = k + 1;
    }
    None
}

/// Once a hit is found, later entries do not change the answer.
proof fn lemma_first_kind_settled(hits: Seq<bool>, m: int, n: int)
    requires
        0 <= m <= n,
        first_kind(hits, m) is Some,
    ensures
        first_kind(hits, n) == first_kind(hits, m),
    decreases n - m,
{
    if m < n {
        lemma_first_kind_settled(hits, m, n - 1);
    }
}

/// Classifies a candidate by the first pattern that matches it.
///
/// A match may start anywhere in the candidate. A pattern that cannot be
/// compiled or that fails to run is skipped, so classification falls through
/// to the following pattern.
pub fn classify(candidate: &str) -> (kind: Option<LinkKind>)
    ensures
        kind == classification(candidate.spec_bytes()),
{
    let subject = candidate.as_bytes();
    let ghost expected = Seq::new(PATTERN_COUNT as nat, |k: int| pattern_hit(k, subject@));
    let mut hits: Vec<bool> = Vec::new();
    let mut k: usize = 0;
    while k < PATTERN_COUNT
        invariant
            k <= PATTERN_COUNT,
            subject@ == candidate.spec_bytes(),
            expected == Seq::new(PATTERN_COUNT as nat, |k: int| pattern_hit(k, subject@)),
            hits@ =~= expected.take(k as int),
        decreases PATTERN_COUNT - k,
    {
        let entry = pattern_at(k);
        let hit = match compile_pattern(entry.pattern) {
            Err(_) => false,
            Ok(compiled) => {
                match pattern_matches(&compiled, subject) {
                    Ok(found) => found,
                    Err(_) => false,
                }
            },
        };
        hits.push(hit);
        k = k + 1;
    }
    assert(hits@ =~= expected);
    first_matching_kind(hits.as_slice())
}

/// Whether `s` begins with the characters of `prefix`.
pub open spec fn has_prefix(s: Seq<char>, prefix: Seq<char>) -> bool {
    prefix.len() <= s.len() && s.take(prefix.len() as int) == prefix
}

fn starts_with_chars(s: &str, prefix: &str) -> (r: bool)
    ensures
        r == has_prefix(s@, prefix@),
{
    let n = prefix.unicode_len();
    if n > s.unicode_len() {
        return false;
    }
    let mut i: usize = 0;
    while i < n
        invariant
            n == prefix@.len(),
            n <= s@.len(),
            i <= n,
            forall|j: int| 0 <= j < i ==> s@[j] == prefix@[j],
        decreases n - i,
    {
        if s.get_char(i) != prefix.get_char(i) {
            assert(s@.take(n as int)[i as int] != prefix@[i as int]);
            return false;
        }
        i = i + 1;
    }
    assert(s@.take(n as int) =~= prefix@);
    true
}

/// The URI a candidate opens with, or the message reported when it cannot be
/// opened.
pub open spec fn launch_target(candidate: Seq<char>, kind: Option<LinkKind>) -> Result<Seq<char>, Seq<char>> {
    match kind {
        Some(LinkKind::FullHttp) | Some(LinkKind::File) => Ok(candidate),
        Some(LinkKind::Http) => Ok("http://"@ + candidate),
        Some(LinkKind::Email) => if has_prefix(candidate, MAILTO@) {
            Ok(candidate)
        } else {
            Ok(MAILTO@ + candidate)
        },
        None => Err("Invalid tag specified while trying to open link \""@ + candidate + "\"."@),
    }
}

/// Returns the URI a candidate opens with, adding the scheme its kind implies.
///
/// A candidate without a classification cannot be opened; the error is the
/// message the terminal logs in that case. The mail prefix test is case
/// sensitive.
pub fn launch_uri(candidate: &str, kind: Option<LinkKind>) -> (uri: Result<String, String>)
    ensures
        match uri {
            Ok(s) => launch_target(candidate@, kind) == Ok::<Seq<char>, Seq<char>>(s@),
            Err(s) => launch_target(candidate@, kind) == Err::<Seq<char>, Seq<char>>(s@),
        },
{
    match kind {
        Some(LinkKind::FullHttp) | Some(LinkKind::File) => Ok(String::from_str(candidate)),
        Some(LinkKind::Http) => {
            let mut uri = String::from_str("http://");
            uri.append(candidate);
            Ok(uri)
        },
        Some(LinkKind::Email) => {
            if starts_with_chars(candidate, MAILTO) {
                Ok(String::from_str(candidate))
            } else {
                let mut uri = String::from_str(MAILTO);
                uri.append(candidate);
                Ok(uri)
            }
        },
        None => {
            let mut message = String::from_str("Invalid tag specified while trying to open link \"");
            message.append(candidate);
            message.append("\".");
            Err(message)
        },
    }
}

/// The text copying a candidate yields: the candidate without a leading
/// `mailto:`.
pub open spec fn copied_text(candidate: Seq<char>) -> Seq<char> {
    if has_prefix(candidate, MAILTO@) {
        candidate.skip(MAILTO@.len() as int)
    } else {
        candidate
    }
}

/// Returns the text that copying a link puts on the clipboard.
///
/// The mail scheme is dropped so that an address can be pasted into a mail
/// client. The comparison is case sensitive.
pub fn clipboard_text(candidate: &str) -> (text: &str)
    ensures
        text@ == copied_text(candidate@),
{
    if starts_with_chars(candidate, MAILTO) {
        let n = MAILTO.unicode_len();
        let len = candidate.unicode_len();
        candidate.substring_char(n, len)
    } else {
        candidate
    }
}

/// ASCII lower case of one byte.
pub open spec fn lower_byte(b: u8) -> u8 {
    if 65 <= b <= 90 { (b + 32) as u8 } else { b }
}

/// Whether two byte strings are equal once ASCII letters are folded to lower
/// case.
pub open spec fn equal_ignoring_ascii_case(a: Seq<u8>, b: Seq<u8>) -> bool {
    a.len() == b.len() && forall|i: int| 0 <= i < a.len() ==> lower_byte(a[i]) == lower_byte(b[i])
}

fn eq_ignore_ascii_case(a: &[u8], b: &[u8]) -> (r: bool)
    ensures
        r == equal_ignoring_ascii_case(a@, b@),
{
    if a.len() != b.len() {
        return false;
    }
    let mut i: usize = 0;
    while i < a.len()
        invariant
            a@.len() == b@.len(),
            i <= a@.len(),
            forall|j: int| 0 <= j < i ==> lower_byte(a@[j]) == lower_byte(b@[j]),
        decreases a@.len() - i,
    {
        let x: u8 = if 65 <= a[i] && a[i] <= 90 { a[i] + 32 } else { a[i] };
        let y: u8 = if 65 <= b[i] && b[i] <= 90 { b[i] + 32 } else { b[i] };
        if x != y {
            return false;
        }
        i = i + 1;
    }
    true
}

/// Whether a link may be opened: only a `file:` URI whose host names
/// another machine may not.
pub open spec fn clickable(kind: Option<LinkKind>, uri_host: Option<Seq<u8>>, host_name: Seq<u8>) -> bool {
    kind != Some(LinkKind::File) || match uri_host {
        None => true,
        Some(host) => equal_ignoring_ascii_case(host, "localhost".spec_bytes())
            || equal_ignoring_ascii_case(host, host_name),
    }
}

/// Reports whether a link may be opened.
///
/// Only a `file:` URI is restricted: it has to name this host so that a path
/// from another machine is not opened locally. `uri_host` is the host the URI
/// names as GLib's `g_filename_from_uri` reports it, whether or not the path
/// could be converted (`None` when it names none, as `file:///path` does);
/// `host_name` is this machine's name. A host is compared without regard to
/// ASCII case.
pub fn is_clickable(kind: Option<LinkKind>, uri_host: Option<&str>, host_name: &str) -> (r: bool)
    ensures
        r == clickable(
            kind,
            match uri_host {
                Some(h) => Some(h.spec_bytes()),
                None => None,
            },
            host_name.spec_bytes(),
        ),
{
    match kind {
        Some(LinkKind::File) => {},
        _ => {
            return true;
        },
    }
    match uri_host {
        None => true,
        Some(host) => eq_ignore_ascii_case(host.as_bytes(), "localhost".as_bytes())
            || eq_ignore_ascii_case(host.as_bytes(), host_name.as_bytes()),
    }
}


/// The first pattern that hits decides: a candidate is classified as the kind
/// of some pattern that compiles and matches it, and no earlier pattern does;
/// a candidate no pattern hits has no classification.
pub proof fn lemma_first_match_wins(subject: Seq<u8>)
    ensures
        match classification(subject) {
            Some(kind) => exists|k: int|
                0 <= k < PATTERN_COUNT && #[trigger] pattern_hit(k, subject) && pattern_kind(k) == kind
                    && forall|j: int| 0 <= j < k ==> !pattern_hit(j, subject),
            None => forall|k: int| 0 <= k < PATTERN_COUNT ==> !pattern_hit(k, subject),
        },
{
    let hits = Seq::new(PATTERN_COUNT as nat, |k: int| pattern_hit(k, subject));
    lemma_first_kind_characterized(hits, PATTERN_COUNT as int);
    match classification(subject) {
        Some(kind) => {
            let k = choose|k: int| 0 <= k < PATTERN_COUNT && hits[k] && pattern_kind(k) == kind
                && forall|j: int| 0 <= j < k ==> !hits[j];
            assert(hits[k] == pattern_hit(k, subject));
            assert forall|j: int| 0 <= j < k implies !pattern_hit(j, subject) by {
                assert(hits[j] == pattern_hit(j, subject));
            }
        },
        None => {
            assert forall|k: int| 0 <= k < PATTERN_COUNT implies !pattern_hit(k, subject) by {
                assert(hits[k] == pattern_hit(k, subject));
            }
        },
    }
}

proof fn lemma_first_kind_characterized(hits: Seq<bool>, n: int)
    requires
        0 <= n <= hits.len(),
    ensures
        match first_kind(hits, n) {
            Some(kind) => exists|k: int| 0 <= k < n && hits[k] && pattern_kind(k) == kind
                && forall|j: int| 0 <= j < k ==> !hits[j],
            None => forall|k: int| 0 <= k < n ==> !hits[k],
        },
    decreases n,
{
    if n > 0 {
        lemma_first_kind_characterized(hits, n - 1);
        match first_kind(hits, n - 1) {
            Some(kind) => {
                let k = choose|k: int| 0 <= k < n - 1 && hits[k] && pattern_kind(k) == kind
                    && forall|j: int| 0 <= j < k ==> !hits[j];
                assert(0 <= k < n && hits[k] && pattern_kind(k) == kind);
            },
            None => {
                if hits[n - 1] {
                    assert(0 <= n - 1 < n && hits[n - 1] && pattern_kind(n - 1) == pattern_kind(n - 1));
                }
            },
        }
    }
}

/// A candidate opens exactly when it has a classification.
pub proof fn lemma_launch_needs_a_kind(candidate: Seq<char>, kind: Option<LinkKind>)
    ensures
        launch_target(candidate, kind) is Ok <==> kind is Some,
{
}

/// A mail address always opens with the mail scheme in front.
pub proof fn lemma_mail_opens_with_mailto(candidate: Seq<char>)
    ensures
        launch_target(candidate, Some(LinkKind::Email)) matches Ok(uri) && has_prefix(uri, MAILTO@),
{
    if !has_prefix(candidate, MAILTO@) {
        assert((MAILTO@ + candidate).take(MAILTO@.len() as int) =~= MAILTO@);
    }
}

/// Copying the URI a mail address opens with yields what copying the address
/// itself yields: the prefix the launch adds is the one the copy drops.
pub proof fn lemma_copy_undoes_mail_prefix(candidate: Seq<char>)
    ensures
        launch_target(candidate, Some(LinkKind::Email)) matches Ok(uri) && copied_text(uri) == copied_text(candidate),
{
    if !has_prefix(candidate, MAILTO@) {
        let uri = MAILTO@ + candidate;
        assert(uri.take(MAILTO@.len() as int) =~= MAILTO@);
        assert(uri.skip(MAILTO@.len() as int) =~= candidate);
    }
}

/// Only a `file:` link can be refused; any other kind, and no kind at all,
/// may be opened whatever the hosts.
pub proof fn lemma_only_file_links_are_restricted(
    kind: Option<LinkKind>,
    uri_host: Option<Seq<u8>>,
    host_name: Seq<u8>,
)
    ensures
        kind != Some(LinkKind::File) ==> clickable(kind, uri_host, host_name),
        uri_host is None ==> clickable(kind, uri_host, host_name),
{
}

} // verus!
