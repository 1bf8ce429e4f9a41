//! Normalization of user-supplied settings and the persistent client identity.

use vstd::prelude::*;

use crate::constants::{DEFAULT_CLIENT_NAME, DEFAULT_SERVER_PATH, MAX_CLIENT_NAME_CHARS};
use crate::text::{contains_text, joined, same_text, starts_with, strip_leading, trim};

verus! {

// ---------------------------------------------------------------------------
// Client name

/// The client name that `raw` stands for: its trimmed text, cut to the longest
/// name allowed; none where that text is empty.
pub open spec fn client_name(raw: Seq<char>) -> Option<Seq<char>> {
    let text = crate::text::trimmed(raw);
    if text.len() == 0 {
        None
    } else if text.len() <= MAX_CLIENT_NAME_CHARS {
        Some(text)
    } else {
        Some(text.take(MAX_CLIENT_NAME_CHARS as int))
    }
}

/// The text of an optional string.
pub open spec fn opt_text(text: Option<String>) -> Option<Seq<char>> {
    match text {
        Some(t) => Some(t@),
        None => None,
    }
}

/// The text of an optional string slice.
pub open spec fn opt_str(text: Option<&str>) -> Option<Seq<char>> {
    match text {
        Some(t) => Some(t@),
        None => None,
    }
}

/// Trims `raw` and bounds its length, so that the name stays short and readable
/// on the wire; `None` where nothing is left.
pub fn normalize_client_name(raw: &str) -> (r: Option<String>)
    ensures
        opt_text(r) == client_name(raw@),
{
    let trimmed = trim(raw);
    let chars = trimmed.unicode_len();
    if chars == 0 {
        return None;
    }
    if chars <= MAX_CLIENT_NAME_CHARS {
        Some(trimmed.to_owned())
    } else {
        assert(trimmed@.subrange(0, MAX_CLIENT_NAME_CHARS as int) =~= trimmed@.take(
            MAX_CLIENT_NAME_CHARS as int,
        ));
        Some(trimmed.substring_char(0, MAX_CLIENT_NAME_CHARS).to_owned())
    }
}

/// The name a client goes by when the user chose none and the environment
/// variable `SENDSPIN_CLIENT_NAME` holds `from_environment`.
pub open spec fn fallback_client_name(from_environment: Option<Seq<char>>) -> Seq<char> {
    match from_environment {
        Some(value) => match client_name(value) {
            Some(name) => name,
            None => DEFAULT_CLIENT_NAME@,
        },
        None => DEFAULT_CLIENT_NAME@,
    }
}

/// The client name used when the user chose none; `from_environment` is the value
/// of `SENDSPIN_CLIENT_NAME`, where it is set.
pub fn default_client_name(from_environment: Option<&str>) -> (r: String)
    ensures
        r@ == fallback_client_name(opt_str(from_environment)),
{
    if let Some(value) = from_environment {
        if let Some(normalized) = normalize_client_name(value) {
            return normalized;
        }
    }
    DEFAULT_CLIENT_NAME.to_owned()
}

/// A normalized name is never blank and never longer than allowed, and starts
/// with a visible character.
pub proof fn law_client_name_is_bounded(raw: Seq<char>)
    ensures
        client_name(raw) matches Some(name) ==> 0 < name.len() <= MAX_CLIENT_NAME_CHARS
            && !crate::text::is_white_space(name[0]),
{
    crate::text::lemma_trimmed_is_trimmed(raw);
}

/// Normalizing a normalized name again changes nothing, unless cutting the name to
/// its longest form left white space at its end.
pub proof fn law_client_name_is_stable(raw: Seq<char>)
    requires
        client_name(raw) matches Some(name) ==> !crate::text::is_white_space(name.last()),
    ensures
        client_name(raw) matches Some(name) ==> client_name(name) == Some(name),
{
    crate::text::lemma_trimmed_is_trimmed(raw);
    if let Some(name) = client_name(raw) {
        crate::text::lemma_trimmed_without_space(name);
    }
}

// ---------------------------------------------------------------------------
// Server URL

/// What the library reads of a parsed URL.
pub struct UrlParts {
    pub scheme: String,
    pub host: Option<String>,
    pub path: String,
    pub text: String,
}

/// The components of a parsed URL: its scheme, host and path, and the text it is
/// written as.
pub struct UrlComponents {
    pub scheme: Seq<char>,
    pub host: Option<Seq<char>>,
    pub path: Seq<char>,
    pub text: Seq<char>,
}

impl View for UrlParts {
    type V = UrlComponents;

    open spec fn view(&self) -> UrlComponents {
        UrlComponents {
            scheme: self.scheme@,
            host: opt_text(self.host),
            path: self.path@,
            text: self.text@,
        }
    }
}

/// The optional components of an optional parsed URL.
pub open spec fn opt_components(parts: Option<UrlParts>) -> Option<UrlComponents> {
    match parts {
        Some(p) => Some(p@),
        None => None,
    }
}

/// What `url::Url::parse` makes of a text: the components of the URL, or `None`
/// where it reports an error.
pub uninterp spec fn parsed_url(text: Seq<char>) -> Option<UrlComponents>;

/// The text that `url::Url::set_path` leaves of the URL written as `text`, when
/// it is given `path`.
pub uninterp spec fn url_with_path(text: Seq<char>, path: Seq<char>) -> Seq<char>;

/// A WebSocket URL with a host.
pub open spec fn is_websocket(url: UrlComponents) -> bool {
    (url.scheme == "ws"@ || url.scheme == "wss"@) && url.host is Some
}

/// A URL as it is written: its text starts with its scheme and holds no white space.
pub open spec fn is_written(url: UrlComponents) -> bool {
    &&& (url.scheme + "://"@).is_prefix_of(url.text)
    &&& forall|i: int| 0 <= i < url.text.len() ==> !crate::text::is_white_space(url.text[i])
}

/// Whether a text is short enough for the parser, which counts its characters in 32-bit
/// signed numbers.
pub open spec fn is_parsable(text: Seq<char>) -> bool {
    text.len() <= i32::MAX
}

/// A URL in its final form: its text is parsed into the very same components.
pub open spec fn is_settled(url: UrlComponents) -> bool {
    is_written(url) && is_parsable(url.text) && parsed_url(url.text) == Some(url)
}

/// Whether a host has a label at `at` that begins with `xn--` and is longer than 2004
/// characters.
pub open spec fn has_overlong_label_at(host: Seq<char>, at: int) -> bool {
    &&& 0 <= at
    &&& at + 2_005 <= host.len()
    &&& at == 0 || host[at - 1] == '.'
    &&& host.subrange(at, at + 4) == "xn--"@
    &&& !host.subrange(at, at + 2_005).contains('.')
}

/// Whether the parser reads the host again that it has written. It reads a label of up
/// to 2000 Punycode digits behind `xn--`, and writes longer ones for hosts in other
/// scripts.
pub open spec fn has_readable_host(url: UrlComponents) -> bool {
    url.host matches Some(host) ==> forall|at: int| !#[trigger] has_overlong_label_at(host, at)
}

/// Whether the parser reads again the URL that it has written.
pub open spec fn is_readable(url: UrlComponents) -> bool {
    has_readable_host(url) && is_parsable(url.text)
}

/// A path of one segment of lower-case ASCII letters.
pub open spec fn is_plain_path(path: Seq<char>) -> bool {
    &&& path.len() > 1
    &&& path[0] == '/'
    &&& forall|i: int| 1 <= i < path.len() ==> 'a' <= #[trigger] path[i] <= 'z'
}

/// Calls `url::Url::parse` and reads the URL's scheme, host, path and text.
///
/// Claimed: the outcome depends on the text alone. A text that begins with `ws://` or
/// `wss://` has that scheme, and one that is no more than that has no host and is an
/// error. A WebSocket URL with a host is written, by its `Display`, as its scheme,
/// `://` and the rest, without white space, since the parser percent-encodes or drops
/// it everywhere. Where neither the text nor a label of the host is too long to be
/// read, that text is parsed back into the same components, as the crate's own
/// `check_invariants` tests. What else the parser makes of a given text is left to the
/// name `parsed_url`. The bound keeps the parser's count of characters, a 32-bit signed
/// number, from overflowing.
#[verifier::external_body]
fn parse_url(text: &str) -> (r: Option<UrlParts>)
    requires
        is_parsable(text@),
    ensures
        opt_components(r) == parsed_url(text@),
        r matches Some(parts) ==> is_websocket(parts@) ==> is_written(parts@),
        r matches Some(parts) ==> is_websocket(parts@) && is_readable(parts@) ==> is_settled(
            parts@,
        ),
        text@ == "ws://"@ || text@ == "wss://"@ ==> r is None,
        r matches Some(parts) ==> "ws://"@.is_prefix_of(text@) ==> parts@.scheme == "ws"@,
        r matches Some(parts) ==> "wss://"@.is_prefix_of(text@) ==> parts@.scheme == "wss"@,
{
    match url::Url::parse(text) {
        Ok(url) => Some(UrlParts {
            scheme: url.scheme().to_string(),
            host: url.host_str().map(str::to_string),
            path: url.path().to_string(),
            text: url.to_string(),
        }),
        Err(_) => None,
    }
}

/// Calls `url::Url::set_path` on the URL that `url::Url::parse` makes of `text`.
///
/// Claimed: the outcome depends on the two texts alone, and a path of plain letters is
/// taken over as it is, the scheme and the host staying as they were. The text is
/// written, and read back, as after `url::Url::parse`. The bounds keep the parser's
/// count of characters and the URL's offsets, which are 32-bit numbers, from
/// overflowing.
#[verifier::external_body]
fn set_url_path(text: &str, path: &str) -> (r: String)
    requires
        is_parsable(text@),
        parsed_url(text@) matches Some(url) && is_websocket(url) && url.text.len() + path@.len()
            <= u32::MAX,
        is_plain_path(path@),
    ensures
        r@ == url_with_path(text@, path@),
        is_written((UrlComponents { path: path@, text: r@, ..parsed_url(text@).unwrap() })),
        has_readable_host(parsed_url(text@).unwrap()) && is_parsable(r@) ==> is_settled(
            (UrlComponents { path: path@, text: r@, ..parsed_url(text@).unwrap() }),
        ),
{
    let mut url = url::Url::parse(text).unwrap();
    url.set_path(path);
    url.to_string()
}

/// What becomes of a parsed URL.
pub enum UrlVerdict {
    /// It is no WebSocket URL with a host.
    Reject,
    /// It is used as it is written.
    Keep,
    /// It names no path, and gets the default one.
    AddDefaultPath,
}

/// The verdict on a parsed URL.
pub open spec fn url_verdict(url: UrlComponents) -> UrlVerdict {
    if !is_websocket(url) {
        UrlVerdict::Reject
    } else if url.path.len() == 0 || url.path == "/"@ {
        UrlVerdict::AddDefaultPath
    } else {
        UrlVerdict::Keep
    }
}

/// Decides what becomes of a parsed URL.
pub fn judge_url(parts: &UrlParts) -> (r: UrlVerdict)
    ensures
        r == url_verdict(parts@),
{
    let websocket = same_text(&parts.scheme, "ws") || same_text(&parts.scheme, "wss");
    if !websocket || parts.host.is_none() {
        UrlVerdict::Reject
    } else if parts.path.as_str().is_empty() || same_text(&parts.path, "/") {
        UrlVerdict::AddDefaultPath
    } else {
        UrlVerdict::Keep
    }
}

/// The URL text that `raw` stands for before it is parsed: trimmed, with `ws://`
/// before a bare host, and with `http` and `https` replaced by `ws` and `wss`.
pub open spec fn url_candidate(raw: Seq<char>) -> Seq<char> {
    let text = crate::text::trimmed(raw);
    if !crate::text::occurs_in("://"@, text) {
        "ws://"@ + text
    } else if "http://"@.is_prefix_of(text) {
        "ws://"@ + crate::text::without_leading(text, "http://"@)
    } else if "https://"@.is_prefix_of(text) {
        "wss://"@ + crate::text::without_leading(text, "https://"@)
    } else {
        text
    }
}

/// The text to parse for a raw server URL.
pub fn candidate_url(raw: &str) -> (r: String)
    ensures
        r@ == url_candidate(raw@),
{
    let text = trim(raw);
    if !contains_text(text, "://") {
        joined("ws://", text)
    } else if starts_with(text, "http://") {
        joined("ws://", strip_leading(text, "http://"))
    } else if starts_with(text, "https://") {
        joined("wss://", strip_leading(text, "https://"))
    } else {
        text.to_owned()
    }
}

/// The server URL that `raw` stands for: the parsed candidate, with the default
/// path where it has none; none for blank text, for text that is no URL, and for a
/// URL that is no WebSocket URL with a host.
pub open spec fn server_url(raw: Seq<char>) -> Option<Seq<char>> {
    if crate::text::trimmed(raw).len() == 0 {
        None
    } else {
        match parsed_url(url_candidate(raw)) {
            None => None,
            Some(url) => match url_verdict(url) {
                UrlVerdict::Reject => None,
                UrlVerdict::Keep => Some(url.text),
                UrlVerdict::AddDefaultPath => Some(
                    url_with_path(url_candidate(raw), DEFAULT_SERVER_PATH@),
                ),
            },
        }
    }
}

/// The components of the URL that `candidate` is turned into when it is written as
/// `text`: its own, with the default path where it names none.
pub open spec fn with_default_path(candidate: Seq<char>, text: Seq<char>) -> UrlComponents {
    let url = parsed_url(candidate)->0;
    UrlComponents {
        path: if url_verdict(url) == UrlVerdict::AddDefaultPath {
            DEFAULT_SERVER_PATH@
        } else {
            url.path
        },
        text,
        ..url
    }
}

/// Whether the URL that `raw` stands for can be read again.
pub open spec fn reads_back(raw: Seq<char>) -> bool {
    &&& parsed_url(url_candidate(raw)) matches Some(url) ==> has_readable_host(url)
    &&& server_url(raw) matches Some(text) ==> is_parsable(text)
}

/// A URL to connect to, and the candidate that it came from: it keeps its scheme,
/// `ws://` or `wss://`, and, where it can be read again, is parsed into the candidate's
/// components, with the default path where those name none.
pub open spec fn comes_from(url: Seq<char>, candidate: Seq<char>) -> bool {
    &&& has_readable_host(parsed_url(candidate)->0) && is_parsable(url) ==> parsed_url(url) == Some(
        with_default_path(candidate, url),
    )
    &&& "ws://"@.is_prefix_of(candidate) ==> "ws://"@.is_prefix_of(url)
    &&& "wss://"@.is_prefix_of(candidate) ==> "wss://"@.is_prefix_of(url)
}

/// Whether `raw` is short enough for the parser, and the default path, where `raw` needs
/// it, fits in the 32-bit offsets of a parsed URL.
pub open spec fn url_fits(raw: Seq<char>) -> bool {
    crate::text::trimmed(raw).len() > 0 ==> {
        &&& is_parsable(url_candidate(raw))
        &&& parsed_url(url_candidate(raw)) matches Some(url) ==> url_verdict(url)
            == UrlVerdict::AddDefaultPath ==> url.text.len() + DEFAULT_SERVER_PATH@.len()
            <= u32::MAX
    }
}

/// Text that begins with a `w` has no HTTP scheme.
proof fn lemma_no_http_scheme(text: Seq<char>)
    requires
        text.len() > 0,
        text[0] == 'w',
    ensures
        !"http://"@.is_prefix_of(text),
        !"https://"@.is_prefix_of(text),
{
    reveal_strlit("http://");
    reveal_strlit("https://");
    if "http://"@.is_prefix_of(text) {
        assert("http://"@[0] == text.subrange(0, "http://"@.len() as int)[0]);
    }
    if "https://"@.is_prefix_of(text) {
        assert("https://"@[0] == text.subrange(0, "https://"@.len() as int)[0]);
    }
}

/// The text of a written WebSocket URL is its own candidate and begins with its scheme.
/// Where it is settled and names a path, it stands for itself.
proof fn lemma_written_url(url: UrlComponents)
    requires
        is_websocket(url),
        is_written(url),
        url_verdict(url) == UrlVerdict::Keep,
    ensures
        is_settled(url) ==> server_url(url.text) == Some(url.text) && url_fits(url.text),
        url.scheme == "ws"@ ==> "ws://"@.is_prefix_of(url.text),
        url.scheme == "wss"@ ==> "wss://"@.is_prefix_of(url.text),
{
    let text = url.text;
    let head = url.scheme + "://"@;
    reveal_strlit("ws://");
    reveal_strlit("wss://");
    assert("ws"@ + "://"@ =~= "ws://"@ && "wss"@ + "://"@ =~= "wss://"@) by {
        reveal_strlit("ws");
        reveal_strlit("wss");
        reveal_strlit("://");
    }
    reveal_strlit("ws");
    reveal_strlit("wss");
    reveal_strlit("://");
    assert(head.len() >= 5);
    assert(text.subrange(0, head.len() as int) == head);
    assert(text[0] == head[0] && head[0] == 'w');
    crate::text::lemma_trimmed_without_space(text);
    let at = url.scheme.len() as int;
    assert(text.subrange(at, at + "://"@.len()) =~= "://"@) by {
        assert forall|i: int| 0 <= i < 3 implies text[at + i] == "://"@[i] by {
            assert(text[at + i] == text.subrange(0, head.len() as int)[at + i]);
            assert(head[at + i] == "://"@[i]);
        }
    }
    assert(crate::text::occurs_in("://"@, text));
    lemma_no_http_scheme(text);
    assert(url_candidate(text) == text);
}

/// The candidate's scheme: `ws://` for a bare host and in place of `http://`, `wss://`
/// in place of `https://`.
pub proof fn law_candidate_scheme(raw: Seq<char>)
    ensures
        ({
            let text = crate::text::trimmed(raw);
            &&& !crate::text::occurs_in("://"@, text) ==> "ws://"@.is_prefix_of(url_candidate(raw))
            &&& "http://"@.is_prefix_of(text) ==> "ws://"@.is_prefix_of(url_candidate(raw))
            &&& "https://"@.is_prefix_of(text) ==> "wss://"@.is_prefix_of(url_candidate(raw))
        }),
{
    reveal_strlit("://");
    reveal_strlit("http://");
    reveal_strlit("https://");
    reveal_strlit("ws://");
    reveal_strlit("wss://");
    let text = crate::text::trimmed(raw);
    if "http://"@.is_prefix_of(text) {
        lemma_scheme_holds_mark("http://"@, text);
    }
    if "https://"@.is_prefix_of(text) {
        lemma_scheme_holds_mark("https://"@, text);
        assert(text[4] == text.subrange(0, 8)[4]);
        if "http://"@.is_prefix_of(text) {
            assert("http://"@[4] == text.subrange(0, 7)[4]);
        }
    }
    let out = url_candidate(raw);
    if !crate::text::occurs_in("://"@, text) || "http://"@.is_prefix_of(text) {
        assert(out.subrange(0, 5) =~= "ws://"@);
    }
    if "https://"@.is_prefix_of(text) {
        assert(out.subrange(0, 6) =~= "wss://"@);
    }
}

/// A bare host stands for the same server as the host behind `ws://`.
pub proof fn law_bare_host_is_websocket(host: Seq<char>)
    requires
        host.len() > 0,
        crate::text::trimmed(host) == host,
        !crate::text::occurs_in("://"@, host),
    ensures
        server_url(host) == server_url("ws://"@ + host),
        usable_server_url(host) == usable_server_url("ws://"@ + host),
{
    reveal_strlit("ws://");
    crate::text::lemma_trimmed_is_trimmed(host);
    lemma_prefixed_candidate("ws://"@, host);
}

/// `http://` stands for `ws://`, unless it is given twice.
pub proof fn law_http_becomes_ws(rest: Seq<char>)
    requires
        rest.len() > 0 ==> !crate::text::is_white_space(rest.last()),
        !"http://"@.is_prefix_of(rest),
    ensures
        server_url("http://"@ + rest) == server_url("ws://"@ + rest),
        usable_server_url("http://"@ + rest) == usable_server_url("ws://"@ + rest),
{
    reveal_strlit("http://");
    reveal_strlit("ws://");
    lemma_prefixed_candidate("ws://"@, rest);
    lemma_rewritten_candidate("http://"@, rest);
}

/// `https://` stands for `wss://`, unless it is given twice.
pub proof fn law_https_becomes_wss(rest: Seq<char>)
    requires
        rest.len() > 0 ==> !crate::text::is_white_space(rest.last()),
        !"https://"@.is_prefix_of(rest),
    ensures
        server_url("https://"@ + rest) == server_url("wss://"@ + rest),
        usable_server_url("https://"@ + rest) == usable_server_url("wss://"@ + rest),
{
    reveal_strlit("https://");
    reveal_strlit("http://");
    reveal_strlit("wss://");
    lemma_prefixed_candidate("wss://"@, rest);
    lemma_rewritten_candidate("https://"@, rest);
    let text = "https://"@ + rest;
    assert(!"http://"@.is_prefix_of(text)) by {
        if "http://"@.is_prefix_of(text) {
            assert("http://"@[4] == text.subrange(0, "http://"@.len() as int)[4]);
        }
    }
}

/// All ways to write a host stand for the same server: bare, behind `ws://` and behind
/// `http://`, and, for the secure one, behind `wss://` and behind `https://`. Blank text
/// stands for no server, and so does a scheme alone, where the parser finds no host in
/// it.
pub proof fn law_forms_of_a_host_agree(rest: Seq<char>)
    requires
        crate::text::trimmed(rest) == rest,
        !crate::text::occurs_in("://"@, rest),
    ensures
        usable_server_url("http://"@ + rest) == usable_server_url("ws://"@ + rest),
        usable_server_url("https://"@ + rest) == usable_server_url("wss://"@ + rest),
        rest.len() > 0 || parsed_url("ws://"@) is None ==> usable_server_url(rest)
            == usable_server_url("ws://"@ + rest),
{
    crate::text::lemma_trimmed_is_trimmed(rest);
    assert(!"http://"@.is_prefix_of(rest)) by {
        if "http://"@.is_prefix_of(rest) {
            lemma_scheme_holds_mark("http://"@, rest);
        }
    }
    assert(!"https://"@.is_prefix_of(rest)) by {
        if "https://"@.is_prefix_of(rest) {
            lemma_scheme_holds_mark("https://"@, rest);
        }
    }
    law_http_becomes_ws(rest);
    law_https_becomes_wss(rest);
    if rest.len() > 0 {
        law_bare_host_is_websocket(rest);
    } else {
        lemma_prefixed_candidate("ws://"@, rest);
        assert("ws://"@ + rest =~= "ws://"@);
    }
}

/// Text that begins with an HTTP scheme holds `://`.
proof fn lemma_scheme_holds_mark(scheme: Seq<char>, text: Seq<char>)
    requires
        scheme == "http://"@ || scheme == "https://"@,
        scheme.is_prefix_of(text),
    ensures
        crate::text::occurs_in("://"@, text),
{
    reveal_strlit("://");
    reveal_strlit("http://");
    reveal_strlit("https://");
    let at = scheme.len() - 3;
    let head = text.subrange(0, scheme.len() as int);
    assert(head == scheme);
    assert(text.subrange(at, at + "://"@.len()) =~= head.subrange(at, scheme.len() as int));
    assert(head.subrange(at, scheme.len() as int) =~= "://"@);
}

/// Text behind a WebSocket scheme is parsed as it is.
proof fn lemma_prefixed_candidate(scheme: Seq<char>, rest: Seq<char>)
    requires
        scheme == "ws://"@ || scheme == "wss://"@,
        rest.len() > 0 ==> !crate::text::is_white_space(rest.last()),
    ensures
        url_candidate(scheme + rest) == scheme + rest,
        crate::text::trimmed(scheme + rest) == scheme + rest,
{
    reveal_strlit("ws://");
    reveal_strlit("wss://");
    reveal_strlit("://");
    let text = scheme + rest;
    crate::text::lemma_trimmed_without_space(text);
    let at = scheme.len() - 3;
    assert(text.subrange(at, at + "://"@.len()) =~= "://"@);
    assert(text[0] == 'w');
    lemma_no_http_scheme(text);
}

/// Text behind an HTTP scheme is recognized as such, and the scheme comes off once.
proof fn lemma_rewritten_candidate(scheme: Seq<char>, rest: Seq<char>)
    requires
        scheme == "http://"@ || scheme == "https://"@,
        rest.len() > 0 ==> !crate::text::is_white_space(rest.last()),
        !scheme.is_prefix_of(rest),
    ensures
        crate::text::trimmed(scheme + rest) == scheme + rest,
        crate::text::occurs_in("://"@, scheme + rest),
        scheme.is_prefix_of(scheme + rest),
        crate::text::without_leading(scheme + rest, scheme) == rest,
{
    reveal_strlit("http://");
    reveal_strlit("https://");
    reveal_strlit("://");
    let text = scheme + rest;
    crate::text::lemma_trimmed_without_space(text);
    let at = scheme.len() - 3;
    assert(text.subrange(at, at + "://"@.len()) =~= "://"@);
    assert(text.skip(scheme.len() as int) =~= rest);
    reveal_with_fuel(crate::text::without_leading, 2);
}

/// Turns a raw server URL into the WebSocket URL to connect to; `None` where it
/// stands for none. What comes out is a `ws://` or `wss://` URL and, unless it is too
/// long to be read again, stands for itself: normalizing it again changes nothing.
pub fn normalize_server_url(raw: &str) -> (r: Option<String>)
    requires
        url_fits(raw@),
    ensures
        opt_text(r) == server_url(raw@),
        r matches Some(url) ==> reads_back(raw@) ==> server_url(url@) == Some(url@) && url_fits(
            url@,
        ),
        url_candidate(raw@) == "ws://"@ || url_candidate(raw@) == "wss://"@ ==> r is None,
        r matches Some(url) ==> "ws://"@.is_prefix_of(url@) || "wss://"@.is_prefix_of(url@),
        r matches Some(url) ==> comes_from(url@, url_candidate(raw@)),
{
    if trim(raw).is_empty() {
        return None;
    }
    let candidate = candidate_url(raw);
    match parse_url(&candidate) {
        None => None,
        Some(parts) => match judge_url(&parts) {
            UrlVerdict::Reject => None,
            UrlVerdict::Keep => {
                proof {
                    lemma_written_url(parts@);
                }
                Some(parts.text)
            },
            UrlVerdict::AddDefaultPath => {
                proof {
                    reveal_strlit("/sendspin");
                    reveal_strlit("/");
                }
                let url = set_url_path(&candidate, DEFAULT_SERVER_PATH);
                proof {
                    lemma_written_url(
                        UrlComponents { path: DEFAULT_SERVER_PATH@, text: url@, ..parts@ },
                    );
                }
                Some(url)
            },
        },
    }
}

/// The server URL that `raw` stands for, where it and its default path fit.
pub open spec fn usable_server_url(raw: Seq<char>) -> Option<Seq<char>> {
    if url_fits(raw) {
        server_url(raw)
    } else {
        None
    }
}

/// Whether a text is the server URL that some raw text stands for.
pub open spec fn is_server_url(url: Seq<char>) -> bool {
    exists|raw: Seq<char>| #[trigger] usable_server_url(raw) == Some(url)
}

/// Like `normalize_server_url`, for any text: `None` also where the text or its default
/// path would not fit.
pub fn try_normalize_server_url(raw: &str) -> (r: Option<String>)
    ensures
        opt_text(r) == usable_server_url(raw@),
        r matches Some(url) ==> reads_back(raw@) ==> usable_server_url(url@) == Some(url@),
        url_candidate(raw@) == "ws://"@ || url_candidate(raw@) == "wss://"@ ==> r is None,
        r matches Some(url) ==> comes_from(url@, url_candidate(raw@)),
{
    if !trim(raw).is_empty() {
        let candidate = candidate_url(raw);
        if candidate.as_str().unicode_len() > i32::MAX as usize {
            return None;
        }
        if let Some(parts) = parse_url(&candidate) {
            if let UrlVerdict::AddDefaultPath = judge_url(&parts) {
                proof {
                    reveal_strlit("/sendspin");
                }
                let room: usize = DEFAULT_SERVER_PATH.unicode_len();
                if parts.text.as_str().unicode_len() > u32::MAX as usize - room {
                    return None;
                }
            }
        }
    }
    normalize_server_url(raw)
}

/// The client name configured for a raw one: the name it stands for, or the
/// fallback.
pub open spec fn configured_name(raw: Seq<char>, from_environment: Option<Seq<char>>) -> Seq<char> {
    match client_name(raw) {
        Some(name) => name,
        None => fallback_client_name(from_environment),
    }
}

/// The client name to configure for a raw one.
pub fn configure_client_name(raw: &str, from_environment: Option<&str>) -> (r: String)
    ensures
        r@ == configured_name(raw@, opt_str(from_environment)),
{
    match normalize_client_name(raw) {
        Some(name) => name,
        None => default_client_name(from_environment),
    }
}

/// The server URL configured for a raw one: the URL it stands for, or empty text.
pub open spec fn configured_url(raw: Seq<char>) -> Seq<char> {
    match usable_server_url(raw) {
        Some(url) => url,
        None => Seq::empty(),
    }
}

/// The server URL to configure for a raw one.
pub fn configure_server_url(raw: &str) -> (r: String)
    ensures
        r@ == configured_url(raw@),
{
    match try_normalize_server_url(raw) {
        Some(url) => url,
        None => String::new(),
    }
}

// ---------------------------------------------------------------------------
// Client identity

/// A hexadecimal digit in either case.
pub open spec fn is_hex_digit(c: char) -> bool {
    '0' <= c <= '9' || 'a' <= c <= 'f' || 'A' <= c <= 'F'
}

/// A UUID in groups of hexadecimal digits with hyphens between them.
pub open spec fn is_hyphenated_uuid(s: Seq<char>) -> bool {
    &&& s.len() == 36
    &&& forall|i: int|
        0 <= i < 36 ==> if i == 8 || i == 13 || i == 18 || i == 23 {
            #[trigger] s[i] == '-'
        } else {
            is_hex_digit(s[i])
        }
}

/// `c` in lower case, where it is an ASCII letter.
pub open spec fn ascii_lower(c: char) -> char {
    if 'A' <= c <= 'Z' {
        (c as u32 + 32) as char
    } else {
        c
    }
}

/// The texts that are read as a UUID: plain digits, hyphenated groups, and those in
/// braces or behind `urn:uuid:`.
pub open spec fn is_uuid_text(s: Seq<char>) -> bool {
    ||| s.len() == 32 && forall|i: int| 0 <= i < 32 ==> is_hex_digit(#[trigger] s[i])
    ||| is_hyphenated_uuid(s)
    ||| s.len() == 38 && s[0] == '{' && s[37] == '}' && is_hyphenated_uuid(s.subrange(1, 37))
    ||| s.len() == 45 && is_hyphenated_uuid(s.skip(9)) && forall|i: int|
        0 <= i < 9 ==> ascii_lower(#[trigger] s[i]) == "urn:uuid:"@[i]
}

/// A random UUID as it is written: hyphenated, in lower case, with the version
/// digit 4 and a variant digit of 8, 9, a or b.
pub open spec fn is_random_uuid_text(s: Seq<char>) -> bool {
    &&& is_hyphenated_uuid(s)
    &&& forall|i: int| 0 <= i < 36 ==> ascii_lower(#[trigger] s[i]) == s[i]
    &&& s[14] == '4'
    &&& s[19] == '8' || s[19] == '9' || s[19] == 'a' || s[19] == 'b'
}

/// Calls `uuid::Uuid::parse_str`; claims which texts it accepts.
#[verifier::external_body]
fn parses_as_uuid(text: &str) -> (r: bool)
    ensures
        r == is_uuid_text(text@),
{
    uuid::Uuid::parse_str(text).is_ok()
}

/// Calls `uuid::Uuid::new_v4` and writes the UUID out; claims the form of the
/// text. The digits are random. It panics where the system gives no random numbers,
/// which nothing here can rule out.
#[verifier::external_body]
fn random_uuid_text() -> (r: String)
    ensures
        is_random_uuid_text(r@),
{
    uuid::Uuid::new_v4().to_string()
}

/// The client identity kept from `existing`, the contents of the file that holds
/// it: its trimmed text, where that is a UUID.
pub open spec fn kept_client_id(existing: Option<Seq<char>>) -> Option<Seq<char>> {
    match existing {
        Some(text) => {
            let candidate = crate::text::trimmed(text);
            if is_uuid_text(candidate) {
                Some(candidate)
            } else {
                None
            }
        },
        None => None,
    }
}

/// The identity that the stored text holds, if any.
pub fn stored_client_id(existing: Option<&str>) -> (r: Option<String>)
    ensures
        opt_text(r) == kept_client_id(opt_str(existing)),
{
    match existing {
        Some(text) => {
            let candidate = trim(text);
            if parses_as_uuid(candidate) {
                Some(candidate.to_owned())
            } else {
                None
            }
        },
        None => None,
    }
}

/// The identity a client goes by.
pub struct ClientId {
    pub text: String,
    /// Whether the identity is new and is to be stored.
    pub fresh: bool,
}

/// Keeps the stored identity, or creates a random one where none is stored. Stored,
/// either is found again by the next call.
pub fn load_or_create_client_id(existing: Option<&str>) -> (r: ClientId)
    ensures
        r.fresh == (kept_client_id(opt_str(existing)) is None),
        !r.fresh ==> Some(r.text@) == kept_client_id(opt_str(existing)),
        r.fresh ==> is_random_uuid_text(r.text@),
        kept_client_id(Some(r.text@)) == Some(r.text@),
{
    match stored_client_id(existing) {
        Some(text) => {
            proof {
                crate::text::lemma_trimmed_is_trimmed(existing->0@);
            }
            ClientId { text, fresh: false }
        },
        None => {
            let text = random_uuid_text();
            proof {
                crate::text::lemma_trimmed_without_space(text@);
            }
            ClientId { text, fresh: true }
        },
    }
}

/// Where the identity is stored: the path segments below the user's configuration
/// directory, or below the working directory where there is none.
pub fn client_id_path(has_config_dir: bool) -> (r: Vec<&'static str>)
    ensures
        has_config_dir ==> r@.len() == 2 && r@[0]@ == "sendspin-vst3"@ && r@[1]@ == "client_id"@,
        !has_config_dir ==> r@.len() == 1 && r@[0]@ == "sendspin-vst3-client-id"@,
{
    if has_config_dir {
        vec!["sendspin-vst3", "client_id"]
    } else {
        vec!["sendspin-vst3-client-id"]
    }
}

// ---------------------------------------------------------------------------
// Version

/// The version that a release tag names: its trimmed text without a leading `v`; none
/// where that text is blank.
pub open spec fn tagged_version(raw: Seq<char>) -> Option<Seq<char>> {
    let text = crate::text::trimmed(raw);
    if text.len() == 0 {
        None
    } else if text[0] == 'v' {
        Some(text.drop_first())
    } else {
        Some(text)
    }
}

/// The version that a release tag names.
pub fn normalize_build_version(raw: &str) -> (r: Option<String>)
    ensures
        opt_text(r) == tagged_version(raw@),
{
    let text = trim(raw);
    if text.is_empty() {
        return None;
    }
    proof {
        reveal_strlit("v");
        if "v"@.is_prefix_of(text@) {
            assert("v"@[0] == text@.subrange(0, 1)[0]);
        }
        if text@[0] == 'v' {
            assert("v"@ =~= text@.subrange(0, 1));
        }
    }
    if starts_with(text, "v") {
        assert(text@.subrange(1, text@.len() as int) =~= text@.drop_first());
        Some(text.substring_char(1, text.unicode_len()).to_owned())
    } else {
        Some(text.to_owned())
    }
}

/// The plugin's version: that of the release it was built for, where `from_build`
/// gives its tag, and else that of the package. A blank tag is taken as it is.
pub open spec fn effective_version(
    from_build: Option<Seq<char>>,
    package_version: Seq<char>,
) -> Seq<char> {
    match from_build {
        None => package_version,
        Some(raw) => match tagged_version(raw) {
            Some(version) => version,
            None => raw,
        },
    }
}

/// The plugin's version.
pub fn plugin_version(from_build: Option<&str>, package_version: &str) -> (r: String)
    ensures
        r@ == effective_version(opt_str(from_build), package_version@),
{
    match from_build {
        None => package_version.to_owned(),
        Some(raw) => match normalize_build_version(raw) {
            Some(version) => version,
            None => raw.to_owned(),
        },
    }
}

// ---------------------------------------------------------------------------
// Laws of the settings

/// A client name is the beginning of the trimmed text, all of it up to 80 characters;
/// blank text gives none.
pub proof fn law_client_name_is_the_trimmed_text(raw: Seq<char>)
    ensures
        ({
            let text = crate::text::trimmed(raw);
            &&& text.len() == 0 <==> client_name(raw) is None
            &&& client_name(raw) matches Some(name) ==> {
                &&& name.len() == if text.len() < 80 {
                    text.len()
                } else {
                    80
                }
                &&& forall|i: int| 0 <= i < name.len() ==> #[trigger] name[i] == text[i]
            }
        }),
{
}

/// The user's name goes before the environment's, and that before the built-in one; each
/// is passed over where it is blank.
pub proof fn law_client_name_goes_by_precedence(
    raw: Seq<char>,
    from_environment: Option<Seq<char>>,
)
    ensures
        ({
            let name = configured_name(raw, from_environment);
            let fallback = fallback_client_name(from_environment);
            &&& client_name(raw) matches Some(own) ==> name == own
            &&& client_name(raw) is None ==> name == fallback
            &&& from_environment is None ==> fallback == "Sendspin VST"@
            &&& from_environment matches Some(value) ==> match client_name(value) {
                Some(given) => fallback == given,
                None => fallback == "Sendspin VST"@,
            }
        }),
{
}

/// The text to parse for a server is the trimmed text: as it is where it holds a scheme
/// other than HTTP's, behind `ws://` where it holds none, and with an HTTP scheme at its
/// front replaced by the WebSocket scheme of the same security.
pub proof fn law_candidate_keeps_the_text(raw: Seq<char>, rest: Seq<char>)
    ensures
        ({
            let text = crate::text::trimmed(raw);
            let candidate = url_candidate(raw);
            &&& !crate::text::occurs_in("://"@, text) ==> candidate == "ws://"@ + text
            &&& crate::text::occurs_in("://"@, text) && !"http://"@.is_prefix_of(text)
                && !"https://"@.is_prefix_of(text) ==> candidate == text
            &&& text == "http://"@ + rest && !"http://"@.is_prefix_of(rest) ==> candidate
                == "ws://"@ + rest
            &&& text == "https://"@ + rest && !"https://"@.is_prefix_of(rest) ==> candidate
                == "wss://"@ + rest
        }),
{
    let text = crate::text::trimmed(raw);
    crate::text::lemma_trimmed_is_trimmed(raw);
    reveal_strlit("http://");
    reveal_strlit("https://");
    if text == "http://"@ + rest && !"http://"@.is_prefix_of(rest) {
        assert(rest.len() > 0 ==> rest.last() == text.last());
        lemma_rewritten_candidate("http://"@, rest);
    }
    if text == "https://"@ + rest && !"https://"@.is_prefix_of(rest) {
        assert(rest.len() > 0 ==> rest.last() == text.last());
        lemma_rewritten_candidate("https://"@, rest);
        if "http://"@.is_prefix_of(text) {
            assert("http://"@[4] == text.subrange(0, "http://"@.len() as int)[4]);
        }
    }
}

/// A server URL is what the text to parse is parsed into: a `ws` or `wss` URL with a
/// host, as it is written where it names a path, and with the path `/sendspin` where it
/// names none. Blank text, text that is no URL, and any other URL give none.
pub proof fn law_server_url_is_the_parsed_one(raw: Seq<char>)
    ensures
        crate::text::trimmed(raw).len() == 0 ==> server_url(raw) is None,
        parsed_url(url_candidate(raw)) is None ==> server_url(raw) is None,
        parsed_url(url_candidate(raw)) matches Some(url) ==> {
            let websocket = url.host is Some && (url.scheme == "ws"@ || url.scheme == "wss"@);
            let bare = url.path.len() == 0 || url.path == "/"@;
            let given = crate::text::trimmed(raw).len() > 0;
            &&& !websocket ==> server_url(raw) is None
            &&& given && websocket && !bare ==> server_url(raw) == Some(url.text)
            &&& given && websocket && bare ==> server_url(raw) == Some(
                url_with_path(url_candidate(raw), "/sendspin"@),
            )
        },
{
}

/// Every server URL can be used but for those too long for the parser: whose text to
/// parse is longer than a 32-bit signed number counts, or to which the default path
/// cannot be added within 32-bit offsets.
pub proof fn law_only_overlong_urls_are_unusable(raw: Seq<char>)
    ensures
        url_candidate(raw).len() <= 0x7fff_ffff && (parsed_url(url_candidate(raw)) matches Some(
            url,
        ) ==> url.text.len() + 9 <= 0xffff_ffff) ==> usable_server_url(raw) == server_url(raw),
        url_candidate(raw).len() > 0x7fff_ffff ==> usable_server_url(raw) is None,
        url_candidate(raw).len() <= 0x7fff_ffff ==> (parsed_url(url_candidate(raw)) matches Some(
            url,
        ) ==> if url.path.len() == 0 || url.path == "/"@ {
            url.text.len() + 9 > 0xffff_ffff ==> usable_server_url(raw) is None
        } else {
            usable_server_url(raw) == server_url(raw)
        }),
        usable_server_url(raw) is Some ==> usable_server_url(raw) == server_url(raw),
        usable_server_url(raw) matches Some(url) ==> configured_url(raw) == url,
        usable_server_url(raw) is None ==> configured_url(raw).len() == 0,
{
    reveal_strlit("/sendspin");
}

/// The stored identity is kept where its trimmed text is a UUID, and only there. A UUID
/// is written with 32 digits, and with nothing around them but hyphens, braces or
/// `urn:uuid:`.
pub proof fn law_stored_identity_is_kept(text: Seq<char>)
    ensures
        kept_client_id(None) is None,
        is_uuid_text(crate::text::trimmed(text)) ==> kept_client_id(Some(text)) == Some(
            crate::text::trimmed(text),
        ),
        !is_uuid_text(crate::text::trimmed(text)) ==> kept_client_id(Some(text)) is None,
        is_uuid_text(text) ==> text.len() == 32 || text.len() == 36 || text.len() == 38
            || text.len() == 45,
{
}

/// A release tag names the version behind its `v`, if it has one, with the white space
/// around the tag taken off; a blank tag names none.
pub proof fn law_tag_names_its_version(raw: Seq<char>, version: Seq<char>)
    ensures
        crate::text::trimmed(raw).len() == 0 ==> tagged_version(raw) is None,
        crate::text::trimmed(raw) == seq!['v'] + version ==> tagged_version(raw) == Some(version),
        crate::text::trimmed(raw) == version && version.len() > 0 && version[0] != 'v'
            ==> tagged_version(raw) == Some(version),
{
    assert((seq!['v'] + version).drop_first() =~= version);
}

/// The plugin's version is the one its release tag names; without a tag it is the
/// package's, and a blank tag is shown as it is.
pub proof fn law_release_version_goes_first(raw: Seq<char>, package_version: Seq<char>)
    ensures
        effective_version(None, package_version) == package_version,
        tagged_version(raw) matches Some(version) ==> effective_version(Some(raw), package_version)
            == version,
        crate::text::trimmed(raw).len() == 0 ==> effective_version(Some(raw), package_version)
            == raw,
{
}

} // verus!
