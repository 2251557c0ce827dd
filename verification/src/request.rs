//! The data of one HTTP request: what the middleware is told of it, and the
//! snapshot that is attached to the events captured while it is handled.

use crate::pairs::{clone_pairs, distinct_keys, insert_pair, pairs_map};
use sentry_core::protocol::Url;
use vstd::prelude::*;
use vstd::std_specs::iter::IteratorSpec;
use vstd::string::*;

verus! {

/// What the middleware reads of an incoming request.
pub struct RequestInfo {
    /// The scheme of the connection, such as `http`.
    pub scheme: String,
    /// The host that the request was sent to.
    pub host: String,
    /// The request target as it was sent: the path, and the query where
    /// there is one.
    pub uri: String,
    /// The request method.
    pub method: String,
    /// The headers in the order they came in. A value is `None` where it is
    /// not visible ASCII text.
    pub headers: Vec<(String, Option<String>)>,
    /// The address of the peer, where it is known.
    pub peer_addr: Option<String>,
    /// The name of the route that matched, where it has one.
    pub match_name: Option<String>,
    /// The pattern of the route that matched, where one did.
    pub match_pattern: Option<String>,
}

/// The request data attached to an event.
pub struct RequestSnapshot {
    /// The URL of the request, in its normalised form.
    pub url: Option<String>,
    /// The HTTP request method.
    pub method: Option<String>,
    /// Request data in a readable form.
    pub data: Option<String>,
    /// The encoded query string.
    pub query_string: Option<String>,
    /// The encoded cookie string.
    pub cookies: Option<String>,
    /// The request headers, by name.
    pub headers: Vec<(String, String)>,
    /// The environment of the request, by name.
    pub env: Vec<(String, String)>,
}

/// What a `RequestSnapshot` says: the order of its pairs is left out.
pub struct SnapshotView {
    pub url: Option<Seq<char>>,
    pub method: Option<Seq<char>>,
    pub data: Option<Seq<char>>,
    pub query_string: Option<Seq<char>>,
    pub cookies: Option<Seq<char>>,
    pub headers: Map<Seq<char>, Seq<char>>,
    pub env: Map<Seq<char>, Seq<char>>,
}

/// The characters of an optional string.
pub open spec fn text_of(text: Option<String>) -> Option<Seq<char>> {
    match text {
        Some(text) => Some(text@),
        None => None,
    }
}

impl View for RequestSnapshot {
    type V = SnapshotView;

    open spec fn view(&self) -> SnapshotView {
        SnapshotView {
            url: text_of(self.url),
            method: text_of(self.method),
            data: text_of(self.data),
            query_string: text_of(self.query_string),
            cookies: text_of(self.cookies),
            headers: pairs_map(self.headers@),
            env: pairs_map(self.env@),
        }
    }
}

/// A copy of an optional string.
pub fn clone_text(text: &Option<String>) -> (copy: Option<String>)
    ensures
        text_of(copy) == text_of(*text),
{
    match text {
        Some(text) => Some(text.clone()),
        None => None,
    }
}

impl Clone for RequestSnapshot {
    fn clone(&self) -> (copy: Self)
        ensures
            copy@ == self@,
            distinct_keys(self.headers@) ==> distinct_keys(copy.headers@),
            distinct_keys(self.env@) ==> distinct_keys(copy.env@),
    {
        RequestSnapshot {
            url: clone_text(&self.url),
            method: clone_text(&self.method),
            data: clone_text(&self.data),
            query_string: clone_text(&self.query_string),
            cookies: clone_text(&self.cookies),
            headers: clone_pairs(&self.headers),
            env: clone_pairs(&self.env),
        }
    }
}

/// Where the query of a request target starts: the place of its first `?`,
/// or its length where it has none.
pub open spec fn query_start(target: Seq<char>) -> int
    decreases target.len(),
{
    if target.len() == 0 || target.first() == '?' {
        0
    } else {
        1 + query_start(target.drop_first())
    }
}

/// The path of a request target: what stands before its first `?`.
pub open spec fn path_of(target: Seq<char>) -> Seq<char> {
    target.subrange(0, query_start(target))
}

/// The text that the request's URL is parsed from: scheme, host and path.
pub open spec fn url_text(info: RequestInfo) -> Seq<char> {
    info.scheme@ + "://"@ + info.host@ + path_of(info.uri@)
}

/// The path is the part of the target before its first `?`: it holds no `?`,
/// and it ends at a `?` or at the end of the target.
pub proof fn lemma_path_of(target: Seq<char>)
    ensures
        0 <= query_start(target) <= target.len(),
        forall|j: int| 0 <= j < query_start(target) ==> target[j] != '?',
        query_start(target) < target.len() ==> target[query_start(target)] == '?',
        !path_of(target).contains('?'),
    decreases target.len(),
{
    if target.len() > 0 && target.first() != '?' {
        let rest = target.drop_first();
        lemma_path_of(rest);
        assert forall|j: int| 0 <= j < query_start(target) implies target[j] != '?' by {
            if j > 0 {
                assert(target[j] == rest[j - 1]);
            }
        }
        if query_start(target) < target.len() {
            assert(target[query_start(target)] == rest[query_start(rest)]);
        }
    }
    assert forall|j: int| 0 <= j < path_of(target).len() implies path_of(target)[j] != '?' by {
        assert(path_of(target)[j] == target[j]);
    }
}

/// The query starts at `at` where no `?` stands before `at`, and `at` is the
/// place of a `?` or the end of the target.
pub proof fn lemma_query_start(target: Seq<char>, at: int)
    requires
        0 <= at <= target.len(),
        forall|j: int| 0 <= j < at ==> target[j] != '?',
        at == target.len() || target[at] == '?',
    ensures
        query_start(target) == at,
    decreases at,
{
    if at > 0 {
        let rest = target.drop_first();
        assert forall|j: int| 0 <= j < at - 1 implies rest[j] != '?' by {
            assert(rest[j] == target[j + 1]);
        }
        if at < target.len() {
            assert(rest[at - 1] == target[at]);
        }
        lemma_query_start(rest, at - 1);
    }
}

/// The transaction of a request: the name of the matched route, else its
/// pattern, else none.
pub open spec fn transaction_of(info: RequestInfo) -> Option<Seq<char>> {
    if info.match_name is Some {
        text_of(info.match_name)
    } else {
        text_of(info.match_pattern)
    }
}

/// The text of a header value: empty where the value is no text.
pub open spec fn header_text(value: Option<String>) -> Seq<char> {
    match value {
        Some(value) => value@,
        None => Seq::empty(),
    }
}

/// The headers by name: of two headers with one name the later one stays.
pub open spec fn header_map(headers: Seq<(String, Option<String>)>) -> Map<Seq<char>, Seq<char>>
    decreases headers.len(),
{
    if headers.len() == 0 {
        Map::empty()
    } else {
        header_map(headers.drop_last()).insert(headers.last().0@, header_text(headers.last().1))
    }
}

/// The environment of the snapshot: the peer's address under `REMOTE_ADDR`
/// where personal data may be sent and the address is known, else nothing.
pub open spec fn env_map(info: RequestInfo, with_pii: bool) -> Map<Seq<char>, Seq<char>> {
    if with_pii && info.peer_addr is Some {
        Map::empty().insert("REMOTE_ADDR"@, info.peer_addr->0@)
    } else {
        Map::empty()
    }
}

/// The snapshot of a request whose URL text parsed to `url`.
pub open spec fn snapshot_of(info: RequestInfo, url: Option<Seq<char>>, with_pii: bool) -> SnapshotView {
    SnapshotView {
        url,
        method: Some(info.method@),
        data: None,
        query_string: None,
        cookies: None,
        headers: header_map(info.headers@),
        env: env_map(info, with_pii),
    }
}

/// What `Url::parse` makes of a text: the normalised URL, or `None` where the
/// text is no URL.
pub uninterp spec fn parsed_url(text: Seq<char>) -> Option<Seq<char>>;

/// `Url::parse` of the `url` crate, as `sentry_core::protocol` hands it on,
/// with the parsed URL written out again as text. The outcome depends on the
/// text alone; nothing more is claimed of it.
#[verifier::external_body]
fn parse_url(text: &str) -> (url: Option<String>)
    ensures
        text_of(url) == parsed_url(text@),
{
    Url::parse(text).ok().map(String::from)
}

/// The path of a request target: the target without its query.
pub fn target_path(target: &str) -> (path: &str)
    ensures
        path@ == path_of(target@),
{
    let len = target.unicode_len();
    let mut chars = target.chars();
    let mut at: usize = 0;
    let mut found = false;
    proof {
        broadcast use vstd::string::group_string_axioms;

        assert(target@.subrange(0, len as int) =~= target@);
    }
    while !found && at < len
        invariant
            len == target@.len(),
            at <= len,
            chars.obeys_prophetic_iter_laws(),
            !found ==> chars.remaining() == target@.subrange(at as int, len as int),
            forall|j: int| 0 <= j < at ==> target@[j] != '?',
            found ==> at < len && target@[at as int] == '?',
        decreases len - at + if found { 0int } else { 1int },
    {
        let ghost before = chars;
        let next = chars.next();
        proof {
            broadcast use vstd::string::group_string_axioms;

            assert(next == Some(target@[at as int]));
            assert(before.remaining().drop_first() =~= target@.subrange(at + 1, len as int));
        }
        match next {
            Some('?') => {
                found = true;
            },
            _ => {
                at += 1;
            },
        }
    }
    proof {
        lemma_query_start(target@, at as int);
    }
    target.substring_char(0, at)
}

/// The text of the request's URL.
pub fn request_url(info: &RequestInfo) -> (text: String)
    ensures
        text@ == url_text(*info),
{
    let mut text = info.scheme.clone();
    text.append("://");
    text.append(info.host.as_str());
    text.append(target_path(info.uri.as_str()));
    text
}

/// The transaction that events of this request are filed under.
pub fn transaction_name(info: &RequestInfo) -> (name: Option<String>)
    ensures
        text_of(name) == transaction_of(*info),
{
    match &info.match_name {
        Some(name) => Some(name.clone()),
        None => clone_text(&info.match_pattern),
    }
}

/// The headers of a request by name, a value that is no text left empty.
pub fn collect_headers(headers: &Vec<(String, Option<String>)>) -> (pairs: Vec<(String, String)>)
    ensures
        pairs_map(pairs@) == header_map(headers@),
        distinct_keys(pairs@),
{
    let mut pairs: Vec<(String, String)> = Vec::new();
    let mut i: usize = 0;
    while i < headers.len()
        invariant
            i <= headers.len(),
            distinct_keys(pairs@),
            pairs_map(pairs@) == header_map(headers@.take(i as int)),
        decreases headers.len() - i,
    {
        let name = headers[i].0.clone();
        let value = match &headers[i].1 {
            Some(value) => value.clone(),
            None => String::new(),
        };
        proof {
            assert(headers@.take(i + 1).drop_last() =~= headers@.take(i as int));
        }
        insert_pair(&mut pairs, name, value);
        i += 1;
    }
    proof {
        assert(headers@.take(i as int) =~= headers@);
    }
    pairs
}

/// Builds the snapshot of a request, given what its URL text parsed to.
pub fn snapshot(info: &RequestInfo, url: Option<String>, with_pii: bool) -> (request: RequestSnapshot)
    ensures
        request@ == snapshot_of(*info, text_of(url), with_pii),
        distinct_keys(request.headers@),
        distinct_keys(request.env@),
{
    let headers = collect_headers(&info.headers);
    let mut env: Vec<(String, String)> = Vec::new();
    if with_pii {
        match &info.peer_addr {
            Some(remote) => {
                insert_pair(&mut env, String::from_str("REMOTE_ADDR"), remote.clone());
            },
            None => {},
        }
    }
    RequestSnapshot {
        url,
        method: Some(info.method.clone()),
        data: None,
        query_string: None,
        cookies: None,
        headers,
        env,
    }
}

/// Build a Sentry request struct from the HTTP request, together with the
/// transaction that its events are filed under.
pub fn sentry_request_from_http(request: &RequestInfo, with_pii: bool) -> (built: (
    Option<String>,
    RequestSnapshot,
))
    ensures
        text_of(built.0) == transaction_of(*request),
        built.1@ == snapshot_of(*request, parsed_url(url_text(*request)), with_pii),
        distinct_keys(built.1.headers@),
        distinct_keys(built.1.env@),
{
    let transaction = transaction_name(request);
    let text = request_url(request);
    let url = parse_url(text.as_str());
    (transaction, snapshot(request, url, with_pii))
}

} // verus!
