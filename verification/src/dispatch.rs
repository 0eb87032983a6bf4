//! The request dispatcher's own part: what a request URI asks for, and the
//! response that each outcome is answered with.

use crate::error::message_of;
use crate::error::PipelineError;
use crate::error::PipelineErrorView;
use crate::paths::opt_text;
use crate::text::after_first;
use crate::text::before_first;
use crate::text::lemma_first_index_bounds;
use crate::text::parse_u32;
use crate::text::parsed_u32;
use crate::text::split_first;
use crate::text::strip_prefix;
use crate::thumbs::Served;
use vstd::prelude::*;
use vstd::string::StrSliceExecFns;
use vstd::utf8::encode_utf8;

verus! {

/// What `urlencoding::decode` makes of `text`: every `%xx` replaced by its
/// byte; `None` where the bytes are no UTF-8.
pub uninterp spec fn percent_decoded(text: Seq<char>) -> Option<Seq<char>>;

/// Calls `urlencoding::decode`. Trusted: the outcome depends on the text
/// alone, and a text without `%` comes back as it is.
#[verifier::external_body]
fn percent_decode(text: &str) -> (decoded: Option<String>)
    ensures
        opt_text(decoded) == percent_decoded(text@),
        !text@.contains('%') ==> opt_text(decoded) == Some(text@),
{
    urlencoding::decode(text).ok().map(|s| s.into_owned())
}

/// The width that is served where a request names none, or none that is a
/// number: zero, which stands for the unscaled source.
pub const DEFAULT_WIDTH: u32 = 0;

/// The stack that each worker of the pool is given, in bytes.
pub const WORKER_STACK_BYTES: usize = 8388608;

/// What the query of a request has said so far.
pub ghost struct QueryView {
    pub width: u32,
    pub root: Option<Seq<char>>,
}

/// A query that has said nothing.
pub open spec fn empty_query() -> QueryView {
    QueryView { width: DEFAULT_WIDTH, root: None }
}

/// The query after one more `key=value` pair: `w` sets the width, to the
/// default where the value is no number; `root` sets the project root where
/// its value decodes; anything else changes nothing.
pub open spec fn apply_pair_of(pair: Seq<char>, q: QueryView) -> QueryView {
    if !pair.contains('=') {
        q
    } else if before_first(pair, '=') == "w"@ {
        QueryView {
            width: match parsed_u32(after_first(pair, '=')) {
                Some(w) => w,
                None => DEFAULT_WIDTH,
            },
            root: q.root,
        }
    } else if before_first(pair, '=') == "root"@ {
        match percent_decoded(after_first(pair, '=')) {
            Some(root) => QueryView { width: q.width, root: Some(root) },
            None => q,
        }
    } else {
        q
    }
}

/// The query after all the pairs of `query`, which `&` separates, taken from
/// left to right.
pub open spec fn apply_query_of(query: Seq<char>, q: QueryView) -> QueryView
    decreases query.len(),
    via apply_query_decreases
{
    let next = apply_pair_of(before_first(query, '&'), q);
    if query.contains('&') {
        apply_query_of(after_first(query, '&'), next)
    } else {
        next
    }
}

#[via_fn]
proof fn apply_query_decreases(query: Seq<char>, q: QueryView) {
    lemma_first_index_bounds(query, '&');
}

/// The path part of a request without its scheme and host.
pub open spec fn without_scheme(raw: Seq<char>) -> Seq<char> {
    if "thumb://localhost/"@.is_prefix_of(raw) {
        raw.skip("thumb://localhost/"@.len() as int)
    } else if "thumb://"@.is_prefix_of(raw) {
        raw.skip("thumb://"@.len() as int)
    } else {
        raw
    }
}

/// The text of the query of a URI: what stands between the first `?` and
/// the next one or the end; empty where there is no `?`.
pub open spec fn query_text(uri: Seq<char>) -> Seq<char> {
    before_first(after_first(uri, '?'), '?')
}

/// What a request asks for.
#[derive(Debug)]
pub struct ThumbRequest {
    /// The virtual path, percent-decoded.
    pub path: String,
    /// The width asked for; zero asks for the unscaled source.
    pub target_width: u32,
    /// The project root that a relative path is resolved against.
    pub project_root: Option<String>,
}

/// The mathematical form of a [`ThumbRequest`].
pub ghost struct ThumbRequestView {
    pub path: Seq<char>,
    pub target_width: u32,
    pub project_root: Option<Seq<char>>,
}

impl View for ThumbRequest {
    type V = ThumbRequestView;

    open spec fn view(&self) -> ThumbRequestView {
        ThumbRequestView {
            path: self.path@,
            target_width: self.target_width,
            project_root: opt_text(self.project_root),
        }
    }
}

/// What a URI asks for: its path is what stands before the first `?`,
/// without scheme and host, percent-decoded, or as it stands where it does
/// not decode; width and root come from its query.
pub open spec fn request_of(uri: Seq<char>) -> ThumbRequestView {
    let path_part = without_scheme(before_first(uri, '?'));
    let query = apply_query_of(query_text(uri), empty_query());
    ThumbRequestView {
        path: match percent_decoded(path_part) {
            Some(path) => path,
            None => path_part,
        },
        target_width: query.width,
        project_root: query.root,
    }
}

/// Whether two texts are the same.
fn same_text(a: &str, b: &str) -> (same: bool)
    ensures
        same == (a@ == b@),
{
    match strip_prefix(a, b) {
        Some(rest) => {
            proof {
                if rest@.len() == 0 {
                    assert(a@ =~= b@);
                }
            }
            rest.is_empty()
        },
        None => {
            proof {
                if a@ == b@ {
                    assert(b@.is_prefix_of(a@));
                }
            }
            false
        },
    }
}

/// Takes one `key=value` pair into account.
fn apply_pair(pair: &str, width: u32, root: Option<String>) -> (next: (u32, Option<String>))
    ensures
        (QueryView { width: next.0, root: opt_text(next.1) }) == apply_pair_of(
            pair@,
            QueryView { width, root: opt_text(root) },
        ),
{
    match split_first(pair, '=') {
        None => (width, root),
        Some((key, value)) => {
            if same_text(key, "w") {
                match parse_u32(value) {
                    Some(w) => (w, root),
                    None => (DEFAULT_WIDTH, root),
                }
            } else if same_text(key, "root") {
                match percent_decode(value) {
                    Some(decoded) => (width, Some(decoded)),
                    None => (width, root),
                }
            } else {
                (width, root)
            }
        },
    }
}

/// Reads width and project root from the text of a query.
fn parse_query(query: &str) -> (parsed: (u32, Option<String>))
    ensures
        (QueryView { width: parsed.0, root: opt_text(parsed.1) }) == apply_query_of(
            query@,
            empty_query(),
        ),
{
    let mut rest: &str = query;
    let mut width: u32 = DEFAULT_WIDTH;
    let mut root: Option<String> = None;
    let mut done = false;
    while !done
        invariant
            apply_query_of(query@, empty_query()) == (if done {
                QueryView { width, root: opt_text(root) }
            } else {
                apply_query_of(rest@, QueryView { width, root: opt_text(root) })
            }),
        decreases
                (if done {
                    0
                } else {
                    rest@.len() + 1
                }),
    {
        match split_first(rest, '&') {
            Some((pair, tail)) => {
                let next = apply_pair(pair, width, root);
                width = next.0;
                root = next.1;
                rest = tail;
            },
            None => {
                proof {
                    lemma_first_index_bounds(rest@, '&');
                    assert(rest@.take(rest@.len() as int) =~= rest@);
                }
                let next = apply_pair(rest, width, root);
                width = next.0;
                root = next.1;
                done = true;
            },
        }
    }
    (width, root)
}

/// Takes scheme and host off the path part of a URI.
fn strip_scheme(raw: &str) -> (path: &str)
    ensures
        path@ == without_scheme(raw@),
{
    match strip_prefix(raw, "thumb://localhost/") {
        Some(path) => path,
        None => match strip_prefix(raw, "thumb://") {
            Some(path) => path,
            None => raw,
        },
    }
}

/// Reads a request URI: the virtual path, the width and the project root.
/// Every URI is read; what cannot be understood falls back to its default.
pub fn parse_request(uri: &str) -> (request: ThumbRequest)
    ensures
        request@ == request_of(uri@),
        !without_scheme(before_first(uri@, '?')).contains('%') ==> request.path@ == without_scheme(
            before_first(uri@, '?'),
        ),
{
    let (raw_path, query): (&str, &str) = match split_first(uri, '?') {
        None => {
            proof {
                lemma_first_index_bounds(uri@, '?');
                assert(uri@.take(uri@.len() as int) =~= uri@);
                lemma_first_index_bounds(Seq::<char>::empty(), '?');
                assert(Seq::<char>::empty().take(0) =~= Seq::<char>::empty());
                reveal_strlit("");
                assert(""@ =~= Seq::<char>::empty());
            }
            (uri, "")
        },
        Some((head, tail)) => match split_first(tail, '?') {
            Some((first, _)) => (head, first),
            None => {
                proof {
                    lemma_first_index_bounds(tail@, '?');
                    assert(tail@.take(tail@.len() as int) =~= tail@);
                }
                (head, tail)
            },
        },
    };
    let parsed = parse_query(query);
    let path_part = strip_scheme(raw_path);
    let path = match percent_decode(path_part) {
        Some(decoded) => decoded,
        None => path_part.to_owned(),
    };
    ThumbRequest { path, target_width: parsed.0, project_root: parsed.1 }
}

/// A response: status, headers in order, body.
#[derive(Debug)]
pub struct ThumbResponse {
    pub status: u16,
    pub headers: Vec<(String, String)>,
    pub body: Vec<u8>,
}

/// The mathematical form of a [`ThumbResponse`].
pub ghost struct ThumbResponseView {
    pub status: u16,
    pub headers: Seq<(Seq<char>, Seq<char>)>,
    pub body: Seq<u8>,
}

/// One header as a pair of texts.
pub open spec fn header_view(header: (String, String)) -> (Seq<char>, Seq<char>) {
    (header.0@, header.1@)
}

impl View for ThumbResponse {
    type V = ThumbResponseView;

    open spec fn view(&self) -> ThumbResponseView {
        ThumbResponseView {
            status: self.status,
            headers: self.headers@.map_values(|h: (String, String)| header_view(h)),
            body: self.body@,
        }
    }
}

/// The headers of a successful response for content of type `mime`.
pub open spec fn success_headers(mime: Seq<char>) -> Seq<(Seq<char>, Seq<char>)> {
    seq![
        ("Content-Type"@, mime),
        ("Access-Control-Allow-Origin"@, "*"@),
        ("Cache-Control"@, "public, max-age=31536000"@),
    ]
}

/// The response to each outcome: 404 where the path did not resolve, 200
/// with the bytes and their headers where they were served, 500 with the
/// failure's message where they were not.
pub open spec fn response_of(outcome: Option<Result<(Seq<u8>, Seq<char>), PipelineErrorView>>)
    -> ThumbResponseView {
    match outcome {
        None => ThumbResponseView {
            status: 404,
            headers: Seq::empty(),
            body: encode_utf8(message_of(PipelineErrorView::PathUnresolved)),
        },
        Some(Ok((bytes, mime))) => ThumbResponseView {
            status: 200,
            headers: success_headers(mime),
            body: bytes,
        },
        Some(Err(e)) => ThumbResponseView {
            status: 500,
            headers: Seq::empty(),
            body: encode_utf8(message_of(e)),
        },
    }
}

/// The outcome of a request in mathematical form.
pub open spec fn outcome_view(outcome: Option<Result<Served, PipelineError>>) -> Option<
    Result<(Seq<u8>, Seq<char>), PipelineErrorView>,
> {
    match outcome {
        None => None,
        Some(Ok(served)) => Some(Ok((served.bytes@, served.mime_type@))),
        Some(Err(e)) => Some(Err(e@)),
    }
}

/// Builds the response to a request. `outcome` is `None` where the virtual
/// path did not resolve, else what processing the resolved path gave.
pub fn respond(outcome: Option<Result<Served, PipelineError>>) -> (response: ThumbResponse)
    ensures
        response@ == response_of(outcome_view(outcome)),
{
    match outcome {
        None => {
            let text = PipelineError::PathUnresolved.message();
            let response = ThumbResponse {
                status: 404,
                headers: Vec::new(),
                body: text.as_str().as_bytes_vec(),
            };
            assert(response@.headers =~= Seq::empty());
            response
        },
        Some(Ok(served)) => {
            let mut headers: Vec<(String, String)> = Vec::new();
            headers.push(("Content-Type".to_owned(), served.mime_type));
            headers.push(("Access-Control-Allow-Origin".to_owned(), "*".to_owned()));
            headers.push(("Cache-Control".to_owned(), "public, max-age=31536000".to_owned()));
            let response = ThumbResponse { status: 200, headers, body: served.bytes };
            assert(response@.headers =~= success_headers(served.mime_type@));
            response
        },
        Some(Err(e)) => {
            let text = e.message();
            let response = ThumbResponse {
                status: 500,
                headers: Vec::new(),
                body: text.as_str().as_bytes_vec(),
            };
            assert(response@.headers =~= Seq::empty());
            response
        },
    }
}

/// A width that is no number asks for the default width and fails nothing:
/// the pair sets the width as if it had not been given.
pub proof fn lemma_malformed_width_is_default(value: Seq<char>, q: QueryView)
    requires
        parsed_u32(value) is None,
    ensures
        apply_pair_of("w"@ + seq!['='] + value, q) == (QueryView {
            width: DEFAULT_WIDTH,
            root: q.root,
        }),
{
    reveal_strlit("w");
    let key = "w"@;
    assert(!key.contains('=')) by {
        if key.contains('=') {
            let i = choose|i: int| 0 <= i < key.len() && key[i] == '=';
            assert(key[i] == 'w');
        }
    }
    crate::text::lemma_first_index_of_parts(key, '=', value);
    let pair = key + seq!['='] + value;
    assert(pair[key.len() as int] == '=');
    assert(pair.contains('='));
}

/// Whether some pair of `query` has the key `w`.
pub open spec fn names_width(query: Seq<char>) -> bool
    decreases query.len(),
    via names_width_decreases
{
    let pair = before_first(query, '&');
    ||| pair.contains('=') && before_first(pair, '=') == "w"@
    ||| query.contains('&') && names_width(after_first(query, '&'))
}

#[via_fn]
proof fn names_width_decreases(query: Seq<char>) {
    lemma_first_index_bounds(query, '&');
}

/// What neither part holds, their concatenation does not hold.
proof fn lemma_concat_lacks(a: Seq<char>, b: Seq<char>, c: char)
    requires
        !a.contains(c),
        !b.contains(c),
    ensures
        !(a + b).contains(c),
{
    if (a + b).contains(c) {
        let i = choose|i: int| 0 <= i < (a + b).len() && (a + b)[i] == c;
        if i < a.len() {
            assert(a[i] == c);
        } else {
            assert(b[i - a.len()] == c);
        }
    }
}

/// A sequence without the separator is all before it.
proof fn lemma_whole_before(s: Seq<char>, sep: char)
    requires
        !s.contains(sep),
    ensures
        before_first(s, sep) == s,
{
    lemma_first_index_bounds(s, sep);
    assert(s.take(s.len() as int) =~= s);
}

/// A query without a pair of key `w` leaves the width as it was.
pub proof fn lemma_width_is_kept(query: Seq<char>, q: QueryView)
    requires
        !names_width(query),
    ensures
        apply_query_of(query, q).width == q.width,
    decreases query.len(),
{
    lemma_first_index_bounds(query, '&');
    if query.contains('&') {
        lemma_width_is_kept(after_first(query, '&'), apply_pair_of(before_first(query, '&'), q));
    }
}

/// The pairs of two queries joined by `&` are taken one query after the
/// other.
pub proof fn lemma_query_joined(query: Seq<char>, tail: Seq<char>, q: QueryView)
    ensures
        apply_query_of(query + seq!['&'] + tail, q) == apply_query_of(
            tail,
            apply_query_of(query, q),
        ),
    decreases query.len(),
{
    let joined = query + seq!['&'] + tail;
    lemma_first_index_bounds(query, '&');
    assert(joined[query.len() as int] == '&');
    if query.contains('&') {
        let head = before_first(query, '&');
        let rest = after_first(query, '&');
        assert(!head.contains('&')) by {
            if head.contains('&') {
                let i = choose|i: int| 0 <= i < head.len() && head[i] == '&';
                assert(query[i] == '&');
            }
        }
        assert(joined =~= head + seq!['&'] + (rest + seq!['&'] + tail));
        crate::text::lemma_first_index_of_parts(head, '&', rest + seq!['&'] + tail);
        lemma_query_joined(rest, tail, apply_pair_of(head, q));
    } else {
        crate::text::lemma_first_index_of_parts(query, '&', tail);
        lemma_whole_before(query, '&');
    }
}

/// The text that adds the width `value` to a query.
pub open spec fn width_pair(value: Seq<char>) -> Seq<char> {
    "w"@ + seq!['='] + value
}

/// A width that is no number, added to any query, asks for the default
/// width and leaves the project root as the query set it.
pub proof fn lemma_malformed_width_after_query(query: Seq<char>, value: Seq<char>, q: QueryView)
    requires
        parsed_u32(value) is None,
        !value.contains('&'),
    ensures
        apply_query_of(query + seq!['&'] + width_pair(value), q) == (QueryView {
            width: DEFAULT_WIDTH,
            root: apply_query_of(query, q).root,
        }),
        apply_query_of(width_pair(value), q) == (QueryView { width: DEFAULT_WIDTH, root: q.root }),
{
    reveal_strlit("w");
    let pair = width_pair(value);
    assert(!("w"@ + seq!['=']).contains('&')) by {
        let key = "w"@ + seq!['='];
        if key.contains('&') {
            let i = choose|i: int| 0 <= i < key.len() && key[i] == '&';
            assert(key[i] == 'w' || key[i] == '=');
        }
    }
    lemma_concat_lacks("w"@ + seq!['='], value, '&');
    lemma_whole_before(pair, '&');
    lemma_malformed_width_is_default(value, q);
    lemma_malformed_width_is_default(value, apply_query_of(query, q));
    lemma_query_joined(query, pair, q);
}

/// A request whose width is no number is the request without that width: a
/// URI with a query that names no width, and the same URI with a malformed
/// width added to the query, ask for the same path, the same root and the
/// same, default, width. So does a URI without a query, beside the same URI
/// with only the malformed width for its query.
pub proof fn lemma_malformed_width_request(path: Seq<char>, query: Seq<char>, value: Seq<char>)
    requires
        !path.contains('?'),
        !query.contains('?'),
        !value.contains('?'),
        !value.contains('&'),
        !names_width(query),
        parsed_u32(value) is None,
    ensures
        request_of(path + seq!['?'] + (query + seq!['&'] + width_pair(value))) == request_of(
            path + seq!['?'] + query,
        ),
        request_of(path + seq!['?'] + width_pair(value)) == request_of(path),
        request_of(path).target_width == DEFAULT_WIDTH,
        request_of(path + seq!['?'] + query).target_width == DEFAULT_WIDTH,
{
    reveal_strlit("w");
    let pair = width_pair(value);
    let longer = query + seq!['&'] + pair;
    assert(!("w"@ + seq!['=']).contains('?')) by {
        let key = "w"@ + seq!['='];
        if key.contains('?') {
            let i = choose|i: int| 0 <= i < key.len() && key[i] == '?';
            assert(key[i] == 'w' || key[i] == '=');
        }
    }
    lemma_concat_lacks("w"@ + seq!['='], value, '?');
    assert(!seq!['&'].contains('?')) by {
        if seq!['&'].contains('?') {
            let i = choose|i: int| 0 <= i < seq!['&'].len() && seq!['&'][i] == '?';
            assert(seq!['&'][i] == '&');
        }
    }
    lemma_concat_lacks(query, seq!['&'], '?');
    lemma_concat_lacks(query + seq!['&'], pair, '?');
    crate::text::lemma_first_index_of_parts(path, '?', query);
    crate::text::lemma_first_index_of_parts(path, '?', longer);
    crate::text::lemma_first_index_of_parts(path, '?', pair);
    lemma_whole_before(query, '?');
    lemma_whole_before(longer, '?');
    lemma_whole_before(pair, '?');
    lemma_whole_before(path, '?');
    lemma_whole_before(Seq::<char>::empty(), '?');
    lemma_whole_before(Seq::<char>::empty(), '&');
    lemma_malformed_width_after_query(query, value, empty_query());
    lemma_width_is_kept(query, empty_query());
    assert(!Seq::<char>::empty().contains('='));
}

} // verus!
