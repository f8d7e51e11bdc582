//! Turning a resolved target into a response: status, headers and body.

use vstd::prelude::*;

use crate::config::ServerConfig;
use crate::headers::{
    header_list, lemma_max_age_valid, lemma_standard_names_valid, max_age, response_headers,
    valid_header_value,
};
use crate::resolve::{
    content_type_of, file_text_of, resolve_file, resolved, ResolvedTarget, TargetView,
};
use crate::response::{
    assembled, first_rejection, header_ok, into_response, HttpResponse, ResponseView,
    STATUS_NOT_FOUND, STATUS_OK,
};

verus! {

/// The Content-Type of every fallback response.
pub open spec fn fallback_content_type() -> Seq<char> {
    "text/html"@
}

/// The response for a target: `200` with the file's type for a file, `404`
/// as HTML for every fallback, both with the configured CORS origin and
/// cache time.
pub open spec fn served(t: TargetView, cors: Seq<char>, cache_seconds: int) -> ResponseView {
    match t {
        TargetView::File { mime, body } => assembled(STATUS_OK, header_list(mime, cors, cache_seconds), body),
        TargetView::NotFound { body } => assembled(
            STATUS_NOT_FOUND,
            header_list(fallback_content_type(), cors, cache_seconds),
            body,
        ),
    }
}

/// Builds the response for a resolved target.
pub fn handler(target: ResolvedTarget, config: &ServerConfig) -> (r: HttpResponse)
    ensures
        r@ == served(target@, config.cors_origin@, config.cache_seconds as int),
{
    match target {
        ResolvedTarget::File { mime, body } => {
            let hs = response_headers(mime.as_str(), config.cors_origin.as_str(), config.cache_seconds);
            into_response(STATUS_OK, hs, body)
        },
        ResolvedTarget::NotFound { body } => {
            let hs = response_headers("text/html", config.cors_origin.as_str(), config.cache_seconds);
            into_response(STATUS_NOT_FOUND, hs, body)
        },
    }
}

/// Answers a request for the file at `path`, from the bytes read from it and
/// from the custom not-found page (`None` for a read that failed).
pub fn respond(path: &str, contents: Option<Vec<u8>>, page: Option<Vec<u8>>, config: &ServerConfig) -> (r:
    HttpResponse)
    ensures
        r@ == served(
            resolved(
                content_type_of(path@),
                file_text_of(
                    match contents {
                        Some(b) => Some(b@),
                        None => None,
                    },
                ),
                file_text_of(
                    match page {
                        Some(b) => Some(b@),
                        None => None,
                    },
                ),
            ),
            config.cors_origin@,
            config.cache_seconds as int,
        ),
{
    handler(resolve_file(path, contents, page), config)
}

/// The value of the first header called `name`, if any.
pub open spec fn header_value(hs: Seq<(Seq<char>, Seq<char>)>, name: Seq<char>) -> Option<Seq<char>>
    decreases hs.len(),
{
    if hs.len() == 0 {
        None
    } else if hs[0].0 == name {
        Some(hs[0].1)
    } else {
        header_value(hs.drop_first(), name)
    }
}

/// The Content-Type that a target is served with.
pub open spec fn target_content_type(t: TargetView) -> Seq<char> {
    match t {
        TargetView::File { mime, .. } => mime,
        TargetView::NotFound { .. } => fallback_content_type(),
    }
}

/// Where the file's Content-Type and the CORS origin are acceptable header values,
/// a response keeps its status and carries `Cache-Control: max-age=<seconds>`
/// exactly when the configured cache time is not negative; a negative time
/// gives no Cache-Control header at all.
pub proof fn lemma_cache_control(t: TargetView, cors: Seq<char>, cache_seconds: i64)
    requires
        t matches TargetView::File { mime, .. } ==> valid_header_value(mime),
        valid_header_value(cors),
    ensures
        served(t, cors, cache_seconds as int).status == (if t is File {
            STATUS_OK
        } else {
            STATUS_NOT_FOUND
        }),
        cache_seconds >= 0 ==> header_value(served(t, cors, cache_seconds as int).headers, "Cache-Control"@)
            == Some(max_age(cache_seconds as nat)),
        cache_seconds < 0 ==> header_value(
            served(t, cors, cache_seconds as int).headers,
            "Cache-Control"@,
        ) is None,
{
    reveal_strlit("Content-Type");
    reveal_strlit("Access-Control-Allow-Origin");
    reveal_strlit("Cache-Control");
    lemma_standard_names_valid();
    reveal_strlit("text/html");
    let ct = target_content_type(t);
    let hs = header_list(ct, cors, cache_seconds as int);
    let cc = "Cache-Control"@;
    assert("Content-Type"@ != cc);
    assert("Access-Control-Allow-Origin"@ != cc);
    let tail = hs.drop_first().drop_first();
    if cache_seconds >= 0 {
        lemma_max_age_valid(cache_seconds as nat);
        assert(tail =~= seq![(cc, max_age(cache_seconds as nat))]);
        assert(tail.drop_first() =~= Seq::<(Seq<char>, Seq<char>)>::empty());
        assert(header_value(tail, cc) == Some(max_age(cache_seconds as nat)));
    } else {
        assert(tail =~= Seq::<(Seq<char>, Seq<char>)>::empty());
    }
    lemma_no_rejection(hs);
    assert(hs.drop_first()[0].0 != cc);
    assert(header_value(hs.drop_first(), cc) == header_value(tail, cc));
    assert(header_value(hs, cc) == header_value(tail, cc));
    assert(served(t, cors, cache_seconds as int).headers == hs);
}

/// A list of accepted headers has no rejection.
proof fn lemma_no_rejection(hs: Seq<(Seq<char>, Seq<char>)>)
    requires
        forall|i: int| 0 <= i < hs.len() ==> header_ok(#[trigger] hs[i]),
    ensures
        first_rejection(hs) is None,
    decreases hs.len(),
{
    if hs.len() > 0 {
        assert(header_ok(hs[0]));
        lemma_no_rejection(hs.drop_first());
    }
}

} // verus!
