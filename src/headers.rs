//! Response headers: Content-Type, the CORS origin and an optional Cache-Control.

use vstd::prelude::*;

verus! {

/// The ten decimal digits, indexed by their value.
pub open spec fn digits() -> Seq<char> {
    seq!['0', '1', '2', '3', '4', '5', '6', '7', '8', '9']
}

/// The decimal representation of `n`, without sign or leading zeros.
pub open spec fn decimal(n: nat) -> Seq<char>
    decreases n,
{
    if n < 10 {
        seq![digits()[n as int]]
    } else {
        decimal(n / 10).push(digits()[(n % 10) as int])
    }
}

/// The one-character string of the digit `d`.
fn digit_str(d: u64) -> (r: &'static str)
    requires
        d < 10,
    ensures
        r@ == seq![digits()[d as int]],
{
    proof {
        reveal_strlit("0");
        reveal_strlit("1");
        reveal_strlit("2");
        reveal_strlit("3");
        reveal_strlit("4");
        reveal_strlit("5");
        reveal_strlit("6");
        reveal_strlit("7");
        reveal_strlit("8");
        reveal_strlit("9");
    }
    let r = match d {
        0 => "0",
        1 => "1",
        2 => "2",
        3 => "3",
        4 => "4",
        5 => "5",
        6 => "6",
        7 => "7",
        8 => "8",
        _ => "9",
    };
    assert(r@ =~= seq![digits()[d as int]]);
    r
}

/// Renders `n` in decimal.
pub fn decimal_string(n: u64) -> (r: String)
    ensures
        r@ == decimal(n as nat),
    decreases n,
{
    if n < 10 {
        String::from_str(digit_str(n))
    } else {
        let mut r = decimal_string(n / 10);
        r.append(digit_str(n % 10));
        assert(r@ =~= decimal(n as nat));
        r
    }
}

/// One response header, as a name and a value.
pub struct SetHeader {
    pub name: String,
    pub value: String,
}

impl View for SetHeader {
    type V = (Seq<char>, Seq<char>);

    open spec fn view(&self) -> (Seq<char>, Seq<char>) {
        (self.name@, self.value@)
    }
}

/// The views of a list of headers, in order.
pub open spec fn header_views(hs: Seq<SetHeader>) -> Seq<(Seq<char>, Seq<char>)> {
    hs.map_values(|h: SetHeader| h@)
}

/// The Content-Type header carrying `content_type`.
pub fn set_content_type(content_type: &str) -> (r: SetHeader)
    ensures
        r@ == ("Content-Type"@, content_type@),
{
    SetHeader { name: String::from_str("Content-Type"), value: String::from_str(content_type) }
}

/// The CORS header carrying the allowed origin verbatim.
pub fn set_cors_access(cors_access: &str) -> (r: SetHeader)
    ensures
        r@ == ("Access-Control-Allow-Origin"@, cors_access@),
{
    SetHeader {
        name: String::from_str("Access-Control-Allow-Origin"),
        value: String::from_str(cors_access),
    }
}

/// The value `max-age=<seconds>` of a Cache-Control header.
pub open spec fn max_age(seconds: nat) -> Seq<char> {
    "max-age="@ + decimal(seconds)
}

/// The Cache-Control header for a cache time in seconds; a negative time
/// disables caching and gives no header at all.
pub fn set_cache_control(cache_control: &i64) -> (r: Option<SetHeader>)
    ensures
        r is Some <==> *cache_control >= 0,
        r matches Some(h) ==> h@ == ("Cache-Control"@, max_age(*cache_control as nat)),
{
    if *cache_control >= 0 {
        let mut value = String::from_str("max-age=");
        value.append(decimal_string(*cache_control as u64).as_str());
        Some(SetHeader { name: String::from_str("Cache-Control"), value })
    } else {
        None
    }
}

/// The headers of a response, in order: Content-Type, the CORS origin, and
/// Cache-Control when `cache_seconds` is not negative.
pub open spec fn header_list(content_type: Seq<char>, cors: Seq<char>, cache_seconds: int) -> Seq<
    (Seq<char>, Seq<char>),
> {
    let base = seq![("Content-Type"@, content_type), ("Access-Control-Allow-Origin"@, cors)];
    if cache_seconds >= 0 {
        base.push(("Cache-Control"@, max_age(cache_seconds as nat)))
    } else {
        base
    }
}

/// Builds the ordered headers of a response.
pub fn response_headers(content_type: &str, cors: &str, cache_seconds: i64) -> (r: Vec<SetHeader>)
    ensures
        header_views(r@) == header_list(content_type@, cors@, cache_seconds as int),
{
    let mut r: Vec<SetHeader> = Vec::new();
    r.push(set_content_type(content_type));
    r.push(set_cors_access(cors));
    match set_cache_control(&cache_seconds) {
        Some(h) => r.push(h),
        None => {},
    }
    assert(header_views(r@) =~= header_list(content_type@, cors@, cache_seconds as int));
    r
}

/// A character that may stand in a header name (an RFC 7230 token character,
/// with `"` also admitted).
pub open spec fn is_token_char(c: char) -> bool {
    ||| ('0' <= c && c <= '9')
    ||| ('a' <= c && c <= 'z')
    ||| ('A' <= c && c <= 'Z')
    ||| c == '!' || c == '"' || c == '#' || c == '$' || c == '%' || c == '&' || c == '\''
    ||| c == '*' || c == '+' || c == '-' || c == '.' || c == '^' || c == '_' || c == '`'
    ||| c == '|' || c == '~'
}

/// A header name that the HTTP layer accepts: 1 to 65535 token characters.
pub open spec fn valid_header_name(s: Seq<char>) -> bool {
    &&& 1 <= s.len() <= 65535
    &&& forall|i: int| 0 <= i < s.len() ==> is_token_char(#[trigger] s[i])
}

/// A character that may stand in a header value: a tab, or anything but the
/// other control characters and DEL.
pub open spec fn is_value_char(c: char) -> bool {
    c == '\t' || (c as u32 >= 32 && c as u32 != 127)
}

/// A header value that the HTTP layer accepts.
pub open spec fn valid_header_value(s: Seq<char>) -> bool {
    forall|i: int| 0 <= i < s.len() ==> is_value_char(#[trigger] s[i])
}

/// Relies on `http::HeaderName::from_str` (through axum): it accepts exactly
/// the names of 1 to 65535 bytes that are all token characters.
#[verifier::external_body]
pub(crate) fn header_name_accepted(name: &str) -> (r: bool)
    ensures
        r == valid_header_name(name@),
{
    <axum::http::HeaderName as std::str::FromStr>::from_str(name).is_ok()
}

/// Relies on `http::HeaderValue::from_str` (through axum): it accepts exactly
/// the strings whose bytes are all a tab or at least 32 and not 127.
#[verifier::external_body]
pub(crate) fn header_value_accepted(value: &str) -> (r: bool)
    ensures
        r == valid_header_value(value@),
{
    axum::http::HeaderValue::from_str(value).is_ok()
}

/// The three header names that responses carry are accepted by the HTTP layer.
pub proof fn lemma_standard_names_valid()
    ensures
        valid_header_name("Content-Type"@),
        valid_header_name("Access-Control-Allow-Origin"@),
        valid_header_name("Cache-Control"@),
{
    reveal_strlit("Content-Type");
    reveal_strlit("Access-Control-Allow-Origin");
    reveal_strlit("Cache-Control");
}

/// Every decimal rendering is a valid header value.
pub proof fn lemma_decimal_valid(n: nat)
    ensures
        valid_header_value(decimal(n)),
    decreases n,
{
    if n >= 10 {
        lemma_decimal_valid(n / 10);
    }
}

/// Every Cache-Control value is a valid header value.
pub proof fn lemma_max_age_valid(n: nat)
    ensures
        valid_header_value(max_age(n)),
{
    reveal_strlit("max-age=");
    lemma_decimal_valid(n);
    let s = max_age(n);
    assert forall|i: int| 0 <= i < s.len() implies is_value_char(#[trigger] s[i]) by {
        if i >= 8 {
            assert(s[i] == decimal(n)[i - 8]);
        }
    }
}

} // verus!
