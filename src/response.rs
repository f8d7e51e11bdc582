//! Assembling a response: status, headers and body, where a header that the
//! HTTP layer would refuse turns the response into an internal error.

use vstd::prelude::*;

use crate::headers::{
    header_name_accepted, header_value_accepted, header_views, valid_header_name,
    valid_header_value, SetHeader,
};

verus! {

/// The status of a file that was found and read.
pub const STATUS_OK: u16 = 200;

/// The status of every fallback response.
pub const STATUS_NOT_FOUND: u16 = 404;

/// The status of a response whose headers could not be encoded.
pub const STATUS_INTERNAL_ERROR: u16 = 500;

/// A response as handed to the HTTP layer.
pub struct HttpResponse {
    pub status: u16,
    pub headers: Vec<SetHeader>,
    pub body: String,
}

/// What a response is made of: status, header views and body.
pub struct ResponseView {
    pub status: u16,
    pub headers: Seq<(Seq<char>, Seq<char>)>,
    pub body: Seq<char>,
}

impl View for HttpResponse {
    type V = ResponseView;

    open spec fn view(&self) -> ResponseView {
        ResponseView { status: self.status, headers: header_views(self.headers@), body: self.body@ }
    }
}

/// The message that reports a header the HTTP layer refuses: the name is
/// checked before the value.
pub open spec fn rejection(h: (Seq<char>, Seq<char>)) -> Seq<char> {
    if !valid_header_name(h.0) {
        "Invalid header name "@ + h.0
    } else {
        "Invalid header value "@ + h.1
    }
}

/// A header that the HTTP layer accepts.
pub open spec fn header_ok(h: (Seq<char>, Seq<char>)) -> bool {
    valid_header_name(h.0) && valid_header_value(h.1)
}

/// The message for the first refused header of `hs`, if any.
pub open spec fn first_rejection(hs: Seq<(Seq<char>, Seq<char>)>) -> Option<Seq<char>>
    decreases hs.len(),
{
    if hs.len() == 0 {
        None
    } else if !header_ok(hs[0]) {
        Some(rejection(hs[0]))
    } else {
        first_rejection(hs.drop_first())
    }
}

/// The response made of a status, headers and a body: as given when every
/// header is accepted, else an internal error whose body names the first
/// refused header.
pub open spec fn assembled(status: u16, hs: Seq<(Seq<char>, Seq<char>)>, body: Seq<char>) -> ResponseView {
    match first_rejection(hs) {
        None => ResponseView { status, headers: hs, body },
        Some(m) => ResponseView { status: STATUS_INTERNAL_ERROR, headers: seq![], body: m },
    }
}

/// The message for one header, or `None` where it is accepted.
fn check_header(h: &SetHeader) -> (r: Option<String>)
    ensures
        r is None <==> header_ok(h@),
        r matches Some(m) ==> m@ == rejection(h@),
{
    if !header_name_accepted(h.name.as_str()) {
        let mut m = String::from_str("Invalid header name ");
        m.append(h.name.as_str());
        Some(m)
    } else if !header_value_accepted(h.value.as_str()) {
        let mut m = String::from_str("Invalid header value ");
        m.append(h.value.as_str());
        Some(m)
    } else {
        None
    }
}

/// Applies the headers in order to a response with the given status and body.
pub fn into_response(status: u16, headers: Vec<SetHeader>, body: String) -> (r: HttpResponse)
    ensures
        r@ == assembled(status, header_views(headers@), body@),
{
    let ghost hs = header_views(headers@);
    let mut i: usize = 0;
    assert(hs.subrange(0, hs.len() as int) =~= hs);
    while i < headers.len()
        invariant
            0 <= i <= headers.len(),
            hs == header_views(headers@),
            first_rejection(hs) == first_rejection(hs.subrange(i as int, hs.len() as int)),
        decreases headers.len() - i,
    {
        let ghost rest = hs.subrange(i as int, hs.len() as int);
        assert(rest.drop_first() =~= hs.subrange(i + 1, hs.len() as int));
        assert(rest[0] == headers@[i as int]@);
        match check_header(&headers[i]) {
            Some(m) => {
                let none: Vec<SetHeader> = Vec::new();
                assert(header_views(none@) =~= seq![]);
                return HttpResponse { status: STATUS_INTERNAL_ERROR, headers: none, body: m };
            },
            None => {},
        }
        i = i + 1;
    }
    assert(hs.subrange(i as int, hs.len() as int) =~= Seq::<(Seq<char>, Seq<char>)>::empty());
    HttpResponse { status, headers, body }
}

} // verus!
