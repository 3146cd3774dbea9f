//! The addresses and requests of the back-end's local web interface.

use vstd::prelude::*;
use vstd::utf8::encode_utf8;
use crate::text::{
    decimal, decimal_parse_round_trip, decimal_string, parsed_u32, signed_decimal,
    signed_decimal_string,
};
use crate::urlencode::{percent_decode_inverts_encode, percent_decoded, percent_encoded, urlencode};

verus! {

/// Most results a search may ask for.
pub const MAX_SEARCH_LIMIT: u32 = 30;

/// `http://127.0.0.1:<port>`.
pub open spec fn local_base(port: u16) -> Seq<char> {
    "http://127.0.0.1:"@ + decimal(port as nat)
}

/// The percent-encoding of a text's UTF-8 bytes.
pub open spec fn query_value(s: Seq<char>) -> Seq<char> {
    percent_encoded(encode_utf8(s))
}

fn local_base_string(port: u16) -> (r: String)
    ensures
        r@ == local_base(port),
{
    let mut r = String::from_str("http://127.0.0.1:");
    let p = decimal_string(port as u64);
    r.append(p.as_str());
    r
}

/// The list of book sources, also used to probe that the back-end is up.
pub fn sources_url(port: u16) -> (r: String)
    ensures
        r@ == local_base(port) + "/sources"@,
{
    let mut r = local_base_string(port);
    r.append("/sources");
    r
}

/// The books the back-end has downloaded.
pub fn local_books_url(port: u16) -> (r: String)
    ensures
        r@ == local_base(port) + "/local-books"@,
{
    let mut r = local_base_string(port);
    r.append("/local-books");
    r
}

/// The number of results a search asks for: the requested number, 30 when
/// none is given, and never more than 30.
pub open spec fn effective_limit(requested: Option<u32>) -> u32 {
    match requested {
        Some(l) => if l < MAX_SEARCH_LIMIT {
            l
        } else {
            MAX_SEARCH_LIMIT
        },
        None => MAX_SEARCH_LIMIT,
    }
}

/// The number of results a search asks for (see `effective_limit`).
pub fn search_limit(requested: Option<u32>) -> (r: u32)
    ensures
        r == effective_limit(requested),
        r <= MAX_SEARCH_LIMIT,
{
    match requested {
        Some(l) => if l < MAX_SEARCH_LIMIT {
            l
        } else {
            MAX_SEARCH_LIMIT
        },
        None => MAX_SEARCH_LIMIT,
    }
}

/// The aggregated search for the keyword `kw`.
pub fn search_url(port: u16, kw: &str, requested: Option<u32>) -> (r: String)
    ensures
        r@ == local_base(port) + "/search/aggregated?kw="@ + query_value(kw@) + "&searchLimit="@
            + decimal(effective_limit(requested) as nat),
{
    let limit = search_limit(requested);
    let mut r = local_base_string(port);
    r.append("/search/aggregated?kw=");
    let k = urlencode(kw);
    r.append(k.as_str());
    r.append("&searchLimit=");
    let l = decimal_string(limit as u64);
    r.append(l.as_str());
    r
}

/// The download of the book at `url` from the source `source_id`, in the
/// file format `format`.
pub fn fetch_url(port: u16, url: &str, source_id: i64, format: &str) -> (r: String)
    ensures
        r@ == local_base(port) + "/book-fetch?url="@ + query_value(url@) + "&id="@
            + signed_decimal(source_id as int) + "&format="@ + query_value(format@),
{
    let mut r = local_base_string(port);
    r.append("/book-fetch?url=");
    let u = urlencode(url);
    r.append(u.as_str());
    r.append("&id=");
    let i = signed_decimal_string(source_id);
    r.append(i.as_str());
    r.append("&format=");
    let f = urlencode(format);
    r.append(f.as_str());
    r
}

/// `127.0.0.1:<port>`.
pub open spec fn backend_address_text(port: u16) -> Seq<char> {
    "127.0.0.1:"@ + decimal(port as nat)
}

/// The socket address of the back-end's web interface.
pub fn backend_address(port: u16) -> (r: String)
    ensures
        r@ == backend_address_text(port),
{
    let mut r = String::from_str("127.0.0.1:");
    let p = decimal_string(port as u64);
    r.append(p.as_str());
    r
}

/// The HTTP request that subscribes to the back-end's download progress
/// events.
pub fn progress_request(port: u16) -> (r: String)
    ensures
        r@ == "GET /download-progress HTTP/1.1\r\nHost: "@ + backend_address_text(port)
            + "\r\nAccept: text/event-stream\r\nConnection: keep-alive\r\n\r\n"@,
{
    let mut r = String::from_str("GET /download-progress HTTP/1.1\r\nHost: ");
    let a = backend_address(port);
    r.append(a.as_str());
    r.append("\r\nAccept: text/event-stream\r\nConnection: keep-alive\r\n\r\n");
    r
}

/// Law: every address of the back-end the library builds is on the
/// loopback interface, so the back-end is only reached from this machine.
pub proof fn backend_traffic_is_local(port: u16, rest: Seq<char>)
    ensures
        "http://127.0.0.1:"@.is_prefix_of(local_base(port) + rest),
        "127.0.0.1:"@.is_prefix_of(backend_address_text(port) + rest),
{
    assert(("http://127.0.0.1:"@ + decimal(port as nat) + rest).subrange(
        0,
        "http://127.0.0.1:"@.len() as int,
    ) =~= "http://127.0.0.1:"@);
    assert(("127.0.0.1:"@ + decimal(port as nat) + rest).subrange(
        0,
        "127.0.0.1:"@.len() as int,
    ) =~= "127.0.0.1:"@);
}

/// Law: the back-end's socket address (also the progress request's
/// `Host`) and the base of its URLs name the given port: after the loopback
/// prefix comes a number that reads back as that port, so different ports
/// give different addresses.
pub proof fn addresses_name_their_port(port: u16, other: u16)
    ensures
        "127.0.0.1:"@.is_prefix_of(backend_address_text(port)),
        parsed_u32(backend_address_text(port).skip(10)) == Some(port as u32),
        "http://127.0.0.1:"@.is_prefix_of(local_base(port)),
        parsed_u32(local_base(port).skip(17)) == Some(port as u32),
        port != other ==> backend_address_text(port) != backend_address_text(other),
        port != other ==> local_base(port) != local_base(other),
{
    reveal_strlit("127.0.0.1:");
    reveal_strlit("http://127.0.0.1:");
    decimal_parse_round_trip(port as u32);
    decimal_parse_round_trip(other as u32);
    assert(backend_address_text(port).subrange(0, 10) =~= "127.0.0.1:"@);
    assert(backend_address_text(port).skip(10) =~= decimal(port as nat));
    assert(backend_address_text(other).skip(10) =~= decimal(other as nat));
    assert(local_base(port).subrange(0, 17) =~= "http://127.0.0.1:"@);
    assert(local_base(port).skip(17) =~= decimal(port as nat));
    assert(local_base(other).skip(17) =~= decimal(other as nat));
}

/// Law: the number of results a search asks for is the request capped at
/// 30: never above 30 nor above the request, equal to any request of at
/// most 30, and 30 for larger requests or none.
pub proof fn search_limit_is_request_capped(requested: Option<u32>)
    ensures
        effective_limit(requested) <= 30,
        requested matches Some(l) ==> effective_limit(requested) <= l,
        requested matches Some(l) ==> (l <= 30 ==> effective_limit(requested) == l),
        requested matches Some(l) ==> (l >= 30 ==> effective_limit(requested) == 30),
        requested is None ==> effective_limit(requested) == 30,
{
}

/// Law: a query value decodes back to the UTF-8 bytes of the text it was
/// made from.
pub proof fn query_value_decodes(s: Seq<char>)
    ensures
        percent_decoded(query_value(s)) == Some(encode_utf8(s)),
{
    percent_decode_inverts_encode(encode_utf8(s));
}

} // verus!
