//! What the HTTP edge of the service decides around a request: the text that
//! a `GET` query or a `POST` body hands to the RPC dispatcher, and the status
//! of the reply that goes back.

use vstd::prelude::*;
use vstd::utf8::{
    char_u32_cast, decode_utf8, encode_scalar, encode_utf8, encode_utf8_decode_utf8, encode_utf8_valid_utf8,
    has_width_1_encoding, valid_utf8,
};

verus! {

/// The value of an ASCII hexadecimal digit, either case.
pub open spec fn hex_digit_value(b: u8) -> Option<u8> {
    if 0x30 <= b <= 0x39 {
        Some((b - 0x30) as u8)
    } else if 0x41 <= b <= 0x46 {
        Some((b - 0x41 + 10) as u8)
    } else if 0x61 <= b <= 0x66 {
        Some((b - 0x61 + 10) as u8)
    } else {
        None
    }
}

/// Percent-decoding of bytes: `%` followed by two hexadecimal digits becomes
/// the byte they spell; every other byte, `+` and a `%` that does not start
/// such an escape among them, is kept as it is.
pub open spec fn percent_decoded_bytes(bytes: Seq<u8>) -> Seq<u8>
    decreases bytes.len(),
{
    if bytes.len() == 0 {
        Seq::empty()
    } else if bytes[0] != 0x25 {
        seq![bytes[0]] + percent_decoded_bytes(bytes.drop_first())
    } else if bytes.len() < 3 {
        bytes
    } else {
        match (hex_digit_value(bytes[1]), hex_digit_value(bytes[2])) {
            (Some(high), Some(low)) => seq![(high * 16 + low) as u8] + percent_decoded_bytes(
                bytes.skip(3),
            ),
            (Some(_), None) => seq![0x25u8, bytes[1]] + percent_decoded_bytes(bytes.skip(2)),
            (None, _) => seq![0x25u8] + percent_decoded_bytes(bytes.skip(1)),
        }
    }
}

/// The text that percent-decoding `raw` gives: its UTF-8 bytes percent-decoded
/// and read back as UTF-8; `None` where those bytes are not valid UTF-8.
pub open spec fn url_decoded(raw: Seq<char>) -> Option<Seq<char>> {
    let bytes = percent_decoded_bytes(encode_utf8(raw));
    if valid_utf8(bytes) {
        Some(decode_utf8(bytes))
    } else {
        None
    }
}

/// Bytes without a `%` are their own percent-decoding.
pub proof fn lemma_no_percent_bytes_unchanged(bytes: Seq<u8>)
    requires
        !bytes.contains(0x25u8),
    ensures
        percent_decoded_bytes(bytes) == bytes,
    decreases bytes.len(),
{
    if bytes.len() > 0 {
        assert(bytes[0] != 0x25u8);
        let rest = bytes.drop_first();
        assert forall|i: int| 0 <= i < rest.len() implies rest[i] != 0x25u8 by {
            assert(rest[i] == bytes[i + 1]);
        }
        lemma_no_percent_bytes_unchanged(rest);
        assert(seq![bytes[0]] + rest =~= bytes);
    }
}

/// The UTF-8 encoding of a character other than `%` holds no `%` byte: every
/// byte of a multi-byte encoding has its high bit set.
proof fn lemma_scalar_encoding_has_no_percent(c: u32)
    requires
        c != 0x25,
    ensures
        !encode_scalar(c).contains(0x25u8),
{
    let e = encode_scalar(c);
    if has_width_1_encoding(c) {
        assert((c & 0x7F) as u8 != 0x25u8) by (bit_vector)
            requires
                c != 0x25,
                c <= 0x7F,
        ;
        assert(e[0] != 0x25u8);
    } else {
        assert(forall|x: u8| #![auto] (0x80u8 | x) != 0x25u8) by (bit_vector);
        assert(forall|x: u8| #![auto] (0xC0u8 | x) != 0x25u8) by (bit_vector);
        assert(forall|x: u8| #![auto] (0xE0u8 | x) != 0x25u8) by (bit_vector);
        assert(forall|x: u8| #![auto] (0xF0u8 | x) != 0x25u8) by (bit_vector);
        assert forall|i: int| 0 <= i < e.len() implies e[i] != 0x25u8 by {}
    }
}

/// Text without a `%` encodes to bytes without a `%`.
proof fn lemma_encoding_has_no_percent(chars: Seq<char>)
    requires
        !chars.contains('%'),
    ensures
        !encode_utf8(chars).contains(0x25u8),
    decreases chars.len(),
{
    if chars.len() > 0 {
        assert(chars[0] != '%');
        if (chars[0] as u32) == 0x25 {
            char_u32_cast(chars[0], 0x25);
            char_u32_cast('%', '%' as u32);
            assert(('%' as u32) == 0x25);
        }
        lemma_scalar_encoding_has_no_percent(chars[0] as u32);
        let rest = chars.drop_first();
        assert forall|i: int| 0 <= i < rest.len() implies rest[i] != '%' by {
            assert(rest[i] == chars[i + 1]);
        }
        lemma_encoding_has_no_percent(rest);
        let head = encode_scalar(chars[0] as u32);
        let tail = encode_utf8(rest);
        assert forall|i: int| 0 <= i < head.len() + tail.len() implies (head + tail)[i]
            != 0x25u8 by {
            if i < head.len() {
                assert((head + tail)[i] == head[i]);
            } else {
                assert((head + tail)[i] == tail[i - head.len()]);
            }
        }
    }
}

/// Text without a `%` is its own percent-decoding.
pub proof fn lemma_no_percent_text_unchanged(raw: Seq<char>)
    requires
        !raw.contains('%'),
    ensures
        url_decoded(raw) == Some(raw),
{
    lemma_encoding_has_no_percent(raw);
    lemma_no_percent_bytes_unchanged(encode_utf8(raw));
    encode_utf8_valid_utf8(raw);
    encode_utf8_decode_utf8(raw);
}

/// Percent-decodes a query string by calling `urlencoding::decode`.
///
/// Trusted: the crate's source percent-decodes the bytes of `raw` as
/// `percent_decoded_bytes` states (an escape is `%` and two hexadecimal digits
/// of either case; anything else, `+` included, is copied) and then reads them
/// as UTF-8, failing where they are not valid UTF-8.
#[verifier::external_body]
fn percent_decode(raw: &str) -> (decoded: Option<String>)
    ensures
        match decoded {
            Some(d) => url_decoded(raw@) == Some(d@),
            None => url_decoded(raw@).is_none(),
        },
{
    match urlencoding::decode(raw) {
        Ok(text) => Some(text.into_owned()),
        Err(_) => None,
    }
}

/// Reads `bytes` as UTF-8 by calling `std::str::from_utf8`.
///
/// Trusted: std documents that it succeeds exactly on valid UTF-8, and the
/// text is then the decoding of the bytes.
#[verifier::external_body]
fn utf8_text(bytes: &[u8]) -> (text: Option<String>)
    ensures
        text.is_some() == valid_utf8(bytes@),
        text matches Some(t) ==> t@ == decode_utf8(bytes@),
{
    match std::str::from_utf8(bytes) {
        Ok(s) => Some(s.to_string()),
        Err(_) => None,
    }
}

/// Validates an HTTP status code by calling `axum::http::StatusCode::from_u16`.
///
/// Trusted: the crate's source accepts exactly the codes from 100 to 999 and
/// keeps the number it was given.
#[verifier::external_body]
fn valid_status(code: u16) -> (status: Option<u16>)
    ensures
        status == (if 100 <= code <= 999 { Some(code) } else { None::<u16> }),
{
    match axum::http::StatusCode::from_u16(code) {
        Ok(s) => Some(s.as_u16()),
        Err(_) => None,
    }
}

/// The number of `axum::http::StatusCode::INTERNAL_SERVER_ERROR`.
///
/// Trusted: the crate defines that constant as 500.
#[verifier::external_body]
fn internal_server_error() -> (code: u16)
    ensures
        code == 500,
{
    axum::http::StatusCode::INTERNAL_SERVER_ERROR.as_u16()
}

/// The number of `axum::http::StatusCode::BAD_REQUEST`.
///
/// Trusted: the crate defines that constant as 400.
#[verifier::external_body]
fn bad_request() -> (code: u16)
    ensures
        code == 400,
{
    axum::http::StatusCode::BAD_REQUEST.as_u16()
}


/// A reply that the HTTP edge sends back: status code, content type, body.
pub struct HttpReply {
    pub status: u16,
    pub content_type: String,
    pub body: String,
}

/// The content type of the reply to a body that is not UTF-8.
pub open spec fn plain_text_type() -> Seq<char> {
    "text/plain; charset=utf-8"@
}

/// The body of the reply to a body that is not UTF-8.
pub open spec fn not_utf8_message() -> Seq<char> {
    "bad request: body is not valid UTF-8"@
}

/// The query string that a `GET` request carries, the empty text when it has none.
pub open spec fn query_or_empty(query: Option<Seq<char>>) -> Seq<char> {
    match query {
        Some(q) => q,
        None => Seq::empty(),
    }
}

/// The request text of a `GET`: the percent-decoded query, or the query as
/// it came where decoding does not give UTF-8.
pub open spec fn get_request_text(query: Option<Seq<char>>) -> Seq<char> {
    let raw = query_or_empty(query);
    match url_decoded(raw) {
        Some(d) => d,
        None => raw,
    }
}

/// The status of the reply to a dispatched request: the dispatcher's code
/// where HTTP accepts it (100 to 999), otherwise 500.
pub open spec fn reply_status_of(code: u16) -> u16 {
    if 100 <= code <= 999 {
        code
    } else {
        500
    }
}

/// The reply to a `POST` whose body is not UTF-8.
pub open spec fn is_not_utf8_reply(reply: HttpReply) -> bool {
    &&& reply.status == 400
    &&& reply.content_type@ == plain_text_type()
    &&& reply.body@ == not_utf8_message()
}

/// The request text of a `GET` once the query has been decoded: `decoded`
/// where decoding gave text, the raw query otherwise.
pub fn text_from_decoded(raw: &str, decoded: Option<String>) -> (text: String)
    ensures
        text@ == match decoded {
            Some(d) => d@,
            None => raw@,
        },
{
    match decoded {
        Some(d) => d,
        None => raw.to_owned(),
    }
}

/// The request text that a `GET` hands to the dispatcher: its query string,
/// empty when there is none, percent-decoded, or left as it came when the
/// decoded bytes are not UTF-8.
pub fn request_text_from_query(query: Option<&str>) -> (text: String)
    ensures
        text@ == get_request_text(
            match query {
                Some(q) => Some(q@),
                None => None,
            },
        ),
        !query_or_empty(
            match query {
                Some(q) => Some(q@),
                None => None,
            },
        ).contains('%') ==> text@ == query_or_empty(
            match query {
                Some(q) => Some(q@),
                None => None,
            },
        ),
        url_decoded(query_or_empty(
            match query {
                Some(q) => Some(q@),
                None => None,
            },
        )) matches Some(d) ==> text@ == d,
        url_decoded(query_or_empty(
            match query {
                Some(q) => Some(q@),
                None => None,
            },
        )) is None ==> text@ == query_or_empty(
            match query {
                Some(q) => Some(q@),
                None => None,
            },
        ),
{
    let raw: &str = match query {
        Some(q) => q,
        None => "",
    };
    proof {
        reveal_strlit("");
        assert(raw@ =~= query_or_empty(
            match query {
                Some(q) => Some(q@),
                None => None,
            },
        ));
    }
    let decoded = percent_decode(raw);
    proof {
        if !raw@.contains('%') {
            lemma_no_percent_text_unchanged(raw@);
        }
    }
    text_from_decoded(raw, decoded)
}

/// The request text that a `POST` hands to the dispatcher: its body read as
/// UTF-8; a body that is not UTF-8 gets a 400 reply in plain text instead.
pub fn request_text_from_body(body: &[u8]) -> (result: Result<String, HttpReply>)
    ensures
        match result {
            Ok(text) => valid_utf8(body@) && text@ == decode_utf8(body@),
            Err(reply) => !valid_utf8(body@) && is_not_utf8_reply(reply),
        },
{
    match utf8_text(body) {
        Some(text) => Ok(text),
        None => {
            proof {
                reveal_strlit("text/plain; charset=utf-8");
                reveal_strlit("bad request: body is not valid UTF-8");
            }
            Err(
                HttpReply {
                    status: bad_request(),
                    content_type: "text/plain; charset=utf-8".to_owned(),
                    body: "bad request: body is not valid UTF-8".to_owned(),
                },
            )
        },
    }
}

/// The status of the reply to a dispatched request: the dispatcher's code
/// where HTTP accepts it, otherwise 500 (internal server error).
pub fn reply_status(code: u16) -> (status: u16)
    ensures
        status == reply_status_of(code),
        100 <= code <= 999 ==> status == code,
        !(100 <= code <= 999) ==> status == 500,
{
    match valid_status(code) {
        Some(s) => s,
        None => internal_server_error(),
    }
}

/// The reply that carries the dispatcher's answer back: its content type and
/// data unchanged, under the status that `reply_status` gives its code.
pub fn reply_from_dispatch(code: u16, content_type: String, data: String) -> (reply: HttpReply)
    ensures
        reply.status == reply_status_of(code),
        100 <= code <= 999 ==> reply.status == code,
        !(100 <= code <= 999) ==> reply.status == 500,
        reply.content_type@ == content_type@,
        reply.body@ == data@,
{
    HttpReply { status: reply_status(code), content_type, body: data }
}


/// A reply keeps every status code that HTTP accepts, from 100 to 999, and
/// answers every other code with 500 (internal server error).
pub proof fn lemma_reply_status_keeps_valid_codes(code: u16)
    ensures
        100 <= code <= 999 ==> reply_status_of(code) == code,
        !(100 <= code <= 999) ==> reply_status_of(code) == 500,
        100 <= reply_status_of(code) <= 999,
{
}

/// A `GET` hands on the decoded query whenever decoding gives text, whatever
/// the query's length, and the query as it came only where it does not.
pub proof fn lemma_get_text_is_decoded_query(query: Option<Seq<char>>)
    ensures
        url_decoded(query_or_empty(query)) matches Some(d) ==> get_request_text(query) == d,
        url_decoded(query_or_empty(query)) is None ==> get_request_text(query)
            == query_or_empty(query),
        query is None ==> get_request_text(query) == Seq::<char>::empty(),
{
    if query is None {
        lemma_no_percent_text_unchanged(Seq::<char>::empty());
    }
}

/// Bytes without a `%` are copied, and decoding goes on after them: the
/// decoding of `plain + rest` is `plain` followed by the decoding of `rest`.
pub proof fn lemma_plain_bytes_are_copied(plain: Seq<u8>, rest: Seq<u8>)
    requires
        !plain.contains(0x25u8),
    ensures
        percent_decoded_bytes(plain + rest) == plain + percent_decoded_bytes(rest),
    decreases plain.len(),
{
    if plain.len() == 0 {
        assert(plain + rest =~= rest);
    } else {
        let tail = plain.drop_first();
        assert forall|i: int| 0 <= i < tail.len() implies tail[i] != 0x25u8 by {
            assert(tail[i] == plain[i + 1]);
        }
        assert((plain + rest)[0] == plain[0]);
        assert((plain + rest).drop_first() =~= tail + rest);
        lemma_plain_bytes_are_copied(tail, rest);
        assert(seq![plain[0]] + (tail + percent_decoded_bytes(rest)) =~= plain
            + percent_decoded_bytes(rest));
    }
}

/// An escape, `%` and two hexadecimal digits, decodes to the byte that the
/// digits spell, high digit first, and decoding goes on after it, however
/// long the rest is.
pub proof fn lemma_escape_is_decoded(high: u8, low: u8, rest: Seq<u8>)
    requires
        hex_digit_value(high) is Some,
        hex_digit_value(low) is Some,
    ensures
        percent_decoded_bytes(seq![0x25u8, high, low] + rest) == seq![
            (hex_digit_value(high).unwrap() * 16 + hex_digit_value(low).unwrap()) as u8,
        ] + percent_decoded_bytes(rest),
{
    let bytes = seq![0x25u8, high, low] + rest;
    assert(bytes[0] == 0x25u8);
    assert(bytes[1] == high);
    assert(bytes[2] == low);
    assert(bytes.skip(3) =~= rest);
}

/// The hexadecimal digits are exactly `0`-`9`, `a`-`f` and `A`-`F`, with
/// their usual values.
pub proof fn lemma_hex_digits(b: u8)
    ensures
        0x30 <= b <= 0x39 ==> hex_digit_value(b) == Some((b - 0x30) as u8),
        0x41 <= b <= 0x46 ==> hex_digit_value(b) == Some((b - 0x37) as u8),
        0x61 <= b <= 0x66 ==> hex_digit_value(b) == Some((b - 0x57) as u8),
        !(0x30 <= b <= 0x39 || 0x41 <= b <= 0x46 || 0x61 <= b <= 0x66) ==> hex_digit_value(b)
            is None,
{
}

} // verus!
