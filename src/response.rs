use vstd::prelude::*;
use vstd::utf8::{
    decode_utf8, encode_utf8, encode_utf8_decode_utf8, encode_utf8_valid_utf8, valid_utf8,
};

verus! {

/// A decoded reply: a two-digit status, the header's meta text and the raw body.
#[derive(Debug, Clone)]
pub struct Response {
    pub status: u8,
    pub meta: String,
    pub body: Vec<u8>,
}

impl View for Response {
    type V = (u8, Seq<char>, Seq<u8>);

    open spec fn view(&self) -> (u8, Seq<char>, Seq<u8>) {
        (self.status, self.meta@, self.body@)
    }
}

#[derive(Debug, Clone, Copy, PartialEq, Eq, Structural)]
pub enum ResponseError {
    BadResponse,
}

pub open spec fn is_digit(b: u8) -> bool {
    48 <= b && b <= 57
}

pub open spec fn crlf_at(s: Seq<u8>, i: int) -> bool {
    0 <= i && i + 1 < s.len() && s[i] == 13u8 && s[i + 1] == 10u8
}

/// Where the first CR LF of `s` at or after `i` begins.
pub open spec fn crlf_from(s: Seq<u8>, i: int) -> Option<int>
    decreases s.len() - i,
{
    if i < 0 || i + 1 >= s.len() {
        None
    } else if crlf_at(s, i) {
        Some(i)
    } else {
        crlf_from(s, i + 1)
    }
}

/// The bytes after the status digits and the separator.
pub open spec fn after_status(input: Seq<u8>) -> Seq<u8> {
    input.skip(3)
}

pub open spec fn status_value(input: Seq<u8>) -> u8 {
    ((input[0] - 48) * 10 + (input[1] - 48)) as u8
}

/// The reply that a received buffer stands for, if it is well formed:
/// two ASCII digits, one separator byte, UTF-8 meta text up to the first
/// CR LF, and everything after that CR LF as the body.
pub open spec fn decode_spec(input: Seq<u8>) -> Option<(u8, Seq<char>, Seq<u8>)> {
    if input.len() < 3 || !is_digit(input[0]) || !is_digit(input[1]) {
        None
    } else {
        let rest = after_status(input);
        match crlf_from(rest, 0) {
            None => None,
            Some(p) => if valid_utf8(rest.take(p)) {
                Some((status_value(input), decode_utf8(rest.take(p)), rest.skip(p + 2)))
            } else {
                None
            },
        }
    }
}

/// The bytes a server sends for a reply: status digits, separator, meta, CR LF, body.
pub open spec fn encode_spec(status: u8, sep: u8, meta: Seq<char>, body: Seq<u8>) -> Seq<u8> {
    seq![(48 + status / 10) as u8, (48 + status % 10) as u8, sep] + encode_utf8(meta) + seq![
        13u8,
        10u8,
    ] + body
}

/// Relies on String::from_utf8: it succeeds exactly on valid UTF-8, with the
/// characters that the bytes encode.
#[verifier::external_body]
fn string_from_utf8(bytes: Vec<u8>) -> (r: Option<String>)
    ensures
        match r {
            Some(s) => valid_utf8(bytes@) && s@ == decode_utf8(bytes@),
            None => !valid_utf8(bytes@),
        },
{
    String::from_utf8(bytes).ok()
}

fn copy_range(input: &[u8], start: usize, end: usize) -> (r: Vec<u8>)
    requires
        start <= end <= input@.len(),
    ensures
        r@ == input@.subrange(start as int, end as int),
{
    let mut out: Vec<u8> = Vec::new();
    let mut i: usize = start;
    while i < end
        invariant
            start <= i <= end <= input@.len(),
            out@ == input@.subrange(start as int, i as int),
        decreases end - i,
    {
        out.push(input[i]);
        i = i + 1;
    }
    out
}

impl Response {
    /// Decodes a complete reply buffer.
    pub fn from_raw(input: &[u8]) -> (r: Result<Response, ResponseError>)
        ensures
            match r {
                Ok(resp) => decode_spec(input@) == Some(resp@),
                Err(_) => decode_spec(input@) is None,
            },
    {
        let len = input.len();
        if len < 3 {
            return Err(ResponseError::BadResponse);
        }
        let d0 = input[0];
        let d1 = input[1];
        if d0 < 48 || d0 > 57 || d1 < 48 || d1 > 57 {
            return Err(ResponseError::BadResponse);
        }
        let status: u8 = (d0 - 48) * 10 + (d1 - 48);
        let ghost rest = after_status(input@);
        let mut i: usize = 3;
        while i < len - 1 && !(input[i] == 13 && input[i + 1] == 10)
            invariant
                3 <= i <= len,
                len == input@.len(),
                rest == input@.skip(3),
                crlf_from(rest, 0) == crlf_from(rest, i - 3),
            decreases len - i,
        {
            assert(!crlf_at(rest, i - 3));
            i = i + 1;
        }
        if i >= len - 1 {
            return Err(ResponseError::BadResponse);
        }
        assert(crlf_at(rest, i - 3));
        let meta_bytes = copy_range(input, 3, i);
        assert(meta_bytes@ =~= rest.take(i - 3));
        let body = copy_range(input, i + 2, len);
        assert(body@ =~= rest.skip(i - 3 + 2));
        match string_from_utf8(meta_bytes) {
            Some(meta) => Ok(Response { status, meta, body }),
            None => Err(ResponseError::BadResponse),
        }
    }
}

proof fn lemma_crlf_found(s: Seq<u8>, i: int, p: int)
    requires
        0 <= i <= p,
        crlf_at(s, p),
        forall|j: int| i <= j < p ==> !crlf_at(s, j),
    ensures
        crlf_from(s, i) == Some(p),
    decreases p - i,
{
    if i < p {
        lemma_crlf_found(s, i + 1, p);
    }
}

proof fn lemma_crlf_absent(s: Seq<u8>, i: int)
    requires
        0 <= i,
        forall|j: int| i <= j ==> !crlf_at(s, j),
    ensures
        crlf_from(s, i) is None,
    decreases s.len() - i,
{
    if i + 1 < s.len() {
        lemma_crlf_absent(s, i + 1);
    }
}

/// Decoding what a server sends for a status below one hundred, any
/// separator byte, meta text whose encoding holds no CR LF, and any body
/// gives back exactly that status, meta and body.
pub proof fn lemma_decode_round_trip(status: u8, sep: u8, meta: Seq<char>, body: Seq<u8>)
    requires
        status < 100,
        forall|j: int| !crlf_at(encode_utf8(meta), j),
    ensures
        decode_spec(encode_spec(status, sep, meta, body)) == Some((status, meta, body)),
{
    let m = encode_utf8(meta);
    let input = encode_spec(status, sep, meta, body);
    let rest = after_status(input);
    assert(rest =~= m + seq![13u8, 10u8] + body);
    assert(crlf_at(rest, m.len() as int));
    assert forall|j: int| 0 <= j < m.len() implies !crlf_at(rest, j) by {
        assert(!crlf_at(m, j));
    }
    lemma_crlf_found(rest, 0, m.len() as int);
    assert(rest.take(m.len() as int) =~= m);
    assert(rest.skip(m.len() as int + 2) =~= body);
    encode_utf8_valid_utf8(meta);
    encode_utf8_decode_utf8(meta);
    assert(status_value(input) == status);
}

/// A buffer of fewer than three bytes never decodes.
pub proof fn lemma_short_buffer_rejected(input: Seq<u8>)
    requires
        input.len() < 3,
    ensures
        decode_spec(input) is None,
{
}

/// A buffer with no CR LF after the status digits and the separator never
/// decodes.
pub proof fn lemma_missing_crlf_rejected(input: Seq<u8>)
    requires
        forall|j: int| 3 <= j ==> !crlf_at(input, j),
    ensures
        decode_spec(input) is None,
{
    if input.len() >= 3 {
        let rest = after_status(input);
        assert forall|j: int| 0 <= j implies !crlf_at(rest, j) by {
            assert(!crlf_at(input, j + 3));
        }
        lemma_crlf_absent(rest, 0);
    }
}

} // verus!
