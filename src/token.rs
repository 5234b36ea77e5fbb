//! Opaque continuation tokens.
//!
//! A token carries the sort key `(id, created_at)` of the last record of a
//! page. The key is laid out as sixteen bytes (the id, the seconds and the
//! nanoseconds, each big-endian) and the bytes are written in unpadded
//! URL-safe base64, so the token can stand in a query string as it is.

use base64::engine::general_purpose::URL_SAFE_NO_PAD;
use base64::Engine;
use vstd::prelude::*;

use crate::be_bytes::{
    be32, be64, get_be32, get_be64, lemma_be32_round_trip, lemma_be64_round_trip,
    lemma_read_be32_round_trip, lemma_read_be64_round_trip, push_be32, push_be64, read_be32,
    read_be64,
};
use crate::timestamp::Timestamp;

verus! {

#[verifier::external_type_specification]
#[verifier::external_body]
pub struct ExDecodeError(base64::DecodeError);

/// The unpadded URL-safe base64 text of `bytes`.
pub uninterp spec fn base64url_of(bytes: Seq<u8>) -> Seq<char>;

/// Relies on base64's `URL_SAFE_NO_PAD.encode`: the unpadded URL-safe text
/// of the bytes. It panics only when the output length overflows `usize`.
#[verifier::external_body]
fn base64url_encode(bytes: &[u8]) -> (r: String)
    requires
        bytes@.len() <= 1024,
    ensures
        r@ == base64url_of(bytes@),
{
    URL_SAFE_NO_PAD.encode(bytes)
}

/// Relies on base64's `URL_SAFE_NO_PAD.decode`: the text that `encode` gives
/// for some bytes decodes to those bytes, and any other text (padding,
/// trailing bits, a symbol outside the alphabet, a bad length) is an error.
#[verifier::external_body]
fn base64url_decode(text: &str) -> (r: Result<Vec<u8>, base64::DecodeError>)
    ensures
        forall|b: Seq<u8>| #[trigger] base64url_of(b) == text@ ==> r is Ok && r->Ok_0@ == b,
        r is Ok ==> base64url_of(r->Ok_0@) == text@,
{
    URL_SAFE_NO_PAD.decode(text)
}

/// Number of bytes in the binary form of a cursor.
pub const CURSOR_LEN: usize = 16;

/// The binary form of the cursor `(id, ts)`.
pub open spec fn cursor_bytes(id: i32, ts: Timestamp) -> Seq<u8> {
    be32(id as u32) + be64(ts.secs as u64) + be32(ts.nanos)
}

/// The cursor that `b` is the binary form of, if `b` is one.
pub open spec fn cursor_from_bytes(b: Seq<u8>) -> Option<(i32, Timestamp)> {
    if b.len() == CURSOR_LEN {
        Some(
            (
                read_be32(b, 0) as i32,
                Timestamp { secs: read_be64(b, 4) as i64, nanos: read_be32(b, 12) },
            ),
        )
    } else {
        None
    }
}

/// The token that stands for the cursor `(id, ts)`.
pub open spec fn token_of(id: i32, ts: Timestamp) -> Seq<char> {
    base64url_of(cursor_bytes(id, ts))
}

/// `t` is the token of some cursor.
pub open spec fn is_token(t: Seq<char>) -> bool {
    exists|id: i32, ts: Timestamp| #[trigger] token_of(id, ts) == t
}

/// Reading back the binary form of a cursor gives that cursor.
pub proof fn lemma_cursor_bytes_round_trip(id: i32, ts: Timestamp)
    ensures
        cursor_from_bytes(cursor_bytes(id, ts)) == Some((id, ts)),
{
    let b = cursor_bytes(id, ts);
    lemma_be32_round_trip(id as u32);
    lemma_be64_round_trip(ts.secs as u64);
    lemma_be32_round_trip(ts.nanos);
    assert(b.subrange(0, 4) =~= be32(id as u32));
    assert(b.subrange(4, 12) =~= be64(ts.secs as u64));
    assert(b.subrange(12, 16) =~= be32(ts.nanos));
    lemma_read_be32_at(b, 0, be32(id as u32));
    lemma_read_be64_at(b, 4, be64(ts.secs as u64));
    lemma_read_be32_at(b, 12, be32(ts.nanos));
    let id2 = (id as u32) as i32;
    assert(id2 == id) by (bit_vector)
        requires
            id2 == (id as u32) as i32,
    ;
    let s = ts.secs;
    let s2 = (s as u64) as i64;
    assert(s2 == s) by (bit_vector)
        requires
            s2 == (s as u64) as i64,
    ;
}

/// Sixteen bytes are the binary form of the cursor read from them.
pub proof fn lemma_cursor_from_bytes_exact(b: Seq<u8>)
    requires
        b.len() == CURSOR_LEN,
    ensures
        cursor_from_bytes(b) matches Some((id, ts)) && cursor_bytes(id, ts) == b,
{
    let id = read_be32(b, 0) as i32;
    let secs = read_be64(b, 4) as i64;
    lemma_read_be32_round_trip(b, 0);
    lemma_read_be64_round_trip(b, 4);
    lemma_read_be32_round_trip(b, 12);
    let x = read_be32(b, 0);
    let x2 = (x as i32) as u32;
    assert(x2 == x) by (bit_vector)
        requires
            x2 == (x as i32) as u32,
    ;
    let y = read_be64(b, 4);
    let y2 = (y as i64) as u64;
    assert(y2 == y) by (bit_vector)
        requires
            y2 == (y as i64) as u64,
    ;
    assert(cursor_bytes(id, Timestamp { secs, nanos: read_be32(b, 12) }) =~= b);
}

proof fn lemma_read_be32_at(b: Seq<u8>, at: int, part: Seq<u8>)
    requires
        0 <= at,
        at + 4 <= b.len(),
        b.subrange(at, at + 4) == part,
    ensures
        read_be32(b, at) == read_be32(part, 0),
{
    assert(b[at] == part[0] && b[at + 1] == part[1] && b[at + 2] == part[2] && b[at + 3]
        == part[3]);
}

proof fn lemma_read_be64_at(b: Seq<u8>, at: int, part: Seq<u8>)
    requires
        0 <= at,
        at + 8 <= b.len(),
        b.subrange(at, at + 8) == part,
    ensures
        read_be64(b, at) == read_be64(part, 0),
{
    assert(b.subrange(at, at + 4) =~= part.subrange(0, 4));
    assert(b.subrange(at + 4, at + 8) =~= part.subrange(4, 8));
    lemma_read_be32_at(b, at, part.subrange(0, 4));
    lemma_read_be32_at(part, 0, part.subrange(0, 4));
    lemma_read_be32_at(b, at + 4, part.subrange(4, 8));
    lemma_read_be32_at(part, 4, part.subrange(4, 8));
}

/// Errors of the token codec.
#[derive(Debug, Clone, PartialEq, Eq)]
pub enum TokenError {
    /// The text is not the token of any cursor.
    InvalidToken,
    /// A cursor could not be turned into a token.
    EncodingError(String),
}

impl TokenError {
    /// A one-line description for logs and responses.
    pub fn message(&self) -> (r: String)
        ensures
            self is InvalidToken ==> r@ == "Invalid pagination token"@,
            self matches TokenError::EncodingError(cause) ==> r@ == "Token encoding error: "@
                + cause@,
    {
        match self {
            TokenError::InvalidToken => String::from_str("Invalid pagination token"),
            TokenError::EncodingError(cause) => {
                String::from_str("Token encoding error: ").concat(cause.as_str())
            },
        }
    }
}

/// Encoder and decoder of continuation tokens.
#[derive(Debug, Clone)]
pub struct PaginationToken;

impl PaginationToken {
    /// The token of the cursor `(last_id, timestamp)`. Every cursor has one.
    pub fn encode(last_id: i32, timestamp: Timestamp) -> (r: Result<String, TokenError>)
        ensures
            r is Ok,
            r matches Ok(t) && t@ == token_of(last_id, timestamp),
    {
        let mut bytes: Vec<u8> = Vec::new();
        push_be32(&mut bytes, last_id as u32);
        push_be64(&mut bytes, timestamp.secs as u64);
        push_be32(&mut bytes, timestamp.nanos);
        assert(bytes@ =~= cursor_bytes(last_id, timestamp));
        Ok(base64url_encode(bytes.as_slice()))
    }

    /// The cursor that `token` stands for.
    ///
    /// Any text that is not the token of a cursor is `InvalidToken`; no
    /// input makes this panic.
    pub fn decode(token: &str) -> (r: Result<(i32, Timestamp), TokenError>)
        ensures
            forall|id: i32, ts: Timestamp| #[trigger] token_of(id, ts) == token@ ==> r == Ok::<
                (i32, Timestamp),
                TokenError,
            >((id, ts)),
            r matches Ok((id, ts)) ==> token_of(id, ts) == token@,
            r is Err <==> !is_token(token@),
            r matches Err(e) ==> e is InvalidToken,
    {
        let bytes = match base64url_decode(token) {
            Ok(bytes) => bytes,
            Err(_) => {
                proof {
                    assert forall|id: i32, ts: Timestamp| token_of(id, ts) != token@ by {
                        if token_of(id, ts) == token@ {
                            assert(base64url_of(cursor_bytes(id, ts)) == token@);
                        }
                    }
                }
                return Err(TokenError::InvalidToken);
            },
        };
        if bytes.len() != CURSOR_LEN {
            proof {
                assert forall|id: i32, ts: Timestamp| token_of(id, ts) != token@ by {
                    if token_of(id, ts) == token@ {
                        assert(base64url_of(cursor_bytes(id, ts)) == token@);
                        assert(cursor_bytes(id, ts).len() == CURSOR_LEN);
                    }
                }
            }
            return Err(TokenError::InvalidToken);
        }
        let b = bytes.as_slice();
        let id = get_be32(b, 0) as i32;
        let secs = get_be64(b, 4) as i64;
        let nanos = get_be32(b, 12);
        let ts = Timestamp { secs, nanos };
        proof {
            lemma_cursor_from_bytes_exact(bytes@);
            assert(token_of(id, ts) == token@);
            assert forall|id2: i32, ts2: Timestamp| #[trigger]
                token_of(id2, ts2) == token@ implies id2 == id && ts2 == ts by {
                assert(base64url_of(cursor_bytes(id2, ts2)) == token@);
                lemma_cursor_bytes_round_trip(id2, ts2);
            }
        }
        Ok((id, ts))
    }

    /// The text is the token of some cursor.
    pub fn is_valid(token: &str) -> (r: bool)
        ensures
            r == is_token(token@),
    {
        Self::decode(token).is_ok()
    }
}

} // verus!
