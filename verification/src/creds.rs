//! HTTP Basic credentials: building the Authorization header on the client
//! and parsing it back on the server.
//!
//! The header is `Basic ` followed by the base64 encoding of
//! `username:password`.  The base64 work itself is done by the `base64`
//! crate behind two trusted wrappers; everything around the calls is
//! verified, and building then parsing is proved to give the username back.

use crate::bytes::append_bytes;
use crate::bytes::find_first;
use crate::bytes::find_last;
use crate::bytes::subvec;
use vstd::prelude::*;

verus! {

/// The byte `:`, separating username from password.
pub const COLON: u8 = 58;

/// The byte for a space, separating the scheme from the token.
pub const SPACE: u8 = 32;

/// What `base64::encode` returns for the given bytes.
pub uninterp spec fn b64_of(bytes: Seq<u8>) -> Seq<u8>;

/// What `base64::decode` returns for the given text: the decoded bytes,
/// or nothing when the text is not valid base64.
pub uninterp spec fn b64_decoded(text: Seq<u8>) -> Option<Seq<u8>>;

/// Relies on `base64::encode`: standard-alphabet, padded encoding.  The
/// standard alphabet (letters, digits, `+`, `/`, with `=` padding) contains
/// no space byte, and `base64::decode`, which uses the same configuration,
/// inverts the encoding.
#[verifier::external_body]
pub(crate) fn b64_encode(bytes: &Vec<u8>) -> (r: Vec<u8>)
    ensures
        r@ == b64_of(bytes@),
        b64_decoded(r@) == Some(bytes@),
        forall|i: int| 0 <= i < r@.len() ==> r@[i] != SPACE,
{
    base64::encode(bytes).into_bytes()
}

/// Relies on `base64::decode`: standard-alphabet, padded decoding, which
/// succeeds with the decoded bytes exactly on valid base64 input.
#[verifier::external_body]
pub(crate) fn b64_decode(text: &Vec<u8>) -> (r: Option<Vec<u8>>)
    ensures
        match r {
            Some(v) => b64_decoded(text@) == Some(v@),
            None => b64_decoded(text@) is None,
        },
{
    match base64::decode(text) {
        Ok(v) => Some(v),
        Err(_) => None,
    }
}

/// Whether `b` occurs in `s`.
pub open spec fn contains_byte(s: Seq<u8>, b: u8) -> bool {
    exists|i: int| 0 <= i < s.len() && s[i] == b
}

/// The part of `s` after the last occurrence of `b`; all of `s` when `b`
/// does not occur.
pub open spec fn suffix_after_last(s: Seq<u8>, b: u8) -> Seq<u8>
    decreases s.len(),
{
    if s.len() == 0 {
        s
    } else if s[s.len() - 1] == b {
        Seq::empty()
    } else {
        suffix_after_last(s.subrange(0, s.len() - 1), b).push(s[s.len() - 1])
    }
}

/// The part of `s` before the first occurrence of `b`; all of `s` when `b`
/// does not occur.
pub open spec fn prefix_before_first(s: Seq<u8>, b: u8) -> Seq<u8>
    decreases s.len(),
{
    if s.len() == 0 {
        s
    } else if s[0] == b {
        Seq::empty()
    } else {
        seq![s[0]] + prefix_before_first(s.subrange(1, s.len() as int), b)
    }
}

/// The scheme prefix of the header: `Basic `.
pub open spec fn basic_prefix_spec() -> Seq<u8> {
    seq![66u8, 97u8, 115u8, 105u8, 99u8, 32u8]
}

/// The username and password joined by a colon.
pub open spec fn joined_spec(username: Seq<u8>, password: Seq<u8>) -> Seq<u8> {
    username + seq![COLON] + password
}

/// What the Authorization header holds for the given credentials.
pub open spec fn basic_header_spec(username: Seq<u8>, password: Seq<u8>) -> Seq<u8> {
    basic_prefix_spec() + b64_of(joined_spec(username, password))
}

/// What parsing an Authorization header yields: the token is everything
/// after the last space, and the username is the decoded token up to the
/// first colon.  Nothing is yielded when the token is not valid base64.
pub open spec fn parse_basic_header_spec(header: Seq<u8>) -> Option<Seq<u8>> {
    match b64_decoded(suffix_after_last(header, SPACE)) {
        Some(decoded) => Some(prefix_before_first(decoded, COLON)),
        None => None,
    }
}

proof fn lemma_suffix_after_last_at(s: Seq<u8>, b: u8, i: int)
    requires
        0 <= i < s.len(),
        s[i] == b,
        forall|j: int| i < j < s.len() ==> s[j] != b,
    ensures
        suffix_after_last(s, b) == s.subrange(i + 1, s.len() as int),
    decreases s.len(),
{
    if i == s.len() - 1 {
        assert(suffix_after_last(s, b) =~= s.subrange(i + 1, s.len() as int));
    } else {
        let s0 = s.subrange(0, s.len() - 1);
        assert(s0[i] == b);
        lemma_suffix_after_last_at(s0, b, i);
        assert(suffix_after_last(s, b) =~= s.subrange(i + 1, s.len() as int));
    }
}

proof fn lemma_suffix_after_last_absent(s: Seq<u8>, b: u8)
    requires
        forall|j: int| 0 <= j < s.len() ==> s[j] != b,
    ensures
        suffix_after_last(s, b) == s,
    decreases s.len(),
{
    if s.len() > 0 {
        lemma_suffix_after_last_absent(s.subrange(0, s.len() - 1), b);
        assert(suffix_after_last(s, b) =~= s);
    }
}

proof fn lemma_prefix_before_first_at(s: Seq<u8>, b: u8, i: int)
    requires
        0 <= i < s.len(),
        s[i] == b,
        forall|j: int| 0 <= j < i ==> s[j] != b,
    ensures
        prefix_before_first(s, b) == s.subrange(0, i),
    decreases s.len(),
{
    if i == 0 {
        assert(prefix_before_first(s, b) =~= s.subrange(0, 0));
    } else {
        let s0 = s.subrange(1, s.len() as int);
        assert(s0[i - 1] == b);
        lemma_prefix_before_first_at(s0, b, i - 1);
        assert(s0.subrange(0, i - 1) =~= s.subrange(1, i));
        assert(prefix_before_first(s, b) =~= s.subrange(0, i));
    }
}

proof fn lemma_prefix_before_first_absent(s: Seq<u8>, b: u8)
    requires
        forall|j: int| 0 <= j < s.len() ==> s[j] != b,
    ensures
        prefix_before_first(s, b) == s,
    decreases s.len(),
{
    if s.len() > 0 {
        lemma_prefix_before_first_absent(s.subrange(1, s.len() as int), b);
        assert(prefix_before_first(s, b) =~= s);
    }
}

/// The `Basic ` prefix as bytes.
fn basic_prefix() -> (r: Vec<u8>)
    ensures
        r@ == basic_prefix_spec(),
{
    let mut v: Vec<u8> = Vec::new();
    v.push(66);
    v.push(97);
    v.push(115);
    v.push(105);
    v.push(99);
    v.push(SPACE);
    proof {
        assert(v@ =~= basic_prefix_spec());
    }
    v
}

/// Build the Authorization header for the given credentials.
///
/// The second clause is the round trip the protocol rests on: the server's
/// parse of a header built here recovers the username exactly, provided the
/// username itself contains no colon (the part of the username up to its
/// first colon otherwise, since the colon is the separator).
pub fn build_basic_header(username: &Vec<u8>, password: &Vec<u8>) -> (r: Vec<u8>)
    ensures
        r@ == basic_header_spec(username@, password@),
        parse_basic_header_spec(r@) == Some(
            prefix_before_first(joined_spec(username@, password@), COLON),
        ),
        !contains_byte(username@, COLON) ==> parse_basic_header_spec(r@) == Some(username@),
{
    let mut joined: Vec<u8> = Vec::new();
    append_bytes(&mut joined, username);
    joined.push(COLON);
    append_bytes(&mut joined, password);
    proof {
        assert(joined@ =~= joined_spec(username@, password@));
    }
    let token = b64_encode(&joined);
    let mut r = basic_prefix();
    append_bytes(&mut r, &token);
    proof {
        assert(r@ =~= basic_header_spec(username@, password@));
        // The only spaces in the header are in the prefix, whose last byte
        // (index 5) is one; the token that follows has none.
        assert(r@[5] == SPACE);
        assert(forall|j: int| 5 < j < r@.len() ==> r@[j] != SPACE);
        lemma_suffix_after_last_at(r@, SPACE, 5);
        assert(suffix_after_last(r@, SPACE) =~= token@);
        if !contains_byte(username@, COLON) {
            lemma_prefix_before_first_at(joined@, COLON, username@.len() as int);
            assert(joined@.subrange(0, username@.len() as int) =~= username@);
        }
    }
    r
}

/// Parse an Authorization header: decode everything after the last space
/// and take the decoded bytes up to the first colon as the username.
pub fn parse_basic_header(header: &Vec<u8>) -> (r: Option<Vec<u8>>)
    ensures
        match r {
            Some(u) => parse_basic_header_spec(header@) == Some(u@),
            None => parse_basic_header_spec(header@) is None,
        },
{
    let n = header.len();
    let token = match find_last(header, SPACE) {
        Some(i) => {
            let t = subvec(header, i + 1, n);
            proof {
                lemma_suffix_after_last_at(header@, SPACE, i as int);
            }
            t
        },
        None => {
            let t = subvec(header, 0, n);
            proof {
                lemma_suffix_after_last_absent(header@, SPACE);
                assert(header@.subrange(0, header@.len() as int) =~= header@);
            }
            t
        },
    };
    match b64_decode(&token) {
        Some(decoded) => {
            let user = match find_first(&decoded, COLON) {
                Some(i) => {
                    let u = subvec(&decoded, 0, i);
                    proof {
                        lemma_prefix_before_first_at(decoded@, COLON, i as int);
                    }
                    u
                },
                None => {
                    let u = subvec(&decoded, 0, decoded.len());
                    proof {
                        lemma_prefix_before_first_absent(decoded@, COLON);
                        assert(decoded@.subrange(0, decoded@.len() as int) =~= decoded@);
                    }
                    u
                },
            };
            Some(user)
        },
        None => None,
    }
}

} // verus!
