//! The `application/x-www-form-urlencoded` serialization of key/value pairs,
//! stated byte for byte, and the trusted call into the `url` crate that
//! produces it.

use vstd::prelude::*;
use vstd::utf8::encode_utf8;

verus! {

/// Bytes the form serializer keeps as they are: ASCII alphanumerics and
/// `*`, `-`, `.`, `_`.
pub open spec fn form_unreserved(b: u8) -> bool {
    (('0' as u8) <= b && b <= ('9' as u8)) || (('A' as u8) <= b && b <= ('Z' as u8)) || (('a' as u8)
        <= b && b <= ('z' as u8)) || b == ('*' as u8) || b == ('-' as u8) || b == ('.' as u8) || b
        == ('_' as u8)
}

/// The upper-case hexadecimal digit for `n` (`n < 16`).
pub open spec fn hex_digit(n: u8) -> char {
    if n < 10 {
        ((('0' as u8) + n) as u8) as char
    } else {
        ((('A' as u8) + (n - 10)) as u8) as char
    }
}

/// How one byte is rendered: space as `+`, unreserved bytes as themselves,
/// every other byte as `%` and two upper-case hexadecimal digits.
pub open spec fn form_encoded_byte(b: u8) -> Seq<char> {
    if b == (' ' as u8) {
        seq!['+']
    } else if form_unreserved(b) {
        seq![b as char]
    } else {
        seq!['%', hex_digit(b / 16), hex_digit(b % 16)]
    }
}

/// The rendering of a whole byte string, byte by byte.
pub open spec fn form_encoded_bytes(bs: Seq<u8>) -> Seq<char>
    decreases bs.len(),
{
    if bs.len() == 0 {
        Seq::empty()
    } else {
        form_encoded_byte(bs[0]) + form_encoded_bytes(bs.drop_first())
    }
}

/// One `key=value` entry.
pub open spec fn form_encoded_pair(k: Seq<u8>, v: Seq<u8>) -> Seq<char> {
    form_encoded_bytes(k) + seq!['='] + form_encoded_bytes(v)
}

/// Entries joined with `&`, one per element, in order.
pub open spec fn amp_joined(entries: Seq<Seq<char>>) -> Seq<char>
    decreases entries.len(),
{
    if entries.len() == 0 {
        Seq::empty()
    } else if entries.len() == 1 {
        entries[0]
    } else {
        entries[0] + seq!['&'] + amp_joined(entries.drop_first())
    }
}

/// The full serialization of a pair list: one `key=value` entry per pair,
/// in the order given, `&` between entries.  Equal keys are not merged:
/// each pair keeps its own entry.
pub open spec fn form_encoded_pairs(ps: Seq<(Seq<u8>, Seq<u8>)>) -> Seq<char> {
    amp_joined(ps.map_values(|p: (Seq<u8>, Seq<u8>)| form_encoded_pair(p.0, p.1)))
}

/// The pairs a call works on, as the UTF-8 bytes of their key and value.
pub open spec fn pairs_bytes(ps: Seq<(&str, &str)>) -> Seq<(Seq<u8>, Seq<u8>)> {
    ps.map_values(|p: (&str, &str)| (encode_utf8(p.0@), encode_utf8(p.1@)))
}

/// No rendering of a byte contains `?` or `#`.
pub proof fn lemma_form_encoded_byte_safe(b: u8)
    ensures
        forall|i: int|
            0 <= i < form_encoded_byte(b).len() ==> form_encoded_byte(b)[i] != '?'
                && form_encoded_byte(b)[i] != '#',
{
}

/// No rendering of a byte string contains `?` or `#`.
pub proof fn lemma_form_encoded_bytes_safe(bs: Seq<u8>)
    ensures
        forall|i: int|
            0 <= i < form_encoded_bytes(bs).len() ==> form_encoded_bytes(bs)[i] != '?'
                && form_encoded_bytes(bs)[i] != '#',
    decreases bs.len(),
{
    if bs.len() == 0 {
    } else {
        lemma_form_encoded_byte_safe(bs[0]);
        lemma_form_encoded_bytes_safe(bs.drop_first());
        assert forall|i: int|
            0 <= i < form_encoded_bytes(bs).len() implies form_encoded_bytes(bs)[i] != '?'
            && form_encoded_bytes(bs)[i] != '#' by {
            if i < form_encoded_byte(bs[0]).len() {
                assert(form_encoded_bytes(bs)[i] == form_encoded_byte(bs[0])[i]);
            } else {
                assert(form_encoded_bytes(bs)[i] == form_encoded_bytes(bs.drop_first())[i
                    - form_encoded_byte(bs[0]).len()]);
            }
        }
    }
}

/// No `key=value` entry contains `?` or `#`.
pub proof fn lemma_form_encoded_pair_safe(k: Seq<u8>, v: Seq<u8>)
    ensures
        forall|i: int|
            0 <= i < form_encoded_pair(k, v).len() ==> form_encoded_pair(k, v)[i] != '?'
                && form_encoded_pair(k, v)[i] != '#',
{
    lemma_form_encoded_bytes_safe(k);
    lemma_form_encoded_bytes_safe(v);
    assert forall|i: int|
        0 <= i < form_encoded_pair(k, v).len() implies form_encoded_pair(k, v)[i] != '?'
        && form_encoded_pair(k, v)[i] != '#' by {
        let ek = form_encoded_bytes(k);
        let ev = form_encoded_bytes(v);
        if i < ek.len() {
            assert(form_encoded_pair(k, v)[i] == ek[i]);
        } else if i == ek.len() {
            assert(form_encoded_pair(k, v)[i] == '=');
        } else {
            assert(form_encoded_pair(k, v)[i] == ev[i - ek.len() - 1]);
        }
    }
}

/// Joining entries that contain no `?` or `#` yields text with no `?` or `#`.
pub proof fn lemma_amp_joined_safe(entries: Seq<Seq<char>>)
    requires
        forall|j: int, i: int|
            0 <= j < entries.len() && 0 <= i < entries[j].len() ==> entries[j][i] != '?'
                && entries[j][i] != '#',
    ensures
        forall|i: int|
            0 <= i < amp_joined(entries).len() ==> amp_joined(entries)[i] != '?' && amp_joined(
                entries,
            )[i] != '#',
    decreases entries.len(),
{
    if entries.len() <= 1 {
    } else {
        lemma_amp_joined_safe(entries.drop_first());
        assert forall|i: int|
            0 <= i < amp_joined(entries).len() implies amp_joined(entries)[i] != '?' && amp_joined(
            entries,
        )[i] != '#' by {
            let head = entries[0];
            if i < head.len() {
                assert(amp_joined(entries)[i] == head[i]);
            } else if i == head.len() {
                assert(amp_joined(entries)[i] == '&');
            } else {
                assert(amp_joined(entries)[i] == amp_joined(entries.drop_first())[i - head.len()
                    - 1]);
            }
        }
    }
}

/// No form-urlencoded serialization contains `?` or `#`; merged into a URL
/// as its query it therefore ends where a query ends.
pub proof fn lemma_form_encoded_pairs_safe(ps: Seq<(Seq<u8>, Seq<u8>)>)
    ensures
        forall|i: int|
            0 <= i < form_encoded_pairs(ps).len() ==> form_encoded_pairs(ps)[i] != '?'
                && form_encoded_pairs(ps)[i] != '#',
{
    let entries = ps.map_values(|p: (Seq<u8>, Seq<u8>)| form_encoded_pair(p.0, p.1));
    assert forall|j: int, i: int|
        0 <= j < entries.len() && 0 <= i < entries[j].len() implies entries[j][i] != '?'
        && entries[j][i] != '#' by {
        lemma_form_encoded_pair_safe(ps[j].0, ps[j].1);
        assert(entries[j] == form_encoded_pair(ps[j].0, ps[j].1));
    }
    lemma_amp_joined_safe(entries);
}

/// Relies on `url::form_urlencoded::Serializer` (`extend_pairs`, then
/// `finish`), the WHATWG `application/x-www-form-urlencoded` serializer:
/// each pair becomes one `key=value` entry in the order given, entries are
/// joined with `&`, and the UTF-8 bytes of key and value are escaped as
/// [`form_encoded_byte`] states, space as `+`, bytes outside
/// `[A-Za-z0-9*\-._]` as `%` and two upper-case hexadecimal digits.
#[verifier::external_body]
pub(crate) fn form_urlencode(pairs: &[(&str, &str)]) -> (r: String)
    ensures
        r@ == form_encoded_pairs(pairs_bytes(pairs@)),
{
    url::form_urlencoded::Serializer::new(String::new()).extend_pairs(pairs.iter()).finish()
}

} // verus!
