//! Query-parameter encoding in the `application/x-www-form-urlencoded`
//! style used on every request URL: safe bytes pass through, space becomes
//! `+`, every other byte becomes `%XX` with upper-case hex digits.
//!
//! A verified decoder and a round-trip law show that any parameter value is
//! recoverable unchanged from the encoded form.

use vstd::prelude::*;

use crate::text::chars_of_bytes;
use vstd::string::StringSliceAdditionalSpecFns;

verus! {

/// The ASCII byte of a hexadecimal digit value, upper case.
pub open spec fn hex_digit_upper(d: nat) -> u8
    recommends
        d < 16,
{
    if d < 10 {
        (48 + d) as u8
    } else {
        (55 + d) as u8
    }
}

/// Bytes that the form-urlencoded serialization leaves unchanged:
/// ASCII alphanumerics and `*`, `-`, `.`, `_`.
pub open spec fn form_safe_byte(b: u8) -> bool {
    (48 <= b && b < 58) || (65 <= b && b < 91) || (97 <= b && b < 123) || b == 42 || b == 45
        || b == 46 || b == 95
}

/// The encoding of one byte: itself when safe, `+` for space,
/// `%XX` otherwise.
pub open spec fn form_encoded_byte(b: u8) -> Seq<u8> {
    if form_safe_byte(b) {
        seq![b]
    } else if b == 32 {
        seq![43u8]
    } else {
        seq![37u8, hex_digit_upper(b as nat / 16), hex_digit_upper(b as nat % 16)]
    }
}

/// The encoding of a byte sequence: each byte encoded, in order.
pub open spec fn form_encoded(bs: Seq<u8>) -> Seq<u8>
    decreases bs.len(),
{
    if bs.len() == 0 {
        Seq::empty()
    } else {
        form_encoded_byte(bs[0]) + form_encoded(bs.skip(1))
    }
}

/// The value of one hexadecimal digit byte, either case.
pub open spec fn hex_val(b: u8) -> Option<u8> {
    if 48 <= b && b < 58 {
        Some((b - 48) as u8)
    } else if 65 <= b && b < 71 {
        Some((b - 55) as u8)
    } else if 97 <= b && b < 103 {
        Some((b - 87) as u8)
    } else {
        None
    }
}

/// The decoding of a form-urlencoded byte sequence: `+` back to space,
/// `%XX` back to the byte, everything else unchanged; `None` on a stray
/// or malformed `%` escape.
pub open spec fn form_decoded(s: Seq<u8>) -> Option<Seq<u8>>
    decreases s.len(),
{
    if s.len() == 0 {
        Some(Seq::empty())
    } else if s[0] == 37 {
        if s.len() >= 3 && hex_val(s[1]) is Some && hex_val(s[2]) is Some {
            match form_decoded(s.skip(3)) {
                Some(t) => Some(
                    seq![(hex_val(s[1])->0 * 16 + hex_val(s[2])->0) as u8] + t,
                ),
                None => None,
            }
        } else {
            None
        }
    } else if s[0] == 43 {
        match form_decoded(s.skip(1)) {
            Some(t) => Some(seq![32u8] + t),
            None => None,
        }
    } else {
        match form_decoded(s.skip(1)) {
            Some(t) => Some(seq![s[0]] + t),
            None => None,
        }
    }
}

/// Every byte of an encoded sequence is ASCII.
pub proof fn lemma_form_encoded_ascii(bs: Seq<u8>)
    ensures
        forall|i: int| 0 <= i < form_encoded(bs).len() ==> #[trigger] form_encoded(bs)[i] < 0x80,
    decreases bs.len(),
{
    if bs.len() > 0 {
        lemma_form_encoded_ascii(bs.skip(1));
        assert forall|i: int| 0 <= i < form_encoded(bs).len() implies #[trigger] form_encoded(
            bs,
        )[i] < 0x80 by {
            let head = form_encoded_byte(bs[0]);
            if i < head.len() {
                assert(form_encoded(bs)[i] == head[i]);
            } else {
                assert(form_encoded(bs)[i] == form_encoded(bs.skip(1))[i - head.len()]);
            }
        }
    }
}

/// Decoding undoes encoding: every byte sequence is recovered unchanged
/// from its form-urlencoded serialization.
pub proof fn lemma_form_round_trip(bs: Seq<u8>)
    ensures
        form_decoded(form_encoded(bs)) == Some(bs),
    decreases bs.len(),
{
    if bs.len() == 0 {
        assert(form_encoded(bs) =~= Seq::<u8>::empty());
        assert(bs =~= Seq::<u8>::empty());
    } else {
        lemma_form_round_trip(bs.skip(1));
        let b = bs[0];
        let head = form_encoded_byte(b);
        let tail = form_encoded(bs.skip(1));
        let s = form_encoded(bs);
        assert(s == head + tail);
        if form_safe_byte(b) {
            assert(s[0] == b && !(b == 37) && !(b == 43));
            assert(s.skip(1) =~= tail);
            assert(seq![b] + bs.skip(1) =~= bs);
        } else if b == 32 {
            assert(s[0] == 43);
            assert(s.skip(1) =~= tail);
            assert(seq![32u8] + bs.skip(1) =~= bs);
        } else {
            assert(s[0] == 37);
            assert(s[1] == hex_digit_upper(b as nat / 16));
            assert(s[2] == hex_digit_upper(b as nat % 16));
            assert(hex_val(s[1]) == Some((b / 16) as u8));
            assert(hex_val(s[2]) == Some((b % 16) as u8));
            assert(s.skip(3) =~= tail);
            assert((b / 16) * 16 + b % 16 == b) by (nonlinear_arith);
            assert(seq![b] + bs.skip(1) =~= bs);
        }
    }
}

/// Appends the encoding of the bytes of `bs` from position `i` on to `out`.
fn push_form_encoded(bs: &Vec<u8>, i: usize, out: &mut Vec<u8>)
    requires
        i <= bs@.len(),
    ensures
        final(out)@ == old(out)@ + form_encoded(bs@.skip(i as int)),
    decreases bs@.len() - i,
{
    if i == bs.len() {
        assert(out@ =~= old(out)@ + form_encoded(bs@.skip(i as int)));
    } else {
        let b = bs[i];
        let safe = (48 <= b && b < 58) || (65 <= b && b < 91) || (97 <= b && b < 123) || b == 42
            || b == 45 || b == 46 || b == 95;
        if safe {
            out.push(b);
        } else if b == 32 {
            out.push(43);
        } else {
            out.push(37);
            let hi: u8 = b / 16;
            let lo: u8 = b % 16;
            out.push(if hi < 10 { 48 + hi } else { 55 + hi });
            out.push(if lo < 10 { 48 + lo } else { 55 + lo });
        }
        assert(out@ =~= old(out)@ + form_encoded_byte(bs@[i as int]));
        push_form_encoded(bs, i + 1, out);
        assert(bs@.skip(i as int).skip(1) =~= bs@.skip(i + 1));
        assert(final(out)@ =~= old(out)@ + form_encoded(bs@.skip(i as int)));
    }
}

/// The encoded characters of a string component: the form-urlencoded
/// serialization of its UTF-8 bytes, read back as ASCII characters.
pub open spec fn enc_chars(s: Seq<char>) -> Seq<char> {
    chars_of_bytes(form_encoded(vstd::utf8::encode_utf8(s)))
}

/// Encodes one query key or value for inclusion in a URL.
pub fn encode_component(s: &str) -> (r: String)
    ensures
        r@ == enc_chars(s@),
{
    let bs = s.as_bytes_vec();
    let mut out: Vec<u8> = Vec::new();
    push_form_encoded(&bs, 0, &mut out);
    assert(bs@.skip(0) =~= bs@);
    proof {
        lemma_form_encoded_ascii(bs@);
    }
    let r = crate::text::ascii_string_of(out);
    assert(r@ =~= enc_chars(s@));
    r
}

/// Decodes a form-urlencoded component back to its bytes, from position
/// `i` on; `None` on a malformed `%` escape.
fn decode_from(s: &Vec<u8>, i: usize) -> (r: Option<Vec<u8>>)
    requires
        i <= s@.len(),
    ensures
        match r {
            Some(v) => form_decoded(s@.skip(i as int)) == Some(v@),
            None => form_decoded(s@.skip(i as int)) is None,
        },
    decreases s@.len() - i,
{
    if i == s.len() {
        let r: Vec<u8> = Vec::new();
        assert(s@.skip(i as int) =~= Seq::<u8>::empty());
        return Some(r);
    }
    let b = s[i];
    if b == 37 {
        if s.len() - i < 3 {
            return None;
        }
        let h1 = s[i + 1];
        let h2 = s[i + 2];
        let v1: u8 = if 48 <= h1 && h1 < 58 {
            h1 - 48
        } else if 65 <= h1 && h1 < 71 {
            h1 - 55
        } else if 97 <= h1 && h1 < 103 {
            h1 - 87
        } else {
            return None;
        };
        let v2: u8 = if 48 <= h2 && h2 < 58 {
            h2 - 48
        } else if 65 <= h2 && h2 < 71 {
            h2 - 55
        } else if 97 <= h2 && h2 < 103 {
            h2 - 87
        } else {
            return None;
        };
        assert(s@.skip(i as int)[1] == h1 && s@.skip(i as int)[2] == h2);
        match decode_from(s, i + 3) {
            Some(t) => {
                let mut v: Vec<u8> = Vec::new();
                v.push(v1 * 16 + v2);
                let ghost t0 = t@;
                let mut t = t;
                v.append(&mut t);
                assert(s@.skip(i as int).skip(3) =~= s@.skip(i + 3));
                assert(v@ =~= seq![(v1 * 16 + v2) as u8] + t0);
                Some(v)
            },
            None => {
                assert(s@.skip(i as int).skip(3) =~= s@.skip(i + 3));
                None
            },
        }
    } else {
        let first: u8 = if b == 43 {
            32
        } else {
            b
        };
        match decode_from(s, i + 1) {
            Some(t) => {
                let mut v: Vec<u8> = Vec::new();
                v.push(first);
                let ghost t0 = t@;
                let mut t = t;
                v.append(&mut t);
                assert(s@.skip(i as int).skip(1) =~= s@.skip(i + 1));
                assert(v@ =~= seq![first] + t0);
                Some(v)
            },
            None => {
                assert(s@.skip(i as int).skip(1) =~= s@.skip(i + 1));
                None
            },
        }
    }
}

/// The text of a list of query parameters: each pair's key and value.
pub open spec fn params_view(s: Seq<(String, String)>) -> Seq<(Seq<char>, Seq<char>)> {
    s.map_values(|p: (String, String)| (p.0@, p.1@))
}

/// The encoded form of one key/value pair: `key=value`, both encoded.
pub open spec fn pair_chars(p: (Seq<char>, Seq<char>)) -> Seq<char> {
    enc_chars(p.0) + seq!['='] + enc_chars(p.1)
}

/// The query text contributed by the pairs, from the front: a pair whose
/// key is empty is a no-op and is skipped; the first kept pair is preceded
/// by `?`, every later one by `&`.
pub open spec fn query_chars(ps: Seq<(Seq<char>, Seq<char>)>, first: bool) -> Seq<char>
    decreases ps.len(),
{
    if ps.len() == 0 {
        Seq::empty()
    } else if ps[0].0.len() == 0 {
        query_chars(ps.skip(1), first)
    } else {
        (if first {
            seq!['?']
        } else {
            seq!['&']
        }) + pair_chars(ps[0]) + query_chars(ps.skip(1), false)
    }
}

/// The full query suffix of a parameter list: empty when every key is
/// empty, else `?k=v&k=v...` with every component encoded.
pub open spec fn query_suffix(ps: Seq<(Seq<char>, Seq<char>)>) -> Seq<char> {
    query_chars(ps, true)
}

fn append_query_from(out: &mut String, params: &Vec<(String, String)>, i: usize, first: bool)
    requires
        i <= params@.len(),
    ensures
        final(out)@ == old(out)@ + query_chars(params_view(params@).skip(i as int), first),
    decreases params@.len() - i,
{
    proof {
        reveal_strlit("?");
        reveal_strlit("&");
        reveal_strlit("=");
    }
    if i == params.len() {
        assert(params_view(params@).skip(i as int) =~= Seq::<(Seq<char>, Seq<char>)>::empty());
        assert(out@ =~= old(out)@ + query_chars(params_view(params@).skip(i as int), first));
    } else {
        let p = &params[i];
        let ghost ps = params_view(params@).skip(i as int);
        assert(ps[0] == (p.0@, p.1@));
        assert(ps.skip(1) =~= params_view(params@).skip(i + 1));
        if p.0.as_str().unicode_len() == 0 {
            append_query_from(out, params, i + 1, first);
        } else {
            if first {
                out.append("?");
            } else {
                out.append("&");
            }
            let ek = encode_component(p.0.as_str());
            out.append(ek.as_str());
            out.append("=");
            let ev = encode_component(p.1.as_str());
            out.append(ev.as_str());
            assert(out@ =~= old(out)@ + (if first {
                seq!['?']
            } else {
                seq!['&']
            }) + pair_chars(ps[0]));
            append_query_from(out, params, i + 1, false);
        }
        assert(final(out)@ =~= old(out)@ + query_chars(ps, first));
    }
}

/// Appends the encoded pairs of `params` to a URL being built: pairs with
/// an empty key are skipped; the first kept pair brings `?` when `first`
/// holds (no query yet) and `&` otherwise.
pub fn append_query_pairs(out: &mut String, params: &Vec<(String, String)>, first: bool)
    ensures
        final(out)@ == old(out)@ + query_chars(params_view(params@), first),
{
    append_query_from(out, params, 0, first);
    assert(params_view(params@).skip(0) =~= params_view(params@));
}

/// Appends the query suffix for `params` to a URL without a query yet:
/// pairs with an empty key are skipped, every kept key and value is
/// encoded, the first kept pair brings the `?`.
pub fn append_query(out: &mut String, params: &Vec<(String, String)>)
    ensures
        final(out)@ == old(out)@ + query_suffix(params_view(params@)),
{
    append_query_pairs(out, params, true);
}

/// Decodes a form-urlencoded component back to the original bytes;
/// `None` exactly on a malformed `%` escape.
pub fn decode_component(s: &str) -> (r: Option<Vec<u8>>)
    ensures
        match r {
            Some(v) => form_decoded(s.spec_bytes()) == Some(v@),
            None => form_decoded(s.spec_bytes()) is None,
        },
{
    let bs = s.as_bytes_vec();
    let r = decode_from(&bs, 0);
    assert(bs@.skip(0) =~= bs@);
    r
}

} // verus!
