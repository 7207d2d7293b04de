//! JSON values, their serialization and their parsing: the structured data
//! every request body is built from and every response body is decoded
//! into. The grammar is stated by specification functions over byte
//! sequences; the executable serializer and parser are proved to follow it.

use vstd::prelude::*;
use vstd::utf8::{encode_scalar, encode_utf8, valid_utf8};

use crate::text::hex_digit;

verus! {

/// A JSON value. Numbers keep their decimal lexeme: the client never does
/// arithmetic on them, and the wire text is preserved exactly.
pub enum Json {
    Null,
    Bool(bool),
    Num(String),
    Str(String),
    Arr(Vec<Json>),
    Obj(Vec<(String, Json)>),
}

/// The mathematical shape of a JSON value: text carried as UTF-8 bytes.
pub enum JsonV {
    Null,
    Bool(bool),
    Num(Seq<u8>),
    Str(Seq<u8>),
    Arr(Seq<JsonV>),
    Obj(Seq<(Seq<u8>, JsonV)>),
}

/// The shapes of the elements of a sequence of JSON values.
pub open spec fn views_of(v: Seq<Json>) -> Seq<JsonV>
    decreases v,
{
    if v.len() == 0 {
        Seq::empty()
    } else {
        seq![view_of(v[0])] + views_of(v.skip(1))
    }
}

/// The shapes of the members of a JSON object.
pub open spec fn member_views_of(m: Seq<(String, Json)>) -> Seq<(Seq<u8>, JsonV)>
    decreases m,
{
    if m.len() == 0 {
        Seq::empty()
    } else {
        seq![(encode_utf8(m[0].0@), view_of(m[0].1))] + member_views_of(m.skip(1))
    }
}

/// The shape of a JSON value.
pub open spec fn view_of(j: Json) -> JsonV
    decreases j,
{
    match j {
        Json::Null => JsonV::Null,
        Json::Bool(b) => JsonV::Bool(b),
        Json::Num(s) => JsonV::Num(encode_utf8(s@)),
        Json::Str(s) => JsonV::Str(encode_utf8(s@)),
        Json::Arr(v) => JsonV::Arr(views_of(v@)),
        Json::Obj(m) => JsonV::Obj(member_views_of(m@)),
    }
}

/// The serialization of one byte of string content: `"`, `\` and control
/// characters are escaped, everything else passes through.
pub open spec fn esc_byte(b: u8) -> Seq<u8> {
    if b == 34 {
        seq![92u8, 34u8]
    } else if b == 92 {
        seq![92u8, 92u8]
    } else if b == 8 {
        seq![92u8, 98u8]
    } else if b == 9 {
        seq![92u8, 116u8]
    } else if b == 10 {
        seq![92u8, 110u8]
    } else if b == 12 {
        seq![92u8, 102u8]
    } else if b == 13 {
        seq![92u8, 114u8]
    } else if b < 32 {
        seq![92u8, 117u8, 48u8, 48u8, hex_digit(b as nat / 16), hex_digit(b as nat % 16)]
    } else {
        seq![b]
    }
}

/// The serialization of string content: each byte escaped as needed.
pub open spec fn esc_bytes(bs: Seq<u8>) -> Seq<u8>
    decreases bs.len(),
{
    if bs.len() == 0 {
        Seq::empty()
    } else {
        esc_byte(bs[0]) + esc_bytes(bs.skip(1))
    }
}

/// The serialization of a string value: the escaped content in quotes.
pub open spec fn str_bytes(bs: Seq<u8>) -> Seq<u8> {
    seq![34u8] + esc_bytes(bs) + seq![34u8]
}

/// The serialization of a JSON value, with no inter-token whitespace.
pub open spec fn json_bytes(v: JsonV) -> Seq<u8>
    decreases v, 0int,
{
    match v {
        JsonV::Null => seq![110u8, 117u8, 108u8, 108u8],
        JsonV::Bool(b) => if b {
            seq![116u8, 114u8, 117u8, 101u8]
        } else {
            seq![102u8, 97u8, 108u8, 115u8, 101u8]
        },
        JsonV::Num(bs) => bs,
        JsonV::Str(bs) => str_bytes(bs),
        JsonV::Arr(elems) => seq![91u8] + arr_bytes(elems, true) + seq![93u8],
        JsonV::Obj(mems) => seq![123u8] + obj_bytes(mems, true) + seq![125u8],
    }
}

/// The serialization of array elements, comma-separated.
pub open spec fn arr_bytes(elems: Seq<JsonV>, first: bool) -> Seq<u8>
    decreases elems, 1int,
{
    if elems.len() == 0 {
        Seq::empty()
    } else {
        (if first {
            Seq::empty()
        } else {
            seq![44u8]
        }) + json_bytes(elems[0]) + arr_bytes(elems.skip(1), false)
    }
}

/// The serialization of object members, `"key":value`, comma-separated.
pub open spec fn obj_bytes(mems: Seq<(Seq<u8>, JsonV)>, first: bool) -> Seq<u8>
    decreases mems, 1int,
{
    if mems.len() == 0 {
        Seq::empty()
    } else {
        (if first {
            Seq::empty()
        } else {
            seq![44u8]
        }) + str_bytes(mems[0].0) + seq![58u8] + json_bytes(mems[0].1) + obj_bytes(
            mems.skip(1),
            false,
        )
    }
}

fn write_escaped(bs: &Vec<u8>, i: usize, out: &mut Vec<u8>)
    requires
        i <= bs@.len(),
    ensures
        final(out)@ == old(out)@ + esc_bytes(bs@.skip(i as int)),
    decreases bs@.len() - i,
{
    if i == bs.len() {
        assert(out@ =~= old(out)@ + esc_bytes(bs@.skip(i as int)));
    } else {
        let b = bs[i];
        if b == 34 {
            out.push(92);
            out.push(34);
        } else if b == 92 {
            out.push(92);
            out.push(92);
        } else if b == 8 {
            out.push(92);
            out.push(98);
        } else if b == 9 {
            out.push(92);
            out.push(116);
        } else if b == 10 {
            out.push(92);
            out.push(110);
        } else if b == 12 {
            out.push(92);
            out.push(102);
        } else if b == 13 {
            out.push(92);
            out.push(114);
        } else if b < 32 {
            out.push(92);
            out.push(117);
            out.push(48);
            out.push(48);
            let hi: u8 = b / 16;
            let lo: u8 = b % 16;
            out.push(if hi < 10 { 48 + hi } else { 87 + hi });
            out.push(if lo < 10 { 48 + lo } else { 87 + lo });
        } else {
            out.push(b);
        }
        assert(out@ =~= old(out)@ + esc_byte(bs@[i as int]));
        write_escaped(bs, i + 1, out);
        assert(bs@.skip(i as int).skip(1) =~= bs@.skip(i + 1));
        assert(final(out)@ =~= old(out)@ + esc_bytes(bs@.skip(i as int)));
    }
}

fn write_str(s: &String, out: &mut Vec<u8>)
    ensures
        final(out)@ == old(out)@ + str_bytes(encode_utf8(s@)),
{
    out.push(34);
    let bs = s.as_str().as_bytes_vec();
    write_escaped(&bs, 0, out);
    assert(bs@.skip(0) =~= bs@);
    out.push(34);
    assert(final(out)@ =~= old(out)@ + str_bytes(encode_utf8(s@)));
}

/// Appends the serialization of `j` to `out`.
pub fn write_json(j: &Json, out: &mut Vec<u8>)
    ensures
        final(out)@ == old(out)@ + json_bytes(view_of(*j)),
    decreases *j,
{
    match j {
        Json::Null => {
            out.push(110);
            out.push(117);
            out.push(108);
            out.push(108);
            assert(final(out)@ =~= old(out)@ + json_bytes(view_of(*j)));
        },
        Json::Bool(b) => {
            if *b {
                out.push(116);
                out.push(114);
                out.push(117);
                out.push(101);
            } else {
                out.push(102);
                out.push(97);
                out.push(108);
                out.push(115);
                out.push(101);
            }
            assert(final(out)@ =~= old(out)@ + json_bytes(view_of(*j)));
        },
        Json::Num(s) => {
            let mut bs = s.as_str().as_bytes_vec();
            out.append(&mut bs);
            assert(final(out)@ =~= old(out)@ + json_bytes(view_of(*j)));
        },
        Json::Str(s) => {
            write_str(s, out);
        },
        Json::Arr(v) => {
            out.push(91);
            proof {
                assert(decreases_to!(*j => *v));
                assert(v@.skip(0) =~= v@);
            }
            write_arr(v, 0, true, out);
            out.push(93);
            assert(final(out)@ =~= old(out)@ + json_bytes(view_of(*j)));
        },
        Json::Obj(m) => {
            out.push(123);
            proof {
                assert(decreases_to!(*j => *m));
                assert(m@.skip(0) =~= m@);
            }
            write_obj(m, 0, true, out);
            out.push(125);
            assert(final(out)@ =~= old(out)@ + json_bytes(view_of(*j)));
        },
    }
}

fn write_arr(v: &Vec<Json>, i: usize, first: bool, out: &mut Vec<u8>)
    requires
        i <= v@.len(),
    ensures
        final(out)@ == old(out)@ + arr_bytes(views_of(v@.skip(i as int)), first),
    decreases v@.skip(i as int), 2int,
{
    if i == v.len() {
        assert(views_of(v@.skip(i as int)) =~= Seq::<JsonV>::empty());
        assert(out@ =~= old(out)@ + arr_bytes(views_of(v@.skip(i as int)), first));
    } else {
        if !first {
            out.push(44);
        }
        proof {
            assert(v@.skip(i as int)[0] == v@[i as int]);
            assert(decreases_to!(v@.skip(i as int) => v@.skip(i as int)[0]));
        }
        write_json(&v[i], out);
        proof {
            assert(v@.skip(i + 1) =~= v@.skip(i as int).skip(1));
            assert(v@.skip(i as int).skip(1) =~= v@.skip(i as int).subrange(
                1,
                v@.skip(i as int).len() as int,
            ));
        }
        write_arr(v, i + 1, false, out);
        proof {
            let ghost vs = views_of(v@.skip(i as int));
            assert(vs[0] == view_of(v@[i as int]));
            assert(vs.skip(1) =~= views_of(v@.skip(i + 1))) by {
                assert(views_of(v@.skip(i as int)) == seq![view_of(v@.skip(i as int)[0])]
                    + views_of(v@.skip(i as int).skip(1)));
                assert(v@.skip(i as int).skip(1) =~= v@.skip(i + 1));
            }
            assert(final(out)@ =~= old(out)@ + arr_bytes(views_of(v@.skip(i as int)), first));
        }
    }
}

fn write_obj(m: &Vec<(String, Json)>, i: usize, first: bool, out: &mut Vec<u8>)
    requires
        i <= m@.len(),
    ensures
        final(out)@ == old(out)@ + obj_bytes(member_views_of(m@.skip(i as int)), first),
    decreases m@.skip(i as int), 2int,
{
    if i == m.len() {
        assert(member_views_of(m@.skip(i as int)) =~= Seq::<(Seq<u8>, JsonV)>::empty());
        assert(out@ =~= old(out)@ + obj_bytes(member_views_of(m@.skip(i as int)), first));
    } else {
        if !first {
            out.push(44);
        }
        let p = &m[i];
        write_str(&p.0, out);
        out.push(58);
        proof {
            assert(m@.skip(i as int)[0] == m@[i as int]);
            assert(decreases_to!(m@.skip(i as int) => m@.skip(i as int)[0]));
            assert(decreases_to!(m@.skip(i as int)[0] => m@.skip(i as int)[0].1));
        }
        write_json(&p.1, out);
        proof {
            assert(m@.skip(i + 1) =~= m@.skip(i as int).skip(1));
            assert(m@.skip(i as int).skip(1) =~= m@.skip(i as int).subrange(
                1,
                m@.skip(i as int).len() as int,
            ));
        }
        write_obj(m, i + 1, false, out);
        proof {
            let ghost ms = member_views_of(m@.skip(i as int));
            assert(ms[0] == (encode_utf8(m@[i as int].0@), view_of(m@[i as int].1)));
            assert(ms.skip(1) =~= member_views_of(m@.skip(i + 1))) by {
                assert(member_views_of(m@.skip(i as int)) == seq![
                    (
                        encode_utf8(m@.skip(i as int)[0].0@),
                        view_of(m@.skip(i as int)[0].1),
                    ),
                ] + member_views_of(m@.skip(i as int).skip(1)));
                assert(m@.skip(i as int).skip(1) =~= m@.skip(i + 1));
            }
            assert(final(out)@ =~= old(out)@ + obj_bytes(member_views_of(m@.skip(i as int)), first));
        }
    }
}

/// The serialization of a JSON value as bytes, ready to send as a body.
pub fn to_json_bytes(j: &Json) -> (r: Vec<u8>)
    ensures
        r@ == json_bytes(view_of(*j)),
{
    let mut out: Vec<u8> = Vec::new();
    write_json(j, &mut out);
    out
}


/// Whitespace between JSON tokens.
pub open spec fn ws_byte(b: u8) -> bool {
    b == 32 || b == 9 || b == 10 || b == 13
}

/// The first position at or after `i` that does not hold whitespace.
pub open spec fn skip_ws(s: Seq<u8>, i: int) -> int
    decreases s.len() - i
        when 0 <= i <= s.len()
{
    if i < s.len() && ws_byte(s[i]) {
        skip_ws(s, i + 1)
    } else {
        i
    }
}

/// The first position at or after `i` that does not hold an ASCII digit.
pub open spec fn digits_end(s: Seq<u8>, i: int) -> int
    decreases s.len() - i
        when 0 <= i <= s.len()
{
    if i < s.len() && 48 <= s[i] < 58 {
        digits_end(s, i + 1)
    } else {
        i
    }
}

/// The value of four hexadecimal digit bytes starting at `p`.
pub open spec fn hex4(s: Seq<u8>, p: int) -> Option<u32>
    recommends
        0 <= p,
        p + 4 <= s.len(),
{
    if crate::query::hex_val(s[p]) is Some && crate::query::hex_val(s[p + 1]) is Some
        && crate::query::hex_val(s[p + 2]) is Some && crate::query::hex_val(s[p + 3]) is Some {
        Some(
            ((crate::query::hex_val(s[p])->0 * 0x1000 + crate::query::hex_val(s[p + 1])->0
                * 0x100 + crate::query::hex_val(s[p + 2])->0 * 0x10 + crate::query::hex_val(
                s[p + 3],
            )->0) as u32),
        )
    } else {
        None
    }
}

/// Parses string content from `i` (just past the opening quote) to the
/// closing quote: escapes are decoded, `\uXXXX` (with surrogate pairs)
/// becomes the UTF-8 encoding of the scalar, raw control bytes are
/// rejected. Returns the content bytes and the position past the closing
/// quote.
pub open spec fn spec_parse_string(s: Seq<u8>, i: int) -> Option<(Seq<u8>, int)>
    decreases s.len() - i
        when 0 <= i <= s.len()
{
    if i >= s.len() {
        None
    } else if s[i] == 34 {
        Some((Seq::empty(), i + 1))
    } else if s[i] == 92 {
        if i + 1 >= s.len() {
            None
        } else {
            let e = s[i + 1];
            if e == 34 || e == 92 || e == 47 {
                match spec_parse_string(s, i + 2) {
                    Some(p) => Some((seq![e] + p.0, p.1)),
                    None => None,
                }
            } else if e == 98 || e == 116 || e == 110 || e == 102 || e == 114 {
                let d: u8 = if e == 98 {
                    8
                } else if e == 116 {
                    9
                } else if e == 110 {
                    10
                } else if e == 102 {
                    12
                } else {
                    13
                };
                match spec_parse_string(s, i + 2) {
                    Some(p) => Some((seq![d] + p.0, p.1)),
                    None => None,
                }
            } else if e == 117 {
                if i + 6 > s.len() {
                    None
                } else {
                    match hex4(s, i + 2) {
                        None => None,
                        Some(cp) => if 0xD800 <= cp <= 0xDBFF {
                            if i + 12 <= s.len() && s[i + 6] == 92 && s[i + 7] == 117 && (hex4(
                                s,
                                i + 8,
                            ) matches Some(lo) && 0xDC00 <= lo <= 0xDFFF) {
                                let lo = hex4(s, i + 8)->0;
                                let scalar = (0x10000 + (cp - 0xD800) * 0x400 + (lo
                                    - 0xDC00)) as u32;
                                match spec_parse_string(s, i + 12) {
                                    Some(p) => Some((encode_scalar(scalar) + p.0, p.1)),
                                    None => None,
                                }
                            } else {
                                None
                            }
                        } else if 0xDC00 <= cp <= 0xDFFF {
                            None
                        } else {
                            match spec_parse_string(s, i + 6) {
                                Some(p) => Some((encode_scalar(cp) + p.0, p.1)),
                                None => None,
                            }
                        },
                    }
                }
            } else {
                None
            }
        }
    } else if s[i] < 32 {
        None
    } else {
        match spec_parse_string(s, i + 1) {
            Some(p) => Some((seq![s[i]] + p.0, p.1)),
            None => None,
        }
    }
}

/// Parses a number lexeme from `i`: an optional minus, an integer part,
/// an optional fraction and an optional exponent. Returns the lexeme and
/// the position past it.
pub open spec fn spec_parse_number(s: Seq<u8>, i: int) -> Option<(Seq<u8>, int)>
    recommends
        0 <= i <= s.len(),
{
    let a = if i < s.len() && s[i] == 45 {
        i + 1
    } else {
        i
    };
    if a >= s.len() || !(48 <= s[a] < 58) {
        None
    } else {
        let b = digits_end(s, a);
        let d = if b < s.len() && s[b] == 46 {
            if b + 1 < s.len() && 48 <= s[b + 1] < 58 {
                digits_end(s, b + 1)
            } else {
                -1
            }
        } else {
            b
        };
        if d < 0 {
            None
        } else {
            let e = if d < s.len() && (s[d] == 101 || s[d] == 69) {
                let e0 = if d + 1 < s.len() && (s[d + 1] == 43 || s[d + 1] == 45) {
                    d + 2
                } else {
                    d + 1
                };
                if e0 < s.len() && 48 <= s[e0] < 58 {
                    digits_end(s, e0)
                } else {
                    -1
                }
            } else {
                d
            };
            if e < 0 {
                None
            } else {
                Some((s.subrange(i, e), e))
            }
        }
    }
}

/// Parses one JSON value from position `i`, leading whitespace allowed.
/// Returns its shape and the position just past it.
pub open spec fn spec_parse_value(s: Seq<u8>, i: int) -> Option<(JsonV, int)>
    decreases s.len() - i, 0int,
        when 0 <= i <= s.len()
{
    let j = skip_ws(s, i);
    if j < i || j >= s.len() {
        None
    } else if s[j] == 110 {
        if j + 4 <= s.len() && s[j + 1] == 117 && s[j + 2] == 108 && s[j + 3] == 108 {
            Some((JsonV::Null, j + 4))
        } else {
            None
        }
    } else if s[j] == 116 {
        if j + 4 <= s.len() && s[j + 1] == 114 && s[j + 2] == 117 && s[j + 3] == 101 {
            Some((JsonV::Bool(true), j + 4))
        } else {
            None
        }
    } else if s[j] == 102 {
        if j + 5 <= s.len() && s[j + 1] == 97 && s[j + 2] == 108 && s[j + 3] == 115 && s[j + 4]
            == 101 {
            Some((JsonV::Bool(false), j + 5))
        } else {
            None
        }
    } else if s[j] == 34 {
        match spec_parse_string(s, j + 1) {
            Some(p) => if valid_utf8(p.0) {
                Some((JsonV::Str(p.0), p.1))
            } else {
                None
            },
            None => None,
        }
    } else if s[j] == 91 {
        let k = skip_ws(s, j + 1);
        if k < s.len() && s[k] == 93 {
            Some((JsonV::Arr(Seq::empty()), k + 1))
        } else {
            match spec_parse_items(s, j + 1) {
                Some(p) => Some((JsonV::Arr(p.0), p.1)),
                None => None,
            }
        }
    } else if s[j] == 123 {
        let k = skip_ws(s, j + 1);
        if k < s.len() && s[k] == 125 {
            Some((JsonV::Obj(Seq::empty()), k + 1))
        } else {
            match spec_parse_members(s, j + 1) {
                Some(p) => Some((JsonV::Obj(p.0), p.1)),
                None => None,
            }
        }
    } else if s[j] == 45 || (48 <= s[j] < 58) {
        match spec_parse_number(s, j) {
            Some(p) => Some((JsonV::Num(p.0), p.1)),
            None => None,
        }
    } else {
        None
    }
}

/// Parses the elements of a non-empty array from `k` (just past `[` or a
/// comma) through the closing bracket.
pub open spec fn spec_parse_items(s: Seq<u8>, k: int) -> Option<(Seq<JsonV>, int)>
    decreases s.len() - k, 1int,
        when 0 <= k <= s.len()
{
    match spec_parse_value(s, k) {
        None => None,
        Some((v, n)) => if n <= k || n > s.len() {
            None
        } else {
            let m = skip_ws(s, n);
            if m <= k {
                None
            } else if m < s.len() && s[m] == 44 {
                match spec_parse_items(s, m + 1) {
                    Some(p) => Some((seq![v] + p.0, p.1)),
                    None => None,
                }
            } else if m < s.len() && s[m] == 93 {
                Some((seq![v], m + 1))
            } else {
                None
            }
        },
    }
}

/// Parses the members of a non-empty object from `k` (just past `{` or a
/// comma) through the closing brace.
pub open spec fn spec_parse_members(s: Seq<u8>, k: int) -> Option<
    (Seq<(Seq<u8>, JsonV)>, int),
>
    decreases s.len() - k, 1int,
        when 0 <= k <= s.len()
{
    let a = skip_ws(s, k);
    if a < k || a >= s.len() || s[a] != 34 {
        None
    } else {
        match spec_parse_string(s, a + 1) {
            None => None,
            Some((key, n)) => if n <= a || n > s.len() || !valid_utf8(key) {
                None
            } else {
                let c = skip_ws(s, n);
                if c <= a || c >= s.len() || s[c] != 58 {
                    None
                } else {
                    match spec_parse_value(s, c + 1) {
                        None => None,
                        Some((v, q)) => if q <= c || q > s.len() {
                            None
                        } else {
                            let m = skip_ws(s, q);
                            if m <= c {
                                None
                            } else if m < s.len() && s[m] == 44 {
                                match spec_parse_members(s, m + 1) {
                                    Some(p) => Some((seq![(key, v)] + p.0, p.1)),
                                    None => None,
                                }
                            } else if m < s.len() && s[m] == 125 {
                                Some((seq![(key, v)], m + 1))
                            } else {
                                None
                            }
                        },
                    }
                }
            },
        }
    }
}

/// Parses a whole document: one value, with nothing but whitespace after.
pub open spec fn spec_parse_json(s: Seq<u8>) -> Option<JsonV> {
    match spec_parse_value(s, 0) {
        Some((v, n)) => if 0 <= n <= s.len() && skip_ws(s, n) == s.len() {
            Some(v)
        } else {
            None
        },
        None => None,
    }
}


proof fn lemma_views_of_push(a: Seq<Json>, x: Json)
    ensures
        views_of(a.push(x)) == views_of(a) + seq![view_of(x)],
    decreases a.len(),
{
    if a.len() == 0 {
        assert(a.push(x)[0] == x);
        assert(a.push(x).skip(1) =~= Seq::<Json>::empty());
        assert(views_of(a.push(x)) =~= views_of(a) + seq![view_of(x)]);
    } else {
        assert(a.push(x)[0] == a[0]);
        assert(a.push(x).skip(1) =~= a.skip(1).push(x));
        lemma_views_of_push(a.skip(1), x);
        assert(views_of(a.push(x)) == seq![view_of(a.push(x)[0])] + views_of(
            a.push(x).skip(1),
        ));
        assert(views_of(a) == seq![view_of(a[0])] + views_of(a.skip(1)));
        assert(views_of(a.push(x)) =~= views_of(a) + seq![view_of(x)]);
    }
}

proof fn lemma_member_views_push(a: Seq<(String, Json)>, x: (String, Json))
    ensures
        member_views_of(a.push(x)) == member_views_of(a) + seq![
            (encode_utf8(x.0@), view_of(x.1)),
        ],
    decreases a.len(),
{
    let ap = a.push(x);
    assert(member_views_of(ap) == seq![(encode_utf8(ap[0].0@), view_of(ap[0].1))]
        + member_views_of(ap.skip(1)));
    if a.len() == 0 {
        assert(ap[0] == x);
        assert(ap[0].0 == x.0 && ap[0].1 == x.1);
        assert(ap.skip(1) =~= Seq::<(String, Json)>::empty());
        assert(member_views_of(ap) =~= member_views_of(a) + seq![
            (encode_utf8(x.0@), view_of(x.1)),
        ]);
    } else {
        assert(ap[0] == a[0]);
        assert(ap[0].0 == a[0].0 && ap[0].1 == a[0].1);
        assert(ap.skip(1) =~= a.skip(1).push(x));
        lemma_member_views_push(a.skip(1), x);
        assert(member_views_of(a) == seq![(encode_utf8(a[0].0@), view_of(a[0].1))]
            + member_views_of(a.skip(1)));
        assert(member_views_of(ap) =~= member_views_of(a) + seq![
            (encode_utf8(x.0@), view_of(x.1)),
        ]);
    }
}

/// Relies on `alloc::string::String::from_utf8`: it succeeds exactly on
/// valid UTF-8 input and returns the string those bytes encode.
#[verifier::external_body]
fn string_from_utf8(bytes: Vec<u8>) -> (r: Option<String>)
    ensures
        r is Some <==> valid_utf8(bytes@),
        r matches Some(s) ==> encode_utf8(s@) == bytes@,
{
    String::from_utf8(bytes).ok()
}

fn skip_ws_at(s: &Vec<u8>, i: usize) -> (r: usize)
    requires
        i <= s@.len(),
    ensures
        r == skip_ws(s@, i as int),
        i <= r <= s@.len(),
{
    let mut j = i;
    while j < s.len() && (s[j] == 32 || s[j] == 9 || s[j] == 10 || s[j] == 13)
        invariant
            i <= j <= s@.len(),
            skip_ws(s@, i as int) == skip_ws(s@, j as int),
        decreases s@.len() - j,
    {
        j = j + 1;
    }
    j
}

fn hex_value_of(b: u8) -> (r: Option<u8>)
    ensures
        r == crate::query::hex_val(b),
{
    if 48 <= b && b < 58 {
        Some(b - 48)
    } else if 65 <= b && b < 71 {
        Some(b - 55)
    } else if 97 <= b && b < 103 {
        Some(b - 87)
    } else {
        None
    }
}

fn hex4_at(s: &Vec<u8>, p: usize) -> (r: Option<u32>)
    requires
        p + 4 <= s@.len(),
    ensures
        r == hex4(s@, p as int),
{
    let n = s.len();
    assert(p + 4 <= n);
    let h0 = match hex_value_of(s[p]) {
        Some(v) => v,
        None => {
            return None;
        },
    };
    let h1 = match hex_value_of(s[p + 1]) {
        Some(v) => v,
        None => {
            return None;
        },
    };
    let h2 = match hex_value_of(s[p + 2]) {
        Some(v) => v,
        None => {
            return None;
        },
    };
    let h3 = match hex_value_of(s[p + 3]) {
        Some(v) => v,
        None => {
            return None;
        },
    };
    Some((h0 as u32) * 0x1000 + (h1 as u32) * 0x100 + (h2 as u32) * 0x10 + (h3 as u32))
}

fn push_scalar_utf8(scalar: u32, out: &mut Vec<u8>)
    requires
        vstd::utf8::is_scalar(scalar),
    ensures
        final(out)@ == old(out)@ + encode_scalar(scalar),
{
    if scalar <= 0x7F {
        assert((scalar & 0x7F) < 0x80 && scalar & 0x7F == scalar) by (bit_vector)
            requires
                scalar <= 0x7F,
        ;
        out.push((scalar & 0x7F) as u8);
        assert(out@ =~= old(out)@ + encode_scalar(scalar));
    } else if scalar <= 0x7FF {
        let t1: u32 = (scalar >> 6) & 0x1F;
        let t2: u32 = scalar & 0x3F;
        assert(t1 < 0x20 && t2 < 0x40) by (bit_vector)
            requires
                t1 == (scalar >> 6) & 0x1F && t2 == scalar & 0x3F,
        ;
        out.push(0xC0 | (t1 as u8));
        out.push(0x80 | (t2 as u8));
        assert(out@ =~= old(out)@ + encode_scalar(scalar));
    } else if scalar <= 0xFFFF {
        let t1: u32 = (scalar >> 12) & 0x0F;
        let t2: u32 = (scalar >> 6) & 0x3F;
        let t3: u32 = scalar & 0x3F;
        assert(t1 < 0x10 && t2 < 0x40 && t3 < 0x40) by (bit_vector)
            requires
                t1 == (scalar >> 12) & 0x0F && t2 == (scalar >> 6) & 0x3F && t3 == scalar
                    & 0x3F,
        ;
        out.push(0xE0 | (t1 as u8));
        out.push(0x80 | (t2 as u8));
        out.push(0x80 | (t3 as u8));
        assert(out@ =~= old(out)@ + encode_scalar(scalar));
    } else {
        let t1: u32 = (scalar >> 18) & 0x7;
        let t2: u32 = (scalar >> 12) & 0x3F;
        let t3: u32 = (scalar >> 6) & 0x3F;
        let t4: u32 = scalar & 0x3F;
        assert(t1 < 0x8 && t2 < 0x40 && t3 < 0x40 && t4 < 0x40) by (bit_vector)
            requires
                t1 == (scalar >> 18) & 0x7 && t2 == (scalar >> 12) & 0x3F && t3 == (scalar
                    >> 6) & 0x3F && t4 == scalar & 0x3F,
        ;
        out.push(0xF0 | (t1 as u8));
        out.push(0x80 | (t2 as u8));
        out.push(0x80 | (t3 as u8));
        out.push(0x80 | (t4 as u8));
        assert(out@ =~= old(out)@ + encode_scalar(scalar));
    }
}

fn parse_string_into(s: &Vec<u8>, i: usize, out: &mut Vec<u8>) -> (r: Option<usize>)
    requires
        i <= s@.len(),
    ensures
        match r {
            Some(n) => spec_parse_string(s@, i as int) matches Some(p) && p.1 == n && i < n
                <= s@.len() && final(out)@ == old(out)@ + p.0,
            None => spec_parse_string(s@, i as int) is None,
        },
    decreases s@.len() - i,
{
    if i == s.len() {
        return None;
    }
    let b = s[i];
    if b == 34 {
        assert(out@ =~= old(out)@ + Seq::<u8>::empty());
        Some(i + 1)
    } else if b == 92 {
        if s.len() - i < 2 {
            return None;
        }
        let e = s[i + 1];
        if e == 34 || e == 92 || e == 47 {
            out.push(e);
            match parse_string_into(s, i + 2, out) {
                Some(n) => {
                    assert(final(out)@ =~= old(out)@ + (seq![e] + (spec_parse_string(s@, i + 2,)->0).0));
                    Some(n)
                },
                None => None,
            }
        } else if e == 98 || e == 116 || e == 110 || e == 102 || e == 114 {
            let d: u8 = if e == 98 {
                8
            } else if e == 116 {
                9
            } else if e == 110 {
                10
            } else if e == 102 {
                12
            } else {
                13
            };
            out.push(d);
            match parse_string_into(s, i + 2, out) {
                Some(n) => {
                    assert(final(out)@ =~= old(out)@ + (seq![d] + (spec_parse_string(s@, i + 2,)->0).0));
                    Some(n)
                },
                None => None,
            }
        } else if e == 117 {
            if s.len() - i < 6 {
                return None;
            }
            let cp = match hex4_at(s, i + 2) {
                Some(cp) => cp,
                None => {
                    return None;
                },
            };
            assert(cp <= 0xFFFF);
            if 0xD800 <= cp && cp <= 0xDBFF {
                if s.len() - i >= 12 && s[i + 6] == 92 && s[i + 7] == 117 {
                    match hex4_at(s, i + 8) {
                        Some(lo) => {
                            if 0xDC00 <= lo && lo <= 0xDFFF {
                                let scalar: u32 = 0x10000 + (cp - 0xD800) * 0x400 + (lo
                                    - 0xDC00);
                                push_scalar_utf8(scalar, out);
                                match parse_string_into(s, i + 12, out) {
                                    Some(n) => {
                                        assert(final(out)@ =~= old(out)@ + (encode_scalar(
                                            scalar,
                                        ) + (spec_parse_string(s@, i + 12)->0).0));
                                        Some(n)
                                    },
                                    None => None,
                                }
                            } else {
                                None
                            }
                        },
                        None => None,
                    }
                } else {
                    None
                }
            } else if 0xDC00 <= cp && cp <= 0xDFFF {
                None
            } else {
                push_scalar_utf8(cp, out);
                match parse_string_into(s, i + 6, out) {
                    Some(n) => {
                        assert(final(out)@ =~= old(out)@ + (encode_scalar(cp)
                            + (spec_parse_string(s@, i + 6)->0).0));
                        Some(n)
                    },
                    None => None,
                }
            }
        } else {
            None
        }
    } else if b < 32 {
        None
    } else {
        out.push(b);
        match parse_string_into(s, i + 1, out) {
            Some(n) => {
                assert(final(out)@ =~= old(out)@ + (seq![b] + (spec_parse_string(s@, i + 1,)->0).0));
                Some(n)
            },
            None => None,
        }
    }
}

proof fn lemma_digits_end_bounds(s: Seq<u8>, i: int)
    requires
        0 <= i <= s.len(),
    ensures
        i <= digits_end(s, i) <= s.len(),
    decreases s.len() - i,
{
    if i < s.len() && 48 <= s[i] < 58 {
        lemma_digits_end_bounds(s, i + 1);
    }
}

fn scan_digits_push(s: &Vec<u8>, cur: usize, buf: &mut Vec<u8>) -> (r: usize)
    requires
        cur <= s@.len(),
    ensures
        r == digits_end(s@, cur as int),
        cur <= r <= s@.len(),
        final(buf)@ == old(buf)@ + s@.subrange(cur as int, r as int),
        forall|x: int| cur <= x < r ==> 48 <= #[trigger] s@[x] < 58,
    decreases s@.len() - cur,
{
    if cur < s.len() && 48 <= s[cur] && s[cur] < 58 {
        buf.push(s[cur]);
        let r = scan_digits_push(s, cur + 1, buf);
        assert(final(buf)@ =~= old(buf)@ + s@.subrange(cur as int, r as int));
        r
    } else {
        assert(buf@ =~= old(buf)@ + s@.subrange(cur as int, cur as int));
        cur
    }
}

#[verifier::rlimit(60)]
fn parse_number(s: &Vec<u8>, i: usize) -> (r: Option<(String, usize)>)
    requires
        i <= s@.len(),
    ensures
        match r {
            Some(p) => spec_parse_number(s@, i as int) == Some((encode_utf8(p.0@), p.1 as int))
                && i < p.1 <= s@.len(),
            None => spec_parse_number(s@, i as int) is None,
        },
{
    let mut buf: Vec<u8> = Vec::new();
    let mut cur = i;
    if cur < s.len() && s[cur] == 45 {
        buf.push(45);
        cur = cur + 1;
    }
    assert(buf@ =~= s@.subrange(i as int, cur as int));
    if cur == s.len() || !(48 <= s[cur] && s[cur] < 58) {
        return None;
    }
    proof {
        assert(digits_end(s@, cur as int) == digits_end(s@, cur + 1));
        lemma_digits_end_bounds(s@, cur + 1);
    }
    let b = scan_digits_push(s, cur, &mut buf);
    assert(b > cur);
    assert(buf@ =~= s@.subrange(i as int, b as int));
    let mut end = b;
    if b < s.len() && s[b] == 46 {
        if b + 1 < s.len() && 48 <= s[b + 1] && s[b + 1] < 58 {
            buf.push(46);
            assert(buf@ =~= s@.subrange(i as int, b + 1));
            end = scan_digits_push(s, b + 1, &mut buf);
            assert(buf@ =~= s@.subrange(i as int, end as int));
        } else {
            return None;
        }
    }
    let d = end;
    if d < s.len() && (s[d] == 101 || s[d] == 69) {
        buf.push(s[d]);
        let mut e0 = d + 1;
        if e0 < s.len() && (s[e0] == 43 || s[e0] == 45) {
            buf.push(s[e0]);
            e0 = e0 + 1;
        }
        assert(buf@ =~= s@.subrange(i as int, e0 as int));
        if e0 < s.len() && 48 <= s[e0] && s[e0] < 58 {
            end = scan_digits_push(s, e0, &mut buf);
            assert(buf@ =~= s@.subrange(i as int, end as int));
        } else {
            return None;
        }
    }
    assert(forall|x: int| 0 <= x < buf@.len() ==> buf@[x] < 0x80);
    proof {
        let ga = if i < s@.len() && s@[i as int] == 45 {
            i + 1
        } else {
            i as int
        };
        let gb = digits_end(s@, ga);
        assert(gb == b);
        let gd = if gb < s@.len() && s@[gb] == 46 {
            if gb + 1 < s@.len() && 48 <= s@[gb + 1] < 58 {
                digits_end(s@, gb + 1)
            } else {
                -1
            }
        } else {
            gb
        };
        assert(gd == d);
        let ge = if gd < s@.len() && (s@[gd] == 101 || s@[gd] == 69) {
            let e0 = if gd + 1 < s@.len() && (s@[gd + 1] == 43 || s@[gd + 1] == 45) {
                gd + 2
            } else {
                gd + 1
            };
            if e0 < s@.len() && 48 <= s@[e0] < 58 {
                digits_end(s@, e0)
            } else {
                -1
            }
        } else {
            gd
        };
        assert(ge == end);
        assert(spec_parse_number(s@, i as int) == Some((s@.subrange(i as int, ge), ge)));
    }
    let ghost gbuf = buf@;
    assert(gbuf =~= s@.subrange(i as int, end as int));
    let lex = crate::text::ascii_string_of(buf);
    proof {
        assert(encode_utf8(lex@) == gbuf);
        assert(spec_parse_number(s@, i as int) == Some((encode_utf8(lex@), end as int)));
    }
    Some((lex, end))
}

fn parse_value(s: &Vec<u8>, i: usize) -> (r: Option<(Json, usize)>)
    requires
        i <= s@.len(),
    ensures
        match r {
            Some(p) => spec_parse_value(s@, i as int) == Some((view_of(p.0), p.1 as int)) && i
                < p.1 <= s@.len(),
            None => spec_parse_value(s@, i as int) is None,
        },
    decreases s@.len() - i, 0int,
{
    let j = skip_ws_at(s, i);
    if j == s.len() {
        return None;
    }
    let b = s[j];
    if b == 110 {
        if s.len() - j >= 4 && s[j + 1] == 117 && s[j + 2] == 108 && s[j + 3] == 108 {
            Some((Json::Null, j + 4))
        } else {
            None
        }
    } else if b == 116 {
        if s.len() - j >= 4 && s[j + 1] == 114 && s[j + 2] == 117 && s[j + 3] == 101 {
            Some((Json::Bool(true), j + 4))
        } else {
            None
        }
    } else if b == 102 {
        if s.len() - j >= 5 && s[j + 1] == 97 && s[j + 2] == 108 && s[j + 3] == 115 && s[j + 4]
            == 101 {
            Some((Json::Bool(false), j + 5))
        } else {
            None
        }
    } else if b == 34 {
        let mut content: Vec<u8> = Vec::new();
        match parse_string_into(s, j + 1, &mut content) {
            Some(n) => {
                assert(content@ =~= (spec_parse_string(s@, j + 1)->0).0);
                match string_from_utf8(content) {
                    Some(st) => Some((Json::Str(st), n)),
                    None => None,
                }
            },
            None => None,
        }
    } else if b == 91 {
        let k = skip_ws_at(s, j + 1);
        if k < s.len() && s[k] == 93 {
            let empty_items: Vec<Json> = Vec::new();
            assert(views_of(empty_items@) =~= Seq::<JsonV>::empty());
            Some((Json::Arr(empty_items), k + 1))
        } else {
            let mut items: Vec<Json> = Vec::new();
            match parse_items_into(s, j + 1, &mut items) {
                Some(n) => {
                    proof {
                        let p = spec_parse_items(s@, j + 1)->0;
                        assert(views_of(items@) =~= p.0);
                    }
                    Some((Json::Arr(items), n))
                },
                None => None,
            }
        }
    } else if b == 123 {
        let k = skip_ws_at(s, j + 1);
        if k < s.len() && s[k] == 125 {
            let empty_members: Vec<(String, Json)> = Vec::new();
            assert(member_views_of(empty_members@) =~= Seq::<(Seq<u8>, JsonV)>::empty());
            Some((Json::Obj(empty_members), k + 1))
        } else {
            let mut members: Vec<(String, Json)> = Vec::new();
            match parse_members_into(s, j + 1, &mut members) {
                Some(n) => {
                    proof {
                        let p = spec_parse_members(s@, j + 1)->0;
                        assert(member_views_of(members@) =~= p.0);
                    }
                    Some((Json::Obj(members), n))
                },
                None => None,
            }
        }
    } else if b == 45 || (48 <= b && b < 58) {
        match parse_number(s, j) {
            Some(p) => Some((Json::Num(p.0), p.1)),
            None => None,
        }
    } else {
        None
    }
}

fn parse_items_into(s: &Vec<u8>, k: usize, out: &mut Vec<Json>) -> (r: Option<usize>)
    requires
        k <= s@.len(),
    ensures
        match r {
            Some(n) => spec_parse_items(s@, k as int) matches Some(p) && p.1 == n && k < n
                <= s@.len() && views_of(final(out)@) == views_of(old(out)@) + p.0,
            None => spec_parse_items(s@, k as int) is None,
        },
    decreases s@.len() - k, 1int,
{
    match parse_value(s, k) {
        None => None,
        Some((v, n)) => {
            let m = skip_ws_at(s, n);
            if m < s.len() && s[m] == 44 {
                let ghost before = out@;
                out.push(v);
                proof {
                    lemma_views_of_push(before, v);
                }
                match parse_items_into(s, m + 1, out) {
                    Some(e) => {
                        proof {
                            let p = spec_parse_items(s@, k as int)->0;
                            let rest = spec_parse_items(s@, m + 1)->0;
                            assert(p.0 =~= seq![view_of(v)] + rest.0);
                            assert(views_of(final(out)@) =~= views_of(old(out)@) + p.0);
                        }
                        Some(e)
                    },
                    None => None,
                }
            } else if m < s.len() && s[m] == 93 {
                let ghost before = out@;
                out.push(v);
                proof {
                    lemma_views_of_push(before, v);
                    let p = spec_parse_items(s@, k as int)->0;
                    assert(p.0 =~= seq![view_of(v)]);
                    assert(views_of(out@) =~= views_of(old(out)@) + p.0);
                }
                Some(m + 1)
            } else {
                None
            }
        },
    }
}

fn parse_members_into(s: &Vec<u8>, k: usize, out: &mut Vec<(String, Json)>) -> (r: Option<
    usize,
>)
    requires
        k <= s@.len(),
    ensures
        match r {
            Some(n) => spec_parse_members(s@, k as int) matches Some(p) && p.1 == n && k < n
                <= s@.len() && member_views_of(final(out)@) == member_views_of(old(out)@) + p.0,
            None => spec_parse_members(s@, k as int) is None,
        },
    decreases s@.len() - k, 1int,
{
    let a = skip_ws_at(s, k);
    if a == s.len() || s[a] != 34 {
        return None;
    }
    let mut key_bytes: Vec<u8> = Vec::new();
    let n = match parse_string_into(s, a + 1, &mut key_bytes) {
        Some(n) => n,
        None => {
            return None;
        },
    };
    assert(key_bytes@ =~= (spec_parse_string(s@, a + 1)->0).0);
    let key = match string_from_utf8(key_bytes) {
        Some(key) => key,
        None => {
            return None;
        },
    };
    let c = skip_ws_at(s, n);
    if c == s.len() || s[c] != 58 {
        return None;
    }
    match parse_value(s, c + 1) {
        None => None,
        Some((v, q)) => {
            let m = skip_ws_at(s, q);
            if m < s.len() && s[m] == 44 {
                let ghost before = out@;
                let ghost gkey = key@;
                let ghost gv = v;
                out.push((key, v));
                proof {
                    let pair = out@.last();
                    assert(out@ == before.push(pair));
                    lemma_member_views_push(before, pair);
                    assert(pair.0@ == gkey && pair.1 == gv);
                }
                match parse_members_into(s, m + 1, out) {
                    Some(e) => {
                        proof {
                            let p = spec_parse_members(s@, k as int)->0;
                            let rest = spec_parse_members(s@, m + 1)->0;
                            assert(p.0 =~= seq![(encode_utf8(gkey), view_of(gv))] + rest.0);
                            assert(member_views_of(final(out)@) =~= member_views_of(old(out)@)
                                + p.0);
                        }
                        Some(e)
                    },
                    None => None,
                }
            } else if m < s.len() && s[m] == 125 {
                let ghost before = out@;
                let ghost gkey = key@;
                let ghost gv = v;
                out.push((key, v));
                proof {
                    let pair = out@.last();
                    assert(out@ == before.push(pair));
                    lemma_member_views_push(before, pair);
                    assert(pair.0@ == gkey && pair.1 == gv);
                    let p = spec_parse_members(s@, k as int)->0;
                    assert(p.0 =~= seq![(encode_utf8(gkey), view_of(gv))]);
                    assert(member_views_of(out@) =~= member_views_of(old(out)@) + p.0);
                }
                Some(m + 1)
            } else {
                None
            }
        },
    }
}

/// Parses a whole JSON document: one value with nothing but whitespace
/// around it. Returns the value exactly when the bytes conform to the
/// grammar stated by the parsing specification functions.
pub fn parse_json(s: &Vec<u8>) -> (r: Option<Json>)
    ensures
        match r {
            Some(j) => spec_parse_json(s@) == Some(view_of(j)),
            None => spec_parse_json(s@) is None,
        },
{
    match parse_value(s, 0) {
        Some((j, n)) => {
            let m = skip_ws_at(s, n);
            if m == s.len() {
                Some(j)
            } else {
                None
            }
        },
        None => None,
    }
}


/// Element-wise reading of an object's member shapes.
pub proof fn lemma_member_views_index(m: Seq<(String, Json)>)
    ensures
        member_views_of(m).len() == m.len(),
        forall|i: int|
            0 <= i < m.len() ==> #[trigger] member_views_of(m)[i] == (
                encode_utf8(m[i].0@),
                view_of(m[i].1),
            ),
    decreases m.len(),
{
    if m.len() > 0 {
        lemma_member_views_index(m.skip(1));
        assert forall|i: int| 0 <= i < m.len() implies #[trigger] member_views_of(m)[i] == (
            encode_utf8(m[i].0@),
            view_of(m[i].1),
        ) by {
            if i > 0 {
                assert(member_views_of(m)[i] == member_views_of(m.skip(1))[i - 1]);
                assert(m.skip(1)[i - 1] == m[i]);
            }
        }
    }
}

/// The value of `key` in an object's members: the first binding wins.
pub open spec fn spec_member(m: Seq<(String, Json)>, k: Seq<char>) -> Option<Json>
    decreases m.len(),
{
    if m.len() == 0 {
        None
    } else if m[0].0@ == k {
        Some(m[0].1)
    } else {
        spec_member(m.skip(1), k)
    }
}

fn member_from<'a>(m: &'a Vec<(String, Json)>, idx: usize, key: &String) -> (r: Option<
    &'a Json,
>)
    requires
        idx <= m@.len(),
    ensures
        match r {
            Some(v) => spec_member(m@.skip(idx as int), key@) == Some(*v),
            None => spec_member(m@.skip(idx as int), key@) is None,
        },
    decreases m@.len() - idx,
{
    if idx == m.len() {
        assert(m@.skip(idx as int) =~= Seq::<(String, Json)>::empty());
        None
    } else {
        let p = &m[idx];
        assert(m@.skip(idx as int)[0] == m@[idx as int]);
        if p.0.eq(key) {
            Some(&p.1)
        } else {
            assert(m@.skip(idx as int).skip(1) =~= m@.skip(idx + 1));
            member_from(m, idx + 1, key)
        }
    }
}

impl Json {
    /// Looks `key` up in an object; `None` on any other shape or when the
    /// key is absent.
    pub fn get_member<'a>(&'a self, key: &String) -> (r: Option<&'a Json>)
        ensures
            match self {
                Json::Obj(m) => match r {
                    Some(v) => spec_member(m@, key@) == Some(*v),
                    None => spec_member(m@, key@) is None,
                },
                _ => r is None,
            },
    {
        match self {
            Json::Obj(m) => {
                assert(m@.skip(0) =~= m@);
                member_from(m, 0, key)
            },
            _ => None,
        }
    }

    /// The string carried by a string value.
    pub fn as_str<'a>(&'a self) -> (r: Option<&'a String>)
        ensures
            r is Some <==> self is Str,
            self matches Json::Str(s) ==> (r matches Some(v) && v@ == s@),
    {
        match self {
            Json::Str(s) => Some(s),
            _ => None,
        }
    }

    /// The boolean carried by a boolean value.
    pub fn as_bool(&self) -> (r: Option<bool>)
        ensures
            r is Some <==> self is Bool,
            self matches Json::Bool(b) ==> r == Some(*b),
    {
        match self {
            Json::Bool(b) => Some(*b),
            _ => None,
        }
    }

    /// The elements of an array value.
    pub fn as_array<'a>(&'a self) -> (r: Option<&'a Vec<Json>>)
        ensures
            r is Some <==> self is Arr,
            self matches Json::Arr(v) ==> (r matches Some(a) && a@ == v@),
    {
        match self {
            Json::Arr(v) => Some(v),
            _ => None,
        }
    }

    /// The value of a number whose lexeme is a plain unsigned decimal that
    /// fits in 64 bits; `None` for any other shape or lexeme.
    pub fn as_u64(&self) -> (r: Option<u64>)
        ensures
            match self {
                Json::Num(s) => (r is Some <==> crate::text::all_dec_digits(s@)
                    && crate::text::dec_val(s@) <= u64::MAX) && (r matches Some(v) ==> v
                    == crate::text::dec_val(s@)),
                _ => r is None,
            },
    {
        match self {
            Json::Num(s) => crate::text::parse_dec(s.as_str(), 18446744073709551615u64),
            _ => None,
        }
    }
}


/// The empty JSON object, the body of fire-and-forget POST calls.
pub fn empty_object() -> (r: Json)
    ensures
        view_of(r) == JsonV::Obj(Seq::empty()),
{
    let members: Vec<(String, Json)> = Vec::new();
    assert(member_views_of(members@) =~= Seq::<(Seq<u8>, JsonV)>::empty());
    Json::Obj(members)
}

/// A JSON object of one string member.
pub fn string_object_1(k: &str, v: &str) -> (r: Json)
    ensures
        view_of(r) == JsonV::Obj(
            seq![(encode_utf8(k@), JsonV::Str(encode_utf8(v@)))],
        ),
{
    let mut members: Vec<(String, Json)> = Vec::new();
    members.push((String::from_str(k), Json::Str(v.to_owned())));
    proof {
        lemma_member_views_index(members@);
        assert(member_views_of(members@) =~= seq![
            (encode_utf8(k@), JsonV::Str(encode_utf8(v@))),
        ]);
    }
    Json::Obj(members)
}

/// A JSON object of two string members.
pub fn string_object_2(k1: &str, v1: &str, k2: &str, v2: &str) -> (r: Json)
    ensures
        view_of(r) == JsonV::Obj(
            seq![
                (encode_utf8(k1@), JsonV::Str(encode_utf8(v1@))),
                (encode_utf8(k2@), JsonV::Str(encode_utf8(v2@))),
            ],
        ),
{
    let mut members: Vec<(String, Json)> = Vec::new();
    members.push((String::from_str(k1), Json::Str(v1.to_owned())));
    members.push((String::from_str(k2), Json::Str(v2.to_owned())));
    proof {
        lemma_member_views_index(members@);
        assert(member_views_of(members@) =~= seq![
            (encode_utf8(k1@), JsonV::Str(encode_utf8(v1@))),
            (encode_utf8(k2@), JsonV::Str(encode_utf8(v2@))),
        ]);
    }
    Json::Obj(members)
}

} // verus!
