//! Verified text utilities: decimal and hexadecimal rendering of integers,
//! bounded decimal parsing, and recovery of ASCII strings from bytes.

use vstd::prelude::*;

verus! {

/// The ASCII byte of a decimal digit value.
pub open spec fn dec_digit(d: nat) -> u8
    recommends
        d < 10,
{
    (48 + d) as u8
}

/// The ASCII byte of a hexadecimal digit value, lower case.
pub open spec fn hex_digit(d: nat) -> u8
    recommends
        d < 16,
{
    if d < 10 {
        (48 + d) as u8
    } else {
        (87 + d) as u8
    }
}

/// The shortest decimal rendering of `n`, as ASCII bytes.
pub open spec fn dec_bytes(n: nat) -> Seq<u8>
    decreases n,
{
    if n < 10 {
        seq![dec_digit(n)]
    } else {
        dec_bytes(n / 10).push(dec_digit(n % 10))
    }
}

/// The shortest lower-case hexadecimal rendering of `n`, as ASCII bytes.
pub open spec fn hex_bytes(n: nat) -> Seq<u8>
    decreases n,
{
    if n < 16 {
        seq![hex_digit(n)]
    } else {
        hex_bytes(n / 16).push(hex_digit(n % 16))
    }
}

/// The characters of a sequence of ASCII bytes.
pub open spec fn chars_of_bytes(bs: Seq<u8>) -> Seq<char> {
    bs.map_values(|b: u8| b as char)
}

/// The shortest decimal rendering of `n`, as characters.
pub open spec fn dec_chars(n: nat) -> Seq<char> {
    chars_of_bytes(dec_bytes(n))
}

/// The shortest lower-case hexadecimal rendering of `n`, as characters.
pub open spec fn hex_chars(n: nat) -> Seq<char> {
    chars_of_bytes(hex_bytes(n))
}

/// Every byte of a decimal rendering is an ASCII digit.
pub proof fn lemma_dec_bytes_ascii(n: nat)
    ensures
        forall|i: int| 0 <= i < dec_bytes(n).len() ==> 48 <= #[trigger] dec_bytes(n)[i] < 58,
    decreases n,
{
    if n >= 10 {
        lemma_dec_bytes_ascii(n / 10);
        assert forall|i: int| 0 <= i < dec_bytes(n).len() implies 48 <= #[trigger] dec_bytes(
            n,
        )[i] < 58 by {
            if i < dec_bytes(n / 10).len() {
                assert(dec_bytes(n)[i] == dec_bytes(n / 10)[i]);
            } else {
                assert(dec_bytes(n)[i] == dec_digit(n % 10));
            }
        }
    }
}

/// Every byte of a hexadecimal rendering is an ASCII digit or letter.
pub proof fn lemma_hex_bytes_ascii(n: nat)
    ensures
        forall|i: int| 0 <= i < hex_bytes(n).len() ==> 48 <= #[trigger] hex_bytes(n)[i] < 123,
    decreases n,
{
    if n >= 16 {
        lemma_hex_bytes_ascii(n / 16);
        assert forall|i: int| 0 <= i < hex_bytes(n).len() implies 48 <= #[trigger] hex_bytes(
            n,
        )[i] < 123 by {
            if i < hex_bytes(n / 16).len() {
                assert(hex_bytes(n)[i] == hex_bytes(n / 16)[i]);
            } else {
                assert(hex_bytes(n)[i] == hex_digit(n % 16));
            }
        }
    }
}

/// Relies on `alloc::string::String::from_utf8`: bytes below 0x80 are valid
/// UTF-8 and decode to the string of exactly those characters, whose UTF-8
/// encoding is in turn those same bytes.
#[verifier::external_body]
pub fn ascii_string_of(bytes: Vec<u8>) -> (r: String)
    requires
        forall|i: int| 0 <= i < bytes@.len() ==> bytes@[i] < 0x80,
    ensures
        r@.len() == bytes@.len(),
        forall|i: int| 0 <= i < bytes@.len() ==> r@[i] == bytes@[i] as char,
        vstd::utf8::encode_utf8(r@) == bytes@,
{
    match String::from_utf8(bytes) {
        Ok(s) => s,
        Err(_) => String::new(),
    }
}

/// Appends the decimal rendering of `n` to `out`.
pub fn push_dec_bytes(n: u64, out: &mut Vec<u8>)
    ensures
        final(out)@ == old(out)@ + dec_bytes(n as nat),
    decreases n,
{
    if n < 10 {
        out.push(48 + (n as u8));
        assert(out@ =~= old(out)@ + dec_bytes(n as nat));
    } else {
        push_dec_bytes(n / 10, out);
        out.push(48 + ((n % 10) as u8));
        assert(out@ =~= old(out)@ + dec_bytes(n as nat));
    }
}

/// The decimal rendering of `n` as a string, shortest form.
pub fn u64_to_dec(n: u64) -> (r: String)
    ensures
        r@ == dec_chars(n as nat),
{
    let mut out: Vec<u8> = Vec::new();
    push_dec_bytes(n, &mut out);
    proof {
        lemma_dec_bytes_ascii(n as nat);
    }
    let r = ascii_string_of(out);
    assert(r@ =~= dec_chars(n as nat));
    r
}

/// Appends the hexadecimal rendering of `n` to `out`.
pub fn push_hex_bytes(n: u64, out: &mut Vec<u8>)
    ensures
        final(out)@ == old(out)@ + hex_bytes(n as nat),
    decreases n,
{
    if n < 16 {
        let d: u8 = n as u8;
        if d < 10 {
            out.push(48 + d);
        } else {
            out.push(87 + d);
        }
        assert(out@ =~= old(out)@ + hex_bytes(n as nat));
    } else {
        push_hex_bytes(n / 16, out);
        let d: u8 = (n % 16) as u8;
        if d < 10 {
            out.push(48 + d);
        } else {
            out.push(87 + d);
        }
        assert(out@ =~= old(out)@ + hex_bytes(n as nat));
    }
}

/// The lower-case hexadecimal rendering of `n` as a string, shortest form.
pub fn u64_to_hex(n: u64) -> (r: String)
    ensures
        r@ == hex_chars(n as nat),
{
    let mut out: Vec<u8> = Vec::new();
    push_hex_bytes(n, &mut out);
    proof {
        lemma_hex_bytes_ascii(n as nat);
    }
    let r = ascii_string_of(out);
    assert(r@ =~= hex_chars(n as nat));
    r
}

/// True when `c` is an ASCII decimal digit.
pub open spec fn is_dec_digit_char(c: char) -> bool {
    '0' <= c && c <= '9'
}

/// True when `s` is one or more ASCII decimal digits and nothing else.
pub open spec fn all_dec_digits(s: Seq<char>) -> bool {
    s.len() > 0 && forall|i: int| 0 <= i < s.len() ==> is_dec_digit_char(#[trigger] s[i])
}

/// The numeric value of a sequence of decimal digit characters.
pub open spec fn dec_val(s: Seq<char>) -> nat
    decreases s.len(),
{
    if s.len() == 0 {
        0
    } else {
        dec_val(s.drop_last()) * 10 + (s.last() as nat - 48) as nat
    }
}

/// A longer digit string never has a smaller value: appending a digit to a
/// string whose value already exceeds `max` keeps the value above `max`.
proof fn lemma_dec_val_grows(s: Seq<char>, max: nat)
    requires
        s.len() > 0,
        is_dec_digit_char(s.last()),
        dec_val(s.drop_last()) > max,
    ensures
        dec_val(s) > max,
{
}

/// Parses `s` as an unsigned decimal number of at most `max`.
/// Returns the value exactly when `s` is all digits and the value fits.
pub fn parse_dec(s: &str, max: u64) -> (r: Option<u64>)
    ensures
        r is Some <==> all_dec_digits(s@) && dec_val(s@) <= max,
        r is Some ==> r->0 == dec_val(s@),
{
    let n = s.unicode_len();
    if n == 0 {
        return None;
    }
    let mut acc: u64 = 0;
    let mut too_big: bool = false;
    let mut i: usize = 0;
    while i < n
        invariant
            0 <= i <= n,
            n == s@.len(),
            forall|j: int| 0 <= j < i ==> is_dec_digit_char(#[trigger] s@[j]),
            !too_big ==> acc == dec_val(s@.take(i as int)) && acc <= max,
            too_big ==> dec_val(s@.take(i as int)) > max,
        decreases n - i,
    {
        let c = s.get_char(i);
        if c < '0' || c > '9' {
            return None;
        }
        let d: u64 = (c as u64) - 48;
        assert(s@.take(i + 1).drop_last() =~= s@.take(i as int));
        assert(s@.take(i + 1).last() == s@[i as int]);
        if too_big {
            proof {
                lemma_dec_val_grows(s@.take(i + 1), max as nat);
            }
        } else {
            if acc > max / 10 || (acc == max / 10 && d > max % 10) {
                too_big = true;
                proof {
                    assert(max == 10 * (max / 10) + max % 10) by (nonlinear_arith);
                    assert(acc * 10 + d > max) by (nonlinear_arith)
                        requires
                            acc > max / 10 || (acc == max / 10 && d > max % 10),
                            max == 10 * (max / 10) + max % 10,
                            d < 10,
                    ;
                }
            } else {
                proof {
                    assert(max == 10 * (max / 10) + max % 10) by (nonlinear_arith);
                    assert(acc * 10 + d <= max) by (nonlinear_arith)
                        requires
                            acc <= max / 10,
                            acc == max / 10 ==> d <= max % 10,
                            max == 10 * (max / 10) + max % 10,
                            d < 10,
                    ;
                }
                acc = acc * 10 + d;
            }
        }
        i = i + 1;
    }
    assert(s@.take(n as int) =~= s@);
    if too_big {
        None
    } else {
        Some(acc)
    }
}

/// Parses a TCP port: digits only, at most 65535.
pub fn parse_port(s: &str) -> (r: Option<u16>)
    ensures
        r is Some <==> all_dec_digits(s@) && dec_val(s@) <= 65535,
        r is Some ==> r->0 == dec_val(s@),
{
    match parse_dec(s, 65535) {
        Some(v) => Some(v as u16),
        None => None,
    }
}


/// The elements joined with `sep` between each pair.
pub open spec fn join_chars(parts: Seq<Seq<char>>, sep: Seq<char>) -> Seq<char>
    decreases parts.len(),
{
    if parts.len() == 0 {
        Seq::empty()
    } else if parts.len() == 1 {
        parts[0]
    } else {
        parts[0] + sep + join_chars(parts.skip(1), sep)
    }
}

/// The texts of a list of strings.
pub open spec fn strs_view(parts: Seq<String>) -> Seq<Seq<char>> {
    parts.map_values(|p: String| p@)
}

fn join_from(parts: &Vec<String>, i: usize, sep: &str, out: &mut String)
    requires
        i <= parts@.len(),
    ensures
        final(out)@ == old(out)@ + join_chars(strs_view(parts@).skip(i as int), sep@),
    decreases parts@.len() - i,
{
    if i == parts.len() {
        assert(strs_view(parts@).skip(i as int) =~= Seq::<Seq<char>>::empty());
        assert(out@ =~= old(out)@ + join_chars(strs_view(parts@).skip(i as int), sep@));
    } else {
        out.append(parts[i].as_str());
        if i + 1 < parts.len() {
            out.append(sep);
        }
        join_from(parts, i + 1, sep, out);
        proof {
            let ps = strs_view(parts@).skip(i as int);
            assert(ps[0] == parts@[i as int]@);
            assert(ps.skip(1) =~= strs_view(parts@).skip(i + 1));
            assert(final(out)@ =~= old(out)@ + join_chars(ps, sep@));
        }
    }
}

/// Joins strings with a separator: `["a", "b"]` and `,` give `a,b`.
pub fn join_strings(parts: &Vec<String>, sep: &str) -> (r: String)
    ensures
        r@ == join_chars(strs_view(parts@), sep@),
{
    let mut out = String::new();
    join_from(parts, 0, sep, &mut out);
    assert(strs_view(parts@).skip(0) =~= strs_view(parts@));
    out
}


/// Whether two text slices hold the same characters.
pub fn str_eq(a: &str, b: &str) -> (r: bool)
    ensures
        r == (a@ == b@),
{
    let na = a.unicode_len();
    let nb = b.unicode_len();
    if na != nb {
        return false;
    }
    let mut i: usize = 0;
    while i < na
        invariant
            0 <= i <= na,
            na == a@.len(),
            na == b@.len(),
            forall|j: int| 0 <= j < i ==> a@[j] == b@[j],
        decreases na - i,
    {
        if a.get_char(i) != b.get_char(i) {
            return false;
        }
        i = i + 1;
    }
    proof {
        assert(a@ =~= b@);
    }
    true
}

/// Whether `s` holds the character `c` anywhere.
pub fn str_contains_char(s: &str, c: char) -> (r: bool)
    ensures
        r == s@.contains(c),
{
    let n = s.unicode_len();
    let mut i: usize = 0;
    while i < n
        invariant
            0 <= i <= n,
            n == s@.len(),
            forall|j: int| 0 <= j < i ==> s@[j] != c,
        decreases n - i,
    {
        if s.get_char(i) == c {
            assert(s@.contains(c));
            return true;
        }
        i = i + 1;
    }
    assert(!s@.contains(c));
    false
}

/// The lower-case text of a boolean.
pub fn bool_string(b: bool) -> (r: String)
    ensures
        b ==> r@ == "true"@,
        !b ==> r@ == "false"@,
{
    if b {
        String::from_str("true")
    } else {
        String::from_str("false")
    }
}

/// The first position at or after `i` that does not hold `/`.
pub open spec fn non_slash_from(s: Seq<char>, i: int) -> int
    decreases s.len() - i
        when 0 <= i <= s.len()
{
    if i < s.len() && s[i] == '/' {
        non_slash_from(s, i + 1)
    } else {
        i
    }
}

/// `s` without its leading slashes.
pub open spec fn trim_leading_slashes(s: Seq<char>) -> Seq<char> {
    s.skip(non_slash_from(s, 0))
}

/// Removes every leading `/` from a path.
pub fn trim_slashes(s: &str) -> (r: String)
    ensures
        r@ == trim_leading_slashes(s@),
{
    let n = s.unicode_len();
    let mut i: usize = 0;
    while i < n && s.get_char(i) == '/'
        invariant
            0 <= i <= n,
            n == s@.len(),
            non_slash_from(s@, 0) == non_slash_from(s@, i as int),
        decreases n - i,
    {
        i = i + 1;
    }
    let r = s.substring_char(i, n).to_owned();
    assert(r@ =~= trim_leading_slashes(s@));
    r
}

} // verus!
