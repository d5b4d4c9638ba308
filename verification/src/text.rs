//! Byte-level text utilities for the output scanner and address building:
//! ASCII whitespace trimming, decimal port parsing, substring search, and
//! decimal rendering.

use vstd::prelude::*;

verus! {

/// ASCII whitespace, the characters the scanner strips around a candidate
/// port number.
pub open spec fn is_space(b: u8) -> bool {
    b == 32 || b == 9 || b == 10 || b == 13
}

/// ASCII decimal digit.
pub open spec fn is_digit(b: u8) -> bool {
    48 <= b <= 57
}

/// The sequence with leading ASCII whitespace removed.
pub open spec fn trim_front(s: Seq<u8>) -> Seq<u8>
    decreases s.len(),
{
    if s.len() > 0 && is_space(s[0]) {
        trim_front(s.drop_first())
    } else {
        s
    }
}

/// The sequence with trailing ASCII whitespace removed.
pub open spec fn trim_back(s: Seq<u8>) -> Seq<u8>
    decreases s.len(),
{
    if s.len() > 0 && is_space(s.last()) {
        trim_back(s.drop_last())
    } else {
        s
    }
}

/// The sequence with ASCII whitespace removed on both ends.
pub open spec fn trimmed(s: Seq<u8>) -> Seq<u8> {
    trim_back(trim_front(s))
}

/// All bytes of the sequence are ASCII decimal digits.
pub open spec fn all_digits(s: Seq<u8>) -> bool {
    forall|i: int| 0 <= i < s.len() ==> is_digit(#[trigger] s[i])
}

/// Value of a digit sequence read as a decimal number, most significant
/// digit first.
pub open spec fn dec_value(s: Seq<u8>) -> nat
    decreases s.len(),
{
    if s.len() == 0 {
        0
    } else {
        dec_value(s.drop_last()) * 10 + (s.last() - 48) as nat
    }
}

proof fn lemma_trim_front_subrange(s: Seq<u8>, k: int)
    requires
        0 <= k <= s.len(),
        forall|i: int| 0 <= i < k ==> is_space(#[trigger] s[i]),
        k < s.len() ==> !is_space(s[k]),
    ensures
        trim_front(s) == s.subrange(k, s.len() as int),
    decreases k,
{
    if k == 0 {
        assert(s.subrange(0, s.len() as int) =~= s);
    } else {
        lemma_trim_front_subrange(s.drop_first(), k - 1);
        assert(s.drop_first().subrange(k - 1, s.drop_first().len() as int) =~= s.subrange(
            k,
            s.len() as int,
        ));
    }
}

proof fn lemma_trim_back_subrange(s: Seq<u8>, k: int)
    requires
        0 <= k <= s.len(),
        forall|i: int| k <= i < s.len() ==> is_space(#[trigger] s[i]),
        k > 0 ==> !is_space(s[k - 1]),
    ensures
        trim_back(s) == s.subrange(0, k),
    decreases s.len(),
{
    if k == s.len() {
        assert(s.subrange(0, s.len() as int) =~= s);
    } else {
        assert(is_space(s.last()));
        lemma_trim_back_subrange(s.drop_last(), k);
        assert(s.drop_last().subrange(0, k) =~= s.subrange(0, k));
    }
}

/// Bounds `(lo, hi)` of the ASCII-whitespace-trimmed slice of `v`, so that
/// `v@.subrange(lo, hi)` is exactly `trimmed(v@)`.
pub fn trim_bounds(v: &[u8]) -> (r: (usize, usize))
    ensures
        r.0 <= r.1 <= v@.len(),
        v@.subrange(r.0 as int, r.1 as int) == trimmed(v@),
{
    let n = v.len();
    let mut lo: usize = 0;
    while lo < n && (v[lo] == 32 || v[lo] == 9 || v[lo] == 10 || v[lo] == 13)
        invariant
            0 <= lo <= n,
            n == v@.len(),
            forall|i: int| 0 <= i < lo ==> is_space(#[trigger] v@[i]),
        decreases n - lo,
    {
        lo = lo + 1;
    }
    proof {
        lemma_trim_front_subrange(v@, lo as int);
    }
    let mut hi: usize = n;
    while hi > lo && (v[hi - 1] == 32 || v[hi - 1] == 9 || v[hi - 1] == 10 || v[hi - 1] == 13)
        invariant
            lo <= hi <= n,
            n == v@.len(),
            forall|i: int| hi <= i < n ==> is_space(#[trigger] v@[i]),
        decreases hi,
    {
        hi = hi - 1;
    }
    proof {
        let front = v@.subrange(lo as int, n as int);
        lemma_trim_back_subrange(front, hi - lo);
        assert(front.subrange(0, hi - lo) =~= v@.subrange(lo as int, hi as int));
    }
    (lo, hi)
}

/// The digit part of a candidate port chunk: the trimmed bytes, with one
/// leading `+` sign removed if present (as Rust's integer parsing accepts).
pub open spec fn digits_part(s: Seq<u8>) -> Seq<u8> {
    let t = trimmed(s);
    if t.len() > 0 && t[0] == 43 {
        t.drop_first()
    } else {
        t
    }
}

/// What a chunk yields when read as a port number printed alone: the value
/// of its trimmed digits, if they form a decimal integer within `u16`.
pub open spec fn parse_port_spec(s: Seq<u8>) -> Option<u16> {
    let d = digits_part(s);
    if d.len() > 0 && all_digits(d) && dec_value(d) <= 65535 {
        Some(dec_value(d) as u16)
    } else {
        None
    }
}

proof fn lemma_dec_value_step(s: Seq<u8>, i: int)
    requires
        0 <= i < s.len(),
        is_digit(s[i]),
    ensures
        dec_value(s.subrange(0, i + 1)) == dec_value(s.subrange(0, i)) * 10 + (s[i] - 48),
{
    assert(s.subrange(0, i + 1).drop_last() =~= s.subrange(0, i));
    assert(s.subrange(0, i + 1).last() == s[i]);
}

proof fn lemma_dec_value_mono(s: Seq<u8>, i: int)
    requires
        0 <= i <= s.len(),
        all_digits(s),
    ensures
        dec_value(s.subrange(0, i)) <= dec_value(s),
    decreases s.len() - i,
{
    if i == s.len() {
        assert(s.subrange(0, i) =~= s);
    } else {
        lemma_dec_value_step(s, i);
        lemma_dec_value_mono(s, i + 1);
    }
}

/// Reads a chunk as a port number printed alone: trims ASCII whitespace,
/// accepts one `+` sign, and parses the remaining decimal digits, rejecting
/// values over `u16::MAX`.
pub fn parse_port(v: &[u8]) -> (r: Option<u16>)
    ensures
        r == parse_port_spec(v@),
{
    let (lo0, hi) = trim_bounds(v);
    let ghost t = trimmed(v@);
    let ghost d = digits_part(v@);
    let lo: usize;
    if lo0 < hi && v[lo0] == 43 {
        lo = lo0 + 1;
        proof {
            assert(t[0] == 43);
            assert(t.drop_first() =~= v@.subrange(lo as int, hi as int));
        }
    } else {
        lo = lo0;
        proof {
            if t.len() > 0 {
                assert(t[0] == v@[lo0 as int]);
            }
        }
    }
    assert(d =~= v@.subrange(lo as int, hi as int));
    if lo == hi {
        return None;
    }
    let mut acc: u32 = 0;
    let mut i: usize = lo;
    while i < hi
        invariant
            lo <= i <= hi <= v@.len(),
            d == digits_part(v@),
            d == v@.subrange(lo as int, hi as int),
            d.len() > 0,
            acc <= 65535,
            acc == dec_value(d.subrange(0, i - lo)),
            all_digits(d.subrange(0, i - lo)),
        decreases hi - i,
    {
        let b = v[i];
        proof {
            assert(d[i - lo] == b);
        }
        if !(48 <= b && b <= 57) {
            assert(!is_digit(d[i - lo]));
            assert(!all_digits(d));
            return None;
        }
        proof {
            lemma_dec_value_step(d, i - lo);
        }
        let next: u32 = acc * 10 + (b - 48) as u32;
        if next > 65535 {
            proof {
                if all_digits(d) {
                    lemma_dec_value_mono(d, i + 1 - lo);
                }
            }
            return None;
        }
        acc = next;
        proof {
            assert(d.subrange(0, i + 1 - lo).drop_last() =~= d.subrange(0, i - lo));
        }
        i = i + 1;
    }
    proof {
        assert(d.subrange(0, hi - lo) =~= d);
    }
    Some(acc as u16)
}

proof fn lemma_ascii_bytes_valid_utf8(s: Seq<u8>)
    requires
        forall|i: int| 0 <= i < s.len() ==> #[trigger] s[i] < 0x80,
    ensures
        vstd::utf8::valid_utf8(s),
{
    assert(s.subrange(0, 0) =~= Seq::<u8>::empty());
    assert forall|i: int| 0 <= i < s.len() implies #[trigger] vstd::utf8::is_leading_byte_width_1(
        s[i],
    ) by {
        assert(s[i] < 0x80);
    }
    vstd::utf8::partial_valid_utf8_extend_ascii_block(s, 0, s.len() as int);
    assert(s.subrange(0, s.len() as int) =~= s);
}

proof fn lemma_trim_front_ascii(s: Seq<u8>)
    requires
        forall|i: int| 0 <= i < trim_front(s).len() ==> #[trigger] trim_front(s)[i] < 0x80,
    ensures
        forall|i: int| 0 <= i < s.len() ==> #[trigger] s[i] < 0x80,
    decreases s.len(),
{
    if s.len() > 0 && is_space(s[0]) {
        let rest = s.drop_first();
        assert(trim_front(s) == trim_front(rest));
        assert forall|i: int| 0 <= i < trim_front(rest).len() implies #[trigger] trim_front(rest)[i]
            < 0x80 by {
            assert(trim_front(rest)[i] == trim_front(s)[i]);
        }
        lemma_trim_front_ascii(rest);
        assert forall|i: int| 0 <= i < s.len() implies #[trigger] s[i] < 0x80 by {
            if i > 0 {
                assert(s[i] == rest[i - 1]);
            }
        }
    } else {
        assert(trim_front(s) == s);
        assert forall|i: int| 0 <= i < s.len() implies #[trigger] s[i] < 0x80 by {
            assert(s[i] == trim_front(s)[i]);
        }
    }
}

proof fn lemma_trim_back_ascii(s: Seq<u8>)
    requires
        forall|i: int| 0 <= i < trim_back(s).len() ==> #[trigger] trim_back(s)[i] < 0x80,
    ensures
        forall|i: int| 0 <= i < s.len() ==> #[trigger] s[i] < 0x80,
    decreases s.len(),
{
    if s.len() > 0 && is_space(s.last()) {
        let rest = s.drop_last();
        assert(trim_back(s) == trim_back(rest));
        assert forall|i: int| 0 <= i < trim_back(rest).len() implies #[trigger] trim_back(rest)[i]
            < 0x80 by {
            assert(trim_back(rest)[i] == trim_back(s)[i]);
        }
        lemma_trim_back_ascii(rest);
        assert forall|i: int| 0 <= i < s.len() implies #[trigger] s[i] < 0x80 by {
            if i < s.len() - 1 {
                assert(s[i] == rest[i]);
            }
        }
    } else {
        assert(trim_back(s) == s);
        assert forall|i: int| 0 <= i < s.len() implies #[trigger] s[i] < 0x80 by {
            assert(s[i] == trim_back(s)[i]);
        }
    }
}

/// A chunk whose trimmed text parses as a port consists of ASCII whitespace,
/// a sign and decimal digits alone, so it is always well-formed UTF-8: the
/// decode step of the scanner can never drop such a chunk.
pub proof fn lemma_port_chunk_is_text(c: Seq<u8>)
    requires
        parse_port_spec(c) is Some,
    ensures
        vstd::utf8::valid_utf8(c),
{
    let t = trimmed(c);
    let d = digits_part(c);
    assert forall|i: int| 0 <= i < t.len() implies #[trigger] t[i] < 0x80 by {
        if t.len() > 0 && t[0] == 43 {
            if i > 0 {
                assert(t[i] == d[i - 1]);
                assert(is_digit(d[i - 1]));
            }
        } else {
            assert(t[i] == d[i]);
            assert(is_digit(d[i]));
        }
    }
    lemma_trim_back_ascii(trim_front(c));
    lemma_trim_front_ascii(c);
    lemma_ascii_bytes_valid_utf8(c);
}

/// `needle` occurs as a contiguous run of bytes inside `hay`.
pub open spec fn contains_seq(hay: Seq<u8>, needle: Seq<u8>) -> bool {
    exists|i: int|
        0 <= i && i + needle.len() <= hay.len() && #[trigger] hay.subrange(
            i,
            i + needle.len() as int,
        ) == needle
}

/// Substring search: whether `needle` occurs contiguously inside `hay`.
pub fn contains_bytes(hay: &[u8], needle: &[u8]) -> (r: bool)
    ensures
        r == contains_seq(hay@, needle@),
{
    let n = hay.len();
    let m = needle.len();
    if m == 0 {
        proof {
            let w: int = 0;
            assert(hay@.subrange(w, w + needle@.len() as int) =~= needle@);
            assert(contains_seq(hay@, needle@));
        }
        return true;
    }
    if m > n {
        return false;
    }
    let mut i: usize = 0;
    while i <= n - m
        invariant
            0 <= i <= n - m + 1,
            n == hay@.len(),
            m == needle@.len(),
            m <= n,
            forall|k: int|
                0 <= k < i ==> #[trigger] hay@.subrange(k, k + needle@.len() as int) != needle@,
        decreases n - i,
    {
        let mut j: usize = 0;
        while j < m && hay[i + j] == needle[j]
            invariant
                0 <= j <= m,
                i + m <= n,
                n == hay@.len(),
                m == needle@.len(),
                forall|k: int| 0 <= k < j ==> hay@[i + k] == needle@[k],
            decreases m - j,
        {
            j = j + 1;
        }
        if j == m {
            proof {
                assert(hay@.subrange(i as int, i + needle@.len() as int) =~= needle@);
                assert(contains_seq(hay@, needle@));
            }
            return true;
        }
        proof {
            let sub = hay@.subrange(i as int, i + needle@.len() as int);
            assert(sub[j as int] != needle@[j as int]);
        }
        i = i + 1;
    }
    false
}

/// The decimal rendering of `n` as characters, most significant digit first,
/// with no sign and no leading zeros (a single `0` for zero).
pub open spec fn dec_chars(n: nat) -> Seq<char>
    decreases n,
{
    if n < 10 {
        seq![((48 + n) as u8) as char]
    } else {
        dec_chars(n / 10) + seq![((48 + n % 10) as u8) as char]
    }
}

/// Appends one character to a string.
///
/// Relies on `String::push`, which appends the given character to the end of
/// the string.
#[verifier::external_body]
pub(crate) fn push_char(s: &mut String, c: char)
    ensures
        final(s)@ == old(s)@ + seq![c],
{
    s.push(c);
}

fn push_decimal(n: u16, out: &mut String)
    ensures
        final(out)@ == old(out)@ + dec_chars(n as nat),
    decreases n,
{
    if n >= 10 {
        push_decimal(n / 10, out);
    }
    let digit: u8 = 48 + (n % 10) as u8;
    push_char(out, digit as char);
}

/// The decimal rendering of `n`, most significant digit first.
pub fn decimal_string(n: u16) -> (r: String)
    ensures
        r@ == dec_chars(n as nat),
{
    let mut s = String::new();
    push_decimal(n, &mut s);
    s
}

/// Whether a byte sequence is well-formed UTF-8; the scanner tests this
/// before reading a chunk as text.
///
/// Relies on `str::from_utf8`, which returns `Ok` exactly when the bytes are
/// valid UTF-8.
#[verifier::external_body]
pub fn utf8_valid(v: &[u8]) -> (r: bool)
    ensures
        r == vstd::utf8::valid_utf8(v@),
{
    core::str::from_utf8(v).is_ok()
}

} // verus!
