//! Verified text utilities: decimal rendering of unsigned integers,
//! whitespace trimming, and parsing of decimal `u16` values.

use vstd::prelude::*;

verus! {

/// The decimal digit character for a value below ten.
pub open spec fn spec_digit(d: nat) -> char {
    if d == 0 {
        '0'
    } else if d == 1 {
        '1'
    } else if d == 2 {
        '2'
    } else if d == 3 {
        '3'
    } else if d == 4 {
        '4'
    } else if d == 5 {
        '5'
    } else if d == 6 {
        '6'
    } else if d == 7 {
        '7'
    } else if d == 8 {
        '8'
    } else {
        '9'
    }
}

/// The canonical decimal rendering of `n`: no sign, no leading zeros
/// (except for `n == 0`, rendered as `"0"`).
pub open spec fn spec_udec(n: nat) -> Seq<char>
    decreases n,
{
    if n < 10 {
        seq![spec_digit(n)]
    } else {
        spec_udec(n / 10).push(spec_digit(n % 10))
    }
}

fn digit_str(d: u64) -> (r: &'static str)
    requires
        d < 10,
    ensures
        r@ == seq![spec_digit(d as nat)],
{
    proof {
        reveal_strlit("0");
        reveal_strlit("1");
        reveal_strlit("2");
        reveal_strlit("3");
        reveal_strlit("4");
        reveal_strlit("5");
        reveal_strlit("6");
        reveal_strlit("7");
        reveal_strlit("8");
        reveal_strlit("9");
    }
    if d == 0 {
        "0"
    } else if d == 1 {
        "1"
    } else if d == 2 {
        "2"
    } else if d == 3 {
        "3"
    } else if d == 4 {
        "4"
    } else if d == 5 {
        "5"
    } else if d == 6 {
        "6"
    } else if d == 7 {
        "7"
    } else if d == 8 {
        "8"
    } else {
        "9"
    }
}

/// Renders `n` in decimal.
pub fn u64_to_string(n: u64) -> (r: String)
    ensures
        r@ == spec_udec(n as nat),
    decreases n,
{
    if n < 10 {
        String::from_str(digit_str(n))
    } else {
        let prefix = u64_to_string(n / 10);
        prefix.concat(digit_str(n % 10))
    }
}

/// Whether `c` is one of the whitespace characters that trimming
/// removes: the Unicode White_Space set, as `char::is_whitespace`
/// documents it.
pub open spec fn is_space(c: char) -> bool {
    c == '\t' || c == '\n' || c == '\u{b}' || c == '\u{c}' || c == '\r' || c == ' '
        || c == '\u{85}' || c == '\u{a0}' || c == '\u{1680}' || c == '\u{2000}' || c == '\u{2001}'
        || c == '\u{2002}' || c == '\u{2003}' || c == '\u{2004}' || c == '\u{2005}'
        || c == '\u{2006}' || c == '\u{2007}' || c == '\u{2008}' || c == '\u{2009}'
        || c == '\u{200a}' || c == '\u{2028}' || c == '\u{2029}' || c == '\u{202f}'
        || c == '\u{205f}' || c == '\u{3000}'
}

/// `s` with its leading whitespace removed.
pub open spec fn trim_start_rec(s: Seq<char>) -> Seq<char>
    decreases s.len(),
{
    if s.len() > 0 && is_space(s[0]) {
        trim_start_rec(s.drop_first())
    } else {
        s
    }
}

/// `s` with its trailing whitespace removed.
pub open spec fn trim_end_rec(s: Seq<char>) -> Seq<char>
    decreases s.len(),
{
    if s.len() > 0 && is_space(s.last()) {
        trim_end_rec(s.drop_last())
    } else {
        s
    }
}

/// `s` with both leading and trailing whitespace removed.
pub open spec fn spec_trim(s: Seq<char>) -> Seq<char> {
    trim_end_rec(trim_start_rec(s))
}

proof fn lemma_trim_start_first(s: Seq<char>)
    ensures
        trim_start_rec(s).len() > 0 ==> !is_space(trim_start_rec(s)[0]),
        trim_start_rec(s).len() <= s.len(),
    decreases s.len(),
{
    if s.len() > 0 && is_space(s[0]) {
        lemma_trim_start_first(s.drop_first());
    }
}

proof fn lemma_trim_end_shape(s: Seq<char>)
    ensures
        trim_end_rec(s).len() > 0 ==> !is_space(trim_end_rec(s).last()),
        trim_end_rec(s).len() > 0 ==> trim_end_rec(s)[0] == s[0],
        trim_end_rec(s).len() <= s.len(),
    decreases s.len(),
{
    if s.len() > 0 && is_space(s.last()) {
        lemma_trim_end_shape(s.drop_last());
    }
}

/// Law: a trimmed string never starts or ends with whitespace, whatever
/// the input held.
pub proof fn lemma_trim_no_edge_whitespace(s: Seq<char>)
    ensures
        spec_trim(s).len() > 0 ==> !is_space(spec_trim(s).first()),
        spec_trim(s).len() > 0 ==> !is_space(spec_trim(s).last()),
{
    lemma_trim_start_first(s);
    lemma_trim_end_shape(trim_start_rec(s));
}

/// Returns `s` with leading and trailing whitespace removed.
pub fn trim_str(s: &str) -> (r: String)
    ensures
        r@ == spec_trim(s@),
{
    let len = s.unicode_len();
    let mut start: usize = 0;
    proof {
        assert(s@.skip(0) =~= s@);
    }
    while start < len && is_space_char(s.get_char(start))
        invariant
            0 <= start <= len,
            len == s@.len(),
            trim_start_rec(s@) == trim_start_rec(s@.skip(start as int)),
        decreases len - start,
    {
        proof {
            assert(s@.skip(start as int)[0] == s@[start as int]);
            assert(s@.skip(start as int).drop_first() =~= s@.skip(start as int + 1));
        }
        start = start + 1;
    }
    proof {
        if start < len {
            assert(s@.skip(start as int)[0] == s@[start as int]);
        }
        assert(trim_start_rec(s@) =~= s@.subrange(start as int, len as int));
    }
    let mut end: usize = len;
    while end > start && is_space_char(s.get_char(end - 1))
        invariant
            start <= end <= len,
            len == s@.len(),
            trim_start_rec(s@) == s@.subrange(start as int, len as int),
            trim_end_rec(trim_start_rec(s@)) == trim_end_rec(
                s@.subrange(start as int, end as int),
            ),
        decreases end,
    {
        proof {
            let cur = s@.subrange(start as int, end as int);
            assert(cur.last() == s@[end - 1]);
            assert(cur.drop_last() =~= s@.subrange(start as int, end as int - 1));
        }
        end = end - 1;
    }
    proof {
        let cur = s@.subrange(start as int, end as int);
        if end > start {
            assert(cur.last() == s@[end - 1]);
        }
        assert(trim_end_rec(cur) == cur);
    }
    let t = s.substring_char(start, end);
    String::from_str(t)
}

/// Whether `c` is removed by trimming.
pub fn is_space_char(c: char) -> (r: bool)
    ensures
        r == is_space(c),
{
    c == '\t' || c == '\n' || c == '\u{b}' || c == '\u{c}' || c == '\r' || c == ' '
        || c == '\u{85}' || c == '\u{a0}' || c == '\u{1680}' || c == '\u{2000}' || c == '\u{2001}'
        || c == '\u{2002}' || c == '\u{2003}' || c == '\u{2004}' || c == '\u{2005}'
        || c == '\u{2006}' || c == '\u{2007}' || c == '\u{2008}' || c == '\u{2009}'
        || c == '\u{200a}' || c == '\u{2028}' || c == '\u{2029}' || c == '\u{202f}'
        || c == '\u{205f}' || c == '\u{3000}'
}

/// Compares two strings character by character.
pub fn str_eq(a: &str, b: &str) -> (r: bool)
    ensures
        r == (a@ == b@),
{
    let la = a.unicode_len();
    let lb = b.unicode_len();
    if la != lb {
        return false;
    }
    let mut i: usize = 0;
    while i < la
        invariant
            0 <= i <= la,
            la == a@.len(),
            la == b@.len(),
            forall|j: int| 0 <= j < i ==> a@[j] == b@[j],
        decreases la - i,
    {
        if a.get_char(i) != b.get_char(i) {
            proof {
                assert(a@[i as int] != b@[i as int]);
            }
            return false;
        }
        i = i + 1;
    }
    proof {
        assert(a@ =~= b@);
    }
    true
}

/// Whether `c` is a decimal digit.
pub open spec fn is_digit(c: char) -> bool {
    c == '0' || c == '1' || c == '2' || c == '3' || c == '4' || c == '5' || c == '6' || c == '7'
        || c == '8' || c == '9'
}

/// The numeric value of a decimal digit character.
pub open spec fn digit_val(c: char) -> nat {
    if c == '0' {
        0
    } else if c == '1' {
        1
    } else if c == '2' {
        2
    } else if c == '3' {
        3
    } else if c == '4' {
        4
    } else if c == '5' {
        5
    } else if c == '6' {
        6
    } else if c == '7' {
        7
    } else if c == '8' {
        8
    } else {
        9
    }
}

/// Whether every character of `s` is a decimal digit.
pub open spec fn all_digits(s: Seq<char>) -> bool {
    forall|i: int| 0 <= i < s.len() ==> is_digit(s[i])
}

/// The numeric value of a sequence of decimal digits (0 when empty).
pub open spec fn dec_val(s: Seq<char>) -> nat
    decreases s.len(),
{
    if s.len() == 0 {
        0
    } else {
        dec_val(s.drop_last()) * 10 + digit_val(s.last())
    }
}

/// Law: rendering an integer in decimal and reading the digits back
/// returns the integer; the rendering is never empty and holds digits
/// only. In particular the rendering is injective.
pub proof fn lemma_udec_round_trip(n: nat)
    ensures
        spec_udec(n).len() >= 1,
        all_digits(spec_udec(n)),
        dec_val(spec_udec(n)) == n,
    decreases n,
{
    if n < 10 {
        let s = spec_udec(n);
        assert(s =~= seq![spec_digit(n)]);
        assert(s.drop_last() =~= Seq::<char>::empty());
        assert(s.last() == spec_digit(n));
        assert(digit_val(spec_digit(n)) == n);
        assert(dec_val(s) == dec_val(s.drop_last()) * 10 + digit_val(s.last()));
    } else {
        lemma_udec_round_trip(n / 10);
        let s = spec_udec(n);
        let p = spec_udec(n / 10);
        assert(s == p.push(spec_digit(n % 10)));
        assert(s.drop_last() =~= p);
        assert(s.last() == spec_digit(n % 10));
        assert(digit_val(spec_digit(n % 10)) == n % 10);
        assert(dec_val(s) == dec_val(p) * 10 + (n % 10));
        assert(n == (n / 10) * 10 + n % 10);
        assert forall|i: int| 0 <= i < s.len() implies is_digit(s[i]) by {
            if i < s.len() - 1 {
                assert(s[i] == p[i]);
            }
        }
    }
}

/// Law: distinct integers render as distinct decimal strings.
pub proof fn lemma_udec_injective(a: nat, b: nat)
    requires
        spec_udec(a) == spec_udec(b),
    ensures
        a == b,
{
    lemma_udec_round_trip(a);
    lemma_udec_round_trip(b);
}

/// The digit portion of a decimal integer string: everything after an
/// optional leading plus sign.
pub open spec fn u16_digits(t: Seq<char>) -> Seq<char> {
    if t.len() > 0 && t[0] == '+' {
        t.drop_first()
    } else {
        t
    }
}

/// Whether `t` (already trimmed) is a decimal string a `u16` accepts:
/// an optional plus sign, then one or more digits, with a value of at
/// most `u16::MAX`.
pub open spec fn is_u16_string(t: Seq<char>) -> bool {
    let d = u16_digits(t);
    d.len() > 0 && all_digits(d) && dec_val(d) <= u16::MAX
}

fn char_digit(c: char) -> (r: Option<u32>)
    ensures
        r is Some <==> is_digit(c),
        r matches Some(d) ==> d == digit_val(c) && d <= 9,
{
    match c {
        '0' => Some(0),
        '1' => Some(1),
        '2' => Some(2),
        '3' => Some(3),
        '4' => Some(4),
        '5' => Some(5),
        '6' => Some(6),
        '7' => Some(7),
        '8' => Some(8),
        '9' => Some(9),
        _ => None,
    }
}

proof fn lemma_dec_val_prefix(d: Seq<char>, k: int)
    requires
        0 <= k <= d.len(),
    ensures
        dec_val(d.take(k)) <= dec_val(d),
    decreases d.len() - k,
{
    if k == d.len() {
        assert(d.take(k) =~= d);
    } else {
        lemma_dec_val_prefix(d, k + 1);
        assert(d.take(k + 1).drop_last() =~= d.take(k));
        assert(dec_val(d.take(k + 1)) == dec_val(d.take(k)) * 10 + digit_val(d.take(k + 1).last()));
    }
}

/// Parses a decimal `u16` from `s` after trimming whitespace: accepts an
/// optional leading plus sign followed by one or more digits whose value
/// fits in a `u16`, and nothing else.
pub fn parse_decimal_u16(s: &str) -> (r: Option<u16>)
    ensures
        r is Some <==> is_u16_string(spec_trim(s@)),
        r matches Some(v) ==> v == dec_val(u16_digits(spec_trim(s@))),
{
    let ts = trim_str(s);
    let t = ts.as_str();
    let len = t.unicode_len();
    let mut i: usize = 0;
    if len > 0 && t.get_char(0) == '+' {
        i = 1;
    }
    let ghost dstart = i as int;
    let ghost d_full = u16_digits(t@);
    proof {
        assert(d_full =~= t@.subrange(dstart, len as int));
    }
    if i == len {
        return None;
    }
    let mut acc: u32 = 0;
    while i < len
        invariant
            0 <= dstart <= i <= len,
            len == t@.len(),
            t@ == spec_trim(s@),
            dstart < len,
            d_full == u16_digits(t@),
            d_full == t@.subrange(dstart, len as int),
            acc <= 65535,
            acc == dec_val(t@.subrange(dstart, i as int)),
            all_digits(t@.subrange(dstart, i as int)),
        decreases len - i,
    {
        let c = t.get_char(i);
        let ghost pre = t@.subrange(dstart, i as int);
        let ghost cur = t@.subrange(dstart, i as int + 1);
        proof {
            assert(cur.drop_last() =~= pre);
            assert(cur.last() == t@[i as int]);
        }
        match char_digit(c) {
            None => {
                proof {
                    assert(d_full[i - dstart] == t@[i as int]);
                    assert(!all_digits(d_full));
                    assert(!is_u16_string(t@));
                }
                return None;
            },
            Some(d) => {
                let next = acc * 10 + d;
                if next > 65535 {
                    proof {
                        if all_digits(d_full) && dec_val(d_full) <= u16::MAX {
                            assert(d_full.take(i + 1 - dstart) =~= cur);
                            lemma_dec_val_prefix(d_full, i + 1 - dstart);
                            assert(dec_val(cur) == dec_val(pre) * 10 + digit_val(cur.last()));
                            assert(dec_val(cur) == next);
                            assert(false);
                        }
                        assert(!is_u16_string(t@));
                    }
                    return None;
                }
                acc = next;
            },
        }
        i = i + 1;
    }
    proof {
        assert(t@.subrange(dstart, len as int) =~= d_full);
    }
    Some(acc as u16)
}

} // verus!
