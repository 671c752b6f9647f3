//! Text helpers: Unicode white space, trimming, decimal rendering and UTF-16.

use vstd::prelude::*;

verus! {

/// The characters that carry the Unicode `White_Space` property.
pub open spec fn is_white_space(c: char) -> bool {
    let v = c as u32;
    ||| 0x9 <= v <= 0xD
    ||| v == 0x20
    ||| v == 0x85
    ||| v == 0xA0
    ||| v == 0x1680
    ||| 0x2000 <= v <= 0x200A
    ||| v == 0x2028
    ||| v == 0x2029
    ||| v == 0x202F
    ||| v == 0x205F
    ||| v == 0x3000
}

/// `s` without its leading white space.
pub open spec fn trim_start(s: Seq<char>) -> Seq<char>
    decreases s.len(),
{
    if s.len() > 0 && is_white_space(s[0]) {
        trim_start(s.drop_first())
    } else {
        s
    }
}

/// `s` without its trailing white space.
pub open spec fn trim_end(s: Seq<char>) -> Seq<char>
    decreases s.len(),
{
    if s.len() > 0 && is_white_space(s.last()) {
        trim_end(s.drop_last())
    } else {
        s
    }
}

/// `s` without leading and trailing white space.
pub open spec fn trim(s: Seq<char>) -> Seq<char> {
    trim_end(trim_start(s))
}

/// Neither the first nor the last character of `s` is white space.
pub open spec fn is_trimmed(s: Seq<char>) -> bool {
    s.len() > 0 ==> !is_white_space(s[0]) && !is_white_space(s.last())
}

/// Tells whether `c` has the Unicode `White_Space` property.
pub fn white_space(c: char) -> (b: bool)
    ensures
        b == is_white_space(c),
{
    let v = c as u32;
    (0x9 <= v && v <= 0xD) || v == 0x20 || v == 0x85 || v == 0xA0 || v == 0x1680 || (0x2000
        <= v && v <= 0x200A) || v == 0x2028 || v == 0x2029 || v == 0x202F || v == 0x205F || v
        == 0x3000
}

proof fn lemma_trim_start_skips(s: Seq<char>, i: int)
    requires
        0 <= i <= s.len(),
        forall|k: int| 0 <= k < i ==> is_white_space(#[trigger] s[k]),
    ensures
        trim_start(s) == trim_start(s.subrange(i, s.len() as int)),
    decreases i,
{
    if i > 0 {
        let t = s.drop_first();
        assert forall|k: int| 0 <= k < i - 1 implies is_white_space(#[trigger] t[k]) by {
            assert(t[k] == s[k + 1]);
        }
        lemma_trim_start_skips(t, i - 1);
        assert(t.subrange(i - 1, t.len() as int) =~= s.subrange(i, s.len() as int));
    } else {
        assert(s.subrange(0, s.len() as int) =~= s);
    }
}

proof fn lemma_trim_end_skips(s: Seq<char>, j: int)
    requires
        0 <= j <= s.len(),
        forall|k: int| j <= k < s.len() ==> is_white_space(#[trigger] s[k]),
    ensures
        trim_end(s) == trim_end(s.subrange(0, j)),
    decreases s.len() - j,
{
    if j < s.len() {
        let t = s.drop_last();
        assert forall|k: int| j <= k < t.len() implies is_white_space(#[trigger] t[k]) by {
            assert(t[k] == s[k]);
        }
        lemma_trim_end_skips(t, j);
        assert(t.subrange(0, j) =~= s.subrange(0, j));
    } else {
        assert(s.subrange(0, j) =~= s);
    }
}

/// Characterises `trim` by the bounds of its result.
pub proof fn lemma_trim_bounds(s: Seq<char>, i: int, j: int)
    requires
        0 <= i <= j <= s.len(),
        forall|k: int| 0 <= k < i ==> is_white_space(#[trigger] s[k]),
        forall|k: int| j <= k < s.len() ==> is_white_space(#[trigger] s[k]),
        i < j ==> !is_white_space(s[i]) && !is_white_space(s[j - 1]),
    ensures
        trim(s) == s.subrange(i, j),
{
    if i == j {
        assert(forall|k: int| 0 <= k < s.len() ==> is_white_space(#[trigger] s[k]));
        lemma_trim_start_skips(s, s.len() as int);
        assert(s.subrange(s.len() as int, s.len() as int) =~= Seq::<char>::empty());
        assert(s.subrange(i, j) =~= Seq::<char>::empty());
    } else {
        lemma_trim_start_skips(s, i);
        let u = s.subrange(i, s.len() as int);
        assert(u[0] == s[i]);
        assert(trim_start(u) == u);
        assert forall|k: int| j - i <= k < u.len() implies is_white_space(#[trigger] u[k]) by {
            assert(u[k] == s[k + i]);
        }
        lemma_trim_end_skips(u, j - i);
        let w = u.subrange(0, j - i);
        assert(w =~= s.subrange(i, j));
        assert(w.last() == s[j - 1]);
        assert(trim_end(w) == w);
    }
}

/// The result of `trim` has no white space at either end, so trimming
/// twice is trimming once.
pub proof fn lemma_trim_is_trimmed(s: Seq<char>)
    ensures
        is_trimmed(trim(s)),
        trim(trim(s)) == trim(s),
{
    lemma_trim_start_shape(s);
    lemma_trim_end_shape(trim_start(s));
    lemma_trim_end_prefix(trim_start(s));
    lemma_trimmed_fixed(trim(s));
}

proof fn lemma_trim_start_shape(s: Seq<char>)
    ensures
        trim_start(s).len() > 0 ==> !is_white_space(trim_start(s)[0]),
    decreases s.len(),
{
    if s.len() > 0 && is_white_space(s[0]) {
        lemma_trim_start_shape(s.drop_first());
    }
}

proof fn lemma_trim_end_shape(s: Seq<char>)
    ensures
        trim_end(s).len() > 0 ==> !is_white_space(trim_end(s).last()),
    decreases s.len(),
{
    if s.len() > 0 && is_white_space(s.last()) {
        lemma_trim_end_shape(s.drop_last());
    }
}

proof fn lemma_trim_end_prefix(s: Seq<char>)
    ensures
        trim_end(s).len() <= s.len(),
        forall|k: int| 0 <= k < trim_end(s).len() ==> #[trigger] trim_end(s)[k] == s[k],
    decreases s.len(),
{
    if s.len() > 0 && is_white_space(s.last()) {
        lemma_trim_end_prefix(s.drop_last());
    }
}

/// A sequence without white space at its ends is its own trim.
pub proof fn lemma_trimmed_fixed(s: Seq<char>)
    requires
        is_trimmed(s),
    ensures
        trim(s) == s,
{
    assert(trim_start(s) == s);
    assert(trim_end(s) == s);
}

/// Returns `s` without leading and trailing white space.
pub fn trim_str(s: &str) -> (r: String)
    ensures
        r@ == trim(s@),
{
    let n = s.unicode_len();
    let mut i: usize = 0;
    while i < n && white_space(s.get_char(i))
        invariant
            n == s@.len(),
            0 <= i <= n,
            forall|k: int| 0 <= k < i ==> is_white_space(#[trigger] s@[k]),
        decreases n - i,
    {
        i = i + 1;
    }
    let mut j: usize = n;
    while j > i && white_space(s.get_char(j - 1))
        invariant
            n == s@.len(),
            0 <= i <= j <= n,
            forall|k: int| j <= k < n ==> is_white_space(#[trigger] s@[k]),
            i < n ==> !is_white_space(s@[i as int]),
        decreases j - i,
    {
        j = j - 1;
    }
    proof {
        lemma_trim_bounds(s@, i as int, j as int);
    }
    s.substring_char(i, j).to_owned()
}


/// The decimal digit character for `d < 10`.
pub open spec fn digit_char(d: nat) -> char {
    (48 + d) as char
}

/// The decimal rendering of `n`, most significant digit first, without
/// leading zeros.
pub open spec fn decimal(n: nat) -> Seq<char>
    decreases n,
{
    if n < 10 {
        seq![digit_char(n)]
    } else {
        decimal(n / 10).push(digit_char(n % 10))
    }
}

fn digit_str(d: u64) -> (r: &'static str)
    requires
        d < 10,
    ensures
        r@ == seq![digit_char(d as nat)],
{
    if d == 0 {
        proof { reveal_strlit("0"); }
        "0"
    } else if d == 1 {
        proof { reveal_strlit("1"); }
        "1"
    } else if d == 2 {
        proof { reveal_strlit("2"); }
        "2"
    } else if d == 3 {
        proof { reveal_strlit("3"); }
        "3"
    } else if d == 4 {
        proof { reveal_strlit("4"); }
        "4"
    } else if d == 5 {
        proof { reveal_strlit("5"); }
        "5"
    } else if d == 6 {
        proof { reveal_strlit("6"); }
        "6"
    } else if d == 7 {
        proof { reveal_strlit("7"); }
        "7"
    } else if d == 8 {
        proof { reveal_strlit("8"); }
        "8"
    } else {
        proof { reveal_strlit("9"); }
        "9"
    }
}

/// Renders `n` in decimal, as `Display` does for unsigned integers.
pub fn decimal_string(n: u64) -> (r: String)
    ensures
        r@ == decimal(n as nat),
    decreases n,
{
    if n < 10 {
        digit_str(n).to_owned()
    } else {
        let mut r = decimal_string(n / 10);
        r.append(digit_str(n % 10));
        r
    }
}

/// The number that a sequence of decimal digits denotes.
pub open spec fn digits_value(s: Seq<char>) -> int
    decreases s.len(),
{
    if s.len() == 0 {
        0
    } else {
        digits_value(s.drop_last()) * 10 + (s.last() as u32 - 48)
    }
}

/// The decimal rendering of `n` consists of digits, starts with a zero only
/// when it is the single digit of zero, and denotes `n`.
pub proof fn law_decimal_denotes_value(n: nat)
    ensures
        decimal(n).len() > 0,
        forall|k: int| 0 <= k < decimal(n).len() ==> '0' <= #[trigger] decimal(n)[k] <= '9',
        decimal(n)[0] == '0' ==> n == 0,
        digits_value(decimal(n)) == n,
    decreases n,
{
    if n >= 10 {
        law_decimal_denotes_value(n / 10);
        let d = decimal(n);
        assert(d.drop_last() =~= decimal(n / 10));
        assert(d[0] == decimal(n / 10)[0]);
        assert(n == (n / 10) * 10 + n % 10);
        assert(d.last() == digit_char(n % 10));
        assert(digit_char(n % 10) as u32 == 48 + n % 10);
        assert(digits_value(d) == digits_value(d.drop_last()) * 10 + (d.last() as u32 - 48));
        assert forall|k: int| 0 <= k < d.len() implies '0' <= #[trigger] d[k] <= '9' by {
            if k < d.len() - 1 {
                assert(d[k] == decimal(n / 10)[k]);
            }
        }
    } else {
        let d = decimal(n);
        assert(d.drop_last() =~= Seq::<char>::empty());
        assert(digit_char(n) as u32 == 48 + n);
        assert(digits_value(d) == digits_value(d.drop_last()) * 10 + (d.last() as u32 - 48));
    }
}

/// The UTF-16 code units of one character: one unit in the basic
/// multilingual plane, a surrogate pair above it.
pub open spec fn utf16_units(c: char) -> Seq<u16> {
    let v = c as u32;
    if v < 0x10000 {
        seq![v as u16]
    } else {
        seq![(0xD800 + (v - 0x10000) / 0x400) as u16, (0xDC00 + (v - 0x10000) % 0x400) as u16]
    }
}

/// The UTF-16 encoding of a character sequence.
pub open spec fn encode_utf16(s: Seq<char>) -> Seq<u16>
    decreases s.len(),
{
    if s.len() == 0 {
        Seq::empty()
    } else {
        encode_utf16(s.drop_last()) + utf16_units(s.last())
    }
}

/// The UTF-16 encoding of a text is the encodings of its parts, one after
/// the other, and a single character encodes to its own code units.
pub proof fn law_encode_utf16_concat(s: Seq<char>, t: Seq<char>)
    ensures
        encode_utf16(s + t) == encode_utf16(s) + encode_utf16(t),
    decreases t.len(),
{
    if t.len() == 0 {
        assert(s + t =~= s);
        assert(encode_utf16(s) + encode_utf16(t) =~= encode_utf16(s));
    } else {
        let u = t.drop_last();
        law_encode_utf16_concat(s, u);
        assert((s + t).drop_last() =~= s + u);
        assert((s + t).last() == t.last());
        assert(encode_utf16(s + t) == encode_utf16(s + u) + utf16_units(t.last()));
        assert(encode_utf16(s) + encode_utf16(u) + utf16_units(t.last()) =~= encode_utf16(s) + (
        encode_utf16(u) + utf16_units(t.last())));
    }
}

/// A single character encodes to its own code units.
pub proof fn law_encode_utf16_single(c: char)
    ensures
        encode_utf16(seq![c]) == utf16_units(c),
{
    let one = seq![c];
    assert(one.drop_last() =~= Seq::<char>::empty());
    assert(encode_utf16(Seq::<char>::empty()) == Seq::<u16>::empty());
    assert(one.len() == 1 && one.last() == c);
    assert(encode_utf16(one) == encode_utf16(one.drop_last()) + utf16_units(one.last()));
    assert(Seq::<u16>::empty() + utf16_units(c) =~= utf16_units(c));
}

/// The number of UTF-16 code units of a text: one for each character of the
/// basic multilingual plane, two for each character above it.
pub open spec fn utf16_len(s: Seq<char>) -> nat
    decreases s.len(),
{
    if s.len() == 0 {
        0
    } else {
        utf16_len(s.drop_first()) + if (s[0] as u32) < 0x10000 {
            1nat
        } else {
            2nat
        }
    }
}

/// The UTF-16 encoding of a text has one code unit per character of the
/// basic multilingual plane and two per character above it, and starts with
/// the code units of its first character.
pub proof fn law_encode_utf16_len(s: Seq<char>)
    ensures
        encode_utf16(s).len() == utf16_len(s),
        s.len() > 0 ==> encode_utf16(s) == utf16_units(s[0]) + encode_utf16(s.drop_first()),
    decreases s.len(),
{
    if s.len() > 0 {
        let rest = s.drop_first();
        law_encode_utf16_concat(seq![s[0]], rest);
        law_encode_utf16_single(s[0]);
        assert(seq![s[0]] + rest =~= s);
        law_encode_utf16_len(rest);
    }
}

/// No ASCII letter, digit or `+` is white space: the white-space
/// characters are control, space and separator code points only.
pub proof fn law_white_space_excludes_key_names(c: char)
    ensures
        ('0' <= c <= '9' || 'A' <= c <= 'Z' || 'a' <= c <= 'z' || c == '+') ==> !is_white_space(c),
        is_white_space(c) ==> (c as u32) <= 0x20 || (0x85 <= (c as u32) <= 0xA0) || (0x1680
            <= (c as u32) <= 0x3000),
        is_white_space(c) ==> (c as u32) != 0x5A && (c as u32) != 0x7A,
{
}

/// Encodes one character in UTF-16.
pub fn char_to_utf16(c: char) -> (units: Vec<u16>)
    ensures
        units@ == utf16_units(c),
{
    let v = c as u32;
    let mut units: Vec<u16> = Vec::new();
    if v < 0x10000 {
        units.push(v as u16);
    } else {
        let w = v - 0x10000;
        assert(w / 0x400 < 0x400) by {
            assert(v <= 0x10FFFF);
        }
        units.push((0xD800 + w / 0x400) as u16);
        units.push((0xDC00 + w % 0x400) as u16);
    }
    units
}


/// Decoding the UTF-16 code units of a character gives the character back:
/// a single unit is the code point itself (never a surrogate), a pair is a
/// high surrogate and a low surrogate that combine to the code point.
pub proof fn law_utf16_units_decode(c: char)
    ensures
        utf16_units(c).len() == 1 || utf16_units(c).len() == 2,
        utf16_units(c).len() == 1 ==> utf16_units(c)[0] == c as u32 && !(0xD800
            <= utf16_units(c)[0] <= 0xDFFF),
        utf16_units(c).len() == 2 ==> 0xD800 <= utf16_units(c)[0] <= 0xDBFF && 0xDC00
            <= utf16_units(c)[1] <= 0xDFFF && 0x10000 + (utf16_units(c)[0] - 0xD800) * 0x400 + (
        utf16_units(c)[1] - 0xDC00) == c as u32,
{
    let v = c as u32;
    assert(v <= 0xD7FF || 0xE000 <= v <= 0x10FFFF);
    if v >= 0x10000 {
        let w = v - 0x10000;
        assert(w / 0x400 < 0x400);
        assert(w == (w / 0x400) * 0x400 + w % 0x400);
    }
}

} // verus!
