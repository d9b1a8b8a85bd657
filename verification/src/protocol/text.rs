//! Text helpers: decimal numbers as characters, parsing of unsigned decimal numbers,
//! and byte offsets of characters in UTF-8.
use vstd::prelude::*;

verus! {

/// Appends one character to a string (`String::push`).
#[verifier::external_body]
pub(crate) fn push_char(s: &mut String, c: char)
    ensures
        final(s)@ == old(s)@.push(c),
{
    s.push(c)
}

/// Whether `v` is a Unicode scalar value, i.e. a value a `char` can hold.
pub open spec fn is_scalar_value(v: u32) -> bool {
    v <= 0x10FFFF && !(0xD800 <= v <= 0xDFFF)
}

/// The character with the given scalar value (`char::from_u32`): `Some` exactly for
/// Unicode scalar values.
#[verifier::external_body]
pub(crate) fn char_from_u32(v: u32) -> (r: Option<char>)
    ensures
        is_scalar_value(v) ==> r == Some(v as char),
        !is_scalar_value(v) ==> r is None,
{
    char::from_u32(v)
}

/// The scalar value of a character.
pub fn char_value(c: char) -> (v: u32)
    ensures
        v as int == c as int,
{
    c as u32
}

/// Builds a string from a sequence of characters.
pub fn string_from_chars(chars: &Vec<char>) -> (r: String)
    ensures
        r@ == chars@,
{
    let mut r = String::new();
    let mut i: usize = 0;
    while i < chars.len()
        invariant
            i <= chars.len(),
            r@ == chars@.take(i as int),
        decreases chars.len() - i,
    {
        push_char(&mut r, chars[i]);
        assert(chars@.take(i + 1) =~= chars@.take(i as int).push(chars@[i as int]));
        i = i + 1;
    }
    assert(chars@.take(chars.len() as int) =~= chars@);
    r
}

/// The characters of a string.
pub fn chars_of(s: &str) -> (r: Vec<char>)
    ensures
        r@ == s@,
{
    let n = s.unicode_len();
    let mut r: Vec<char> = Vec::new();
    let mut i: usize = 0;
    while i < n
        invariant
            n == s@.len(),
            i <= n,
            r@ == s@.take(i as int),
        decreases n - i,
    {
        r.push(s.get_char(i));
        assert(s@.take(i + 1) =~= s@.take(i as int).push(s@[i as int]));
        i = i + 1;
    }
    assert(s@.take(n as int) =~= s@);
    r
}

/// The character of a decimal digit.
pub open spec fn digit_char(d: nat) -> char {
    (d + 48) as char
}

/// Whether `c` is one of the ASCII digits `0` to `9`.
pub open spec fn is_digit(c: char) -> bool {
    '0' <= c <= '9'
}

/// The decimal representation of `n`, without leading zeros.
pub open spec fn decimal(n: nat) -> Seq<char>
    decreases n,
{
    if n < 10 {
        seq![digit_char(n)]
    } else {
        decimal(n / 10).push(digit_char(n % 10))
    }
}

/// The decimal representation of `n`, padded with leading zeros to at least `width`
/// characters (as `format!("{:0width$}", n)`).
pub open spec fn zero_padded(n: nat, width: nat) -> Seq<char> {
    let d = decimal(n);
    if d.len() >= width {
        d
    } else {
        Seq::new((width - d.len()) as nat, |i: int| '0') + d
    }
}

/// The value of a sequence of decimal digits.
pub open spec fn digits_value(s: Seq<char>) -> nat
    decreases s.len(),
{
    if s.len() == 0 {
        0
    } else {
        digits_value(s.drop_last()) * 10 + ((s.last() as int - 48) as nat)
    }
}

/// Whether every character of `s` is a decimal digit.
pub open spec fn all_digits(s: Seq<char>) -> bool {
    forall|i: int| 0 <= i < s.len() ==> is_digit(#[trigger] s[i])
}

/// The digits that an unsigned number parsed from `s` is made of: a single leading `+`
/// is dropped when more characters follow.
pub open spec fn unsigned_digits(s: Seq<char>) -> Seq<char> {
    if s.len() > 1 && s[0] == '+' {
        s.skip(1)
    } else {
        s
    }
}

/// The value that `str::parse` gives for an unsigned integer type whose largest value
/// is `max`: `None` for an empty text, a character that is not a digit, or a value
/// above `max`.
pub open spec fn parse_unsigned(s: Seq<char>, max: nat) -> Option<nat> {
    let d = unsigned_digits(s);
    if s.len() == 0 || !all_digits(d) || digits_value(d) > max {
        None
    } else {
        Some(digits_value(d))
    }
}

proof fn lemma_decimal_digits(n: nat)
    ensures
        all_digits(decimal(n)),
        1 <= decimal(n).len(),
        digits_value(decimal(n)) == n,
        n < 10 ==> decimal(n).len() == 1,
        10 <= n < 100 ==> decimal(n).len() == 2,
        100 <= n < 1000 ==> decimal(n).len() == 3,
        1000 <= n < 10000 ==> decimal(n).len() == 4,
    decreases n,
{
    let d = decimal(n);
    if n < 10 {
        assert(d.drop_last() =~= Seq::<char>::empty());
        assert(digit_char(n) as int == n + 48);
        assert(d.last() == digit_char(n));
        assert(digits_value(d) == digits_value(d.drop_last()) * 10 + ((d.last() as int - 48) as nat));
    } else {
        lemma_decimal_digits(n / 10);
        assert(d.drop_last() =~= decimal(n / 10));
        assert(digit_char(n % 10) as int == n % 10 + 48);
        assert(d.last() == digit_char(n % 10));
        assert(digits_value(d) == digits_value(d.drop_last()) * 10 + ((d.last() as int - 48) as nat));
        assert(digits_value(d) == (n / 10) * 10 + n % 10);
        assert forall|i: int| 0 <= i < d.len() implies is_digit(#[trigger] d[i]) by {
            if i < d.len() - 1 {
                assert(d[i] == decimal(n / 10)[i]);
            }
        }
    }
}

proof fn lemma_digits_value_zeros(z: nat, d: Seq<char>)
    ensures
        digits_value(Seq::new(z, |i: int| '0') + d) == digits_value(d) + 0 * z,
        all_digits(d) ==> all_digits(Seq::new(z, |i: int| '0') + d),
    decreases z + d.len(),
{
    let s = Seq::new(z, |i: int| '0') + d;
    if d.len() > 0 {
        assert(s.drop_last() =~= Seq::new(z, |i: int| '0') + d.drop_last());
        lemma_digits_value_zeros(z, d.drop_last());
    } else if z > 0 {
        assert(s.drop_last() =~= Seq::new((z - 1) as nat, |i: int| '0') + d);
        lemma_digits_value_zeros((z - 1) as nat, d);
    }
    assert(all_digits(d) ==> all_digits(s)) by {
        if all_digits(d) {
            assert forall|i: int| 0 <= i < s.len() implies is_digit(#[trigger] s[i]) by {
                if i >= z {
                    assert(s[i] == d[i - z]);
                }
            }
        }
    }
}

/// Parsing the zero-padded decimal representation of `n` gives `n` back.
pub proof fn lemma_zero_padded_parse(n: nat, width: nat, max: nat)
    requires
        n <= max,
    ensures
        parse_unsigned(zero_padded(n, width), max) == Some(n),
        all_digits(zero_padded(n, width)),
        n < 10 && width == 2 ==> zero_padded(n, width).len() == 2,
        n < 100 && width == 2 ==> zero_padded(n, width).len() == 2,
        n < 10000 && width == 4 ==> zero_padded(n, width).len() == 4,
{
    lemma_decimal_digits(n);
    let d = decimal(n);
    if d.len() < width {
        lemma_digits_value_zeros((width - d.len()) as nat, d);
    }
    let p = zero_padded(n, width);
    assert(!(p.len() > 1 && p[0] == '+')) by {
        assert(is_digit(p[0]));
    }
    assert(unsigned_digits(p) == p);
}

/// The decimal digit of `d < 10`.
fn digit(d: u32) -> (c: char)
    requires
        d < 10,
    ensures
        c == digit_char(d as nat),
{
    let c = char_from_u32(d + 48);
    match c {
        Some(c) => c,
        None => '0',
    }
}

/// Appends the decimal representation of `n`.
fn push_decimal(s: &mut String, n: u32)
    ensures
        final(s)@ == old(s)@ + decimal(n as nat),
    decreases n,
{
    if n < 10 {
        push_char(s, digit(n));
        assert(old(s)@ + decimal(n as nat) =~= old(s)@.push(digit_char(n as nat)));
    } else {
        push_decimal(s, n / 10);
        let ghost mid = s@;
        push_char(s, digit(n % 10));
        assert(old(s)@ + decimal(n as nat) =~= mid.push(digit_char((n % 10) as nat)));
    }
}

/// The decimal text of a number.
pub fn decimal_string(n: u32) -> (r: String)
    ensures
        r@ == decimal(n as nat),
{
    let mut s = String::new();
    push_decimal(&mut s, n);
    s
}

/// The number of characters of the decimal representation of `n`.
fn decimal_len(n: u32) -> (r: u64)
    ensures
        r == decimal(n as nat).len(),
        r <= n as u64 + 1,
    decreases n,
{
    if n < 10 {
        1
    } else {
        decimal_len(n / 10) + 1
    }
}

/// Appends the decimal representation of `n`, padded with leading zeros to at least
/// `width` characters.
pub fn push_zero_padded(s: &mut String, n: u32, width: usize)
    ensures
        final(s)@ == old(s)@ + zero_padded(n as nat, width as nat),
{
    let len = decimal_len(n);
    let ghost start = s@;
    if len < width as u64 {
        let len = len as usize;
        let mut k: usize = 0;
        while k < width - len
            invariant
                len < width,
                k <= width - len,
                s@ == start + Seq::new(k as nat, |i: int| '0'),
            decreases width - len - k,
        {
            push_char(s, '0');
            assert(start + Seq::new((k + 1) as nat, |i: int| '0') =~= (start + Seq::new(
                k as nat,
                |i: int| '0',
            )).push('0'));
            k = k + 1;
        }
    }
    push_decimal(s, n);
    assert(s@ =~= old(s)@ + zero_padded(n as nat, width as nat));
}

proof fn lemma_digits_value_prefix(t: Seq<char>, k: int)
    requires
        all_digits(t),
        0 <= k <= t.len(),
    ensures
        digits_value(t.take(k)) <= digits_value(t),
    decreases t.len(),
{
    if k < t.len() {
        let u = t.drop_last();
        assert(all_digits(u)) by {
            assert forall|i: int| 0 <= i < u.len() implies is_digit(#[trigger] u[i]) by {
                assert(u[i] == t[i]);
            }
        }
        lemma_digits_value_prefix(u, k);
        assert(u.take(k) =~= t.take(k));
    } else {
        assert(t.take(k) =~= t);
    }
}

/// Parses `s[lo..hi]` as an unsigned decimal number of a type whose largest value is
/// `max` (as `str::parse` does).
pub fn parse_unsigned_chars(s: &Vec<char>, lo: usize, hi: usize, max: u32) -> (r: Option<u32>)
    requires
        lo <= hi <= s.len(),
    ensures
        r matches Some(v) ==> parse_unsigned(s@.subrange(lo as int, hi as int), max as nat) == Some(
            v as nat,
        ),
        r is None ==> parse_unsigned(s@.subrange(lo as int, hi as int), max as nat) is None,
{
    let ghost t = s@.subrange(lo as int, hi as int);
    if lo == hi {
        return None;
    }
    let mut start = lo;
    if hi - lo > 1 && s[lo] == '+' {
        start = lo + 1;
        assert(unsigned_digits(t) =~= s@.subrange(start as int, hi as int));
    } else {
        assert(unsigned_digits(t) =~= s@.subrange(start as int, hi as int));
    }
    let ghost d = s@.subrange(start as int, hi as int);
    let mut v: u64 = 0;
    let mut i = start;
    assert(d.take(0) =~= Seq::<char>::empty());
    while i < hi
        invariant
            lo <= start <= i <= hi <= s.len(),
            d == s@.subrange(start as int, hi as int),
            unsigned_digits(t) == d,
            t == s@.subrange(lo as int, hi as int),
            t.len() > 0,
            all_digits(d.take(i - start)),
            v == digits_value(d.take(i - start)),
            v <= max,
        decreases hi - i,
    {
        let c = s[i];
        assert(c == d[i - start]);
        if !('0' <= c && c <= '9') {
            return None;
        }
        let dv = (c as u32 - 48) as u64;
        let ghost p = d.take(i - start + 1);
        assert(p.drop_last() =~= d.take(i - start));
        assert(p.last() == c);
        v = v * 10 + dv;
        assert(all_digits(p)) by {
            assert forall|j: int| 0 <= j < p.len() implies is_digit(#[trigger] p[j]) by {
                if j < p.len() - 1 {
                    assert(p[j] == d.take(i - start)[j]);
                }
            }
        }
        if v > max as u64 {
            proof {
                if all_digits(d) {
                    lemma_digits_value_prefix(d, i - start + 1);
                }
            }
            return None;
        }
        i = i + 1;
    }
    assert(d.take(i - start) =~= d);
    Some(v as u32)
}

/// The number of bytes of the UTF-8 encoding of `c`.
pub open spec fn utf8_width(c: char) -> nat {
    if (c as int) < 0x80 {
        1
    } else if (c as int) < 0x800 {
        2
    } else if (c as int) < 0x10000 {
        3
    } else {
        4
    }
}

/// The byte offset of the `k`-th character of `s` in its UTF-8 encoding.
pub open spec fn utf8_offset(s: Seq<char>, k: int) -> nat
    decreases k,
{
    if k <= 0 {
        0
    } else {
        utf8_offset(s, k - 1) + utf8_width(s[k - 1])
    }
}

/// Whether byte offset `b` falls on a character boundary of the UTF-8 encoding of `s`
/// (the end of the text included).
pub open spec fn is_char_boundary(s: Seq<char>, b: nat) -> bool {
    exists|k: int| 0 <= k <= s.len() && utf8_offset(s, k) == b
}

/// The index of the character that starts at byte offset `b`.
pub open spec fn char_index_at(s: Seq<char>, b: nat) -> int {
    choose|k: int| 0 <= k <= s.len() && utf8_offset(s, k) == b
}

/// The characters of the byte range `a..b` of the UTF-8 encoding of `s` (as `&s[a..b]`).
pub open spec fn byte_slice(s: Seq<char>, a: nat, b: nat) -> Seq<char> {
    s.subrange(char_index_at(s, a), char_index_at(s, b))
}

proof fn lemma_utf8_offset_increasing(s: Seq<char>, j: int, k: int)
    requires
        0 <= j < k,
    ensures
        utf8_offset(s, j) < utf8_offset(s, k),
    decreases k,
{
    if j < k - 1 {
        lemma_utf8_offset_increasing(s, j, k - 1);
    }
}

/// Finds the character that starts at byte offset `b` of the UTF-8 encoding of `s`.
pub fn char_index_at_byte(s: &Vec<char>, b: usize) -> (r: Option<usize>)
    ensures
        r matches Some(k) ==> is_char_boundary(s@, b as nat) && k == char_index_at(s@, b as nat)
            && k <= s.len(),
        r is None ==> !is_char_boundary(s@, b as nat),
{
    let mut k: usize = 0;
    let mut off: u128 = 0;
    while k < s.len() && off < b as u128
        invariant
            k <= s.len(),
            off == utf8_offset(s@, k as int),
            forall|j: int| 0 <= j < k ==> utf8_offset(s@, j) < b,
        decreases s.len() - k,
    {
        let c = s[k];
        let v = char_value(c);
        let w: u128 = if v < 0x80 {
            1
        } else if v < 0x800 {
            2
        } else if v < 0x10000 {
            3
        } else {
            4
        };
        off = off + w;
        k = k + 1;
    }
    if off == b as u128 {
        proof {
            assert forall|j: int| 0 <= j <= s@.len() && utf8_offset(s@, j) == b implies j == k by {
                if j < k {
                    lemma_utf8_offset_increasing(s@, j, k as int);
                } else if j > k {
                    lemma_utf8_offset_increasing(s@, k as int, j);
                }
            }
        }
        Some(k)
    } else {
        proof {
            assert forall|j: int| 0 <= j <= s@.len() implies utf8_offset(s@, j) != b by {
                if j > k {
                    lemma_utf8_offset_increasing(s@, k as int, j);
                }
            }
        }
        None
    }
}

/// Ten to the power of `n`.
pub open spec fn pow10(n: nat) -> nat
    decreases n,
{
    if n == 0 {
        1
    } else {
        10 * pow10((n - 1) as nat)
    }
}

/// A sequence of `n` decimal digits has a value below ten to the power of `n`.
pub proof fn lemma_digits_value_bound(d: Seq<char>)
    requires
        all_digits(d),
    ensures
        digits_value(d) < pow10(d.len()),
    decreases d.len(),
{
    if d.len() > 0 {
        let u = d.drop_last();
        assert(all_digits(u)) by {
            assert forall|i: int| 0 <= i < u.len() implies is_digit(#[trigger] u[i]) by {
                assert(u[i] == d[i]);
            }
        }
        lemma_digits_value_bound(u);
        assert(is_digit(d[d.len() - 1]));
    }
}

/// A parsed number whose text has at most four characters is at most 9999.
pub proof fn lemma_parse_unsigned_small(t: Seq<char>, max: nat)
    requires
        parse_unsigned(t, max) is Some,
        t.len() <= 4,
    ensures
        parse_unsigned(t, max).unwrap() <= 9999,
{
    let d = unsigned_digits(t);
    lemma_digits_value_bound(d);
    reveal_with_fuel(pow10, 5);
    assert(d.len() <= 4);
    if d.len() == 4 {
    } else if d.len() == 3 {
    } else if d.len() == 2 {
    } else if d.len() == 1 {
    } else {
    }
}

/// Characters take at least one byte each in UTF-8.
pub proof fn lemma_utf8_offset_grows(s: Seq<char>, i: int, j: int)
    requires
        0 <= i <= j,
    ensures
        utf8_offset(s, j) >= utf8_offset(s, i) + (j - i),
    decreases j - i,
{
    if i < j {
        lemma_utf8_offset_grows(s, i, j - 1);
    }
}

/// In a text of ASCII characters every character takes one byte, so byte ranges and
/// character ranges agree.
pub proof fn lemma_ascii_byte_slice(s: Seq<char>, a: nat, b: nat)
    requires
        forall|i: int| 0 <= i < s.len() ==> (#[trigger] s[i] as int) < 0x80,
        a <= b <= s.len(),
    ensures
        is_char_boundary(s, a),
        is_char_boundary(s, b),
        char_index_at(s, a) == a,
        char_index_at(s, b) == b,
        byte_slice(s, a, b) == s.subrange(a as int, b as int),
{
    assert forall|k: int| 0 <= k <= s.len() implies utf8_offset(s, k) == k by {
        lemma_ascii_offset(s, k);
    }
    assert(utf8_offset(s, a as int) == a);
    assert(utf8_offset(s, b as int) == b);
}

proof fn lemma_ascii_offset(s: Seq<char>, k: int)
    requires
        forall|i: int| 0 <= i < s.len() ==> (#[trigger] s[i] as int) < 0x80,
        0 <= k <= s.len(),
    ensures
        utf8_offset(s, k) == k,
    decreases k,
{
    if k > 0 {
        lemma_ascii_offset(s, k - 1);
    }
}

} // verus!
