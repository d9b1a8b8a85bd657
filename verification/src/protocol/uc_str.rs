use vstd::prelude::*;

use crate::protocol::text::{char_from_u32, char_value, chars_of, is_digit, string_from_chars};
use crate::protocol::types::error::{is_buffer_too_small, zeros, RfcError, RfcResult};

verus! {

/// A SAP unicode code unit (UTF-16).
pub type SapUc = u16;

/// Whether `u` is a UTF-16 high surrogate.
pub open spec fn is_high_surrogate(u: u16) -> bool {
    0xD800 <= u <= 0xDBFF
}

/// Whether `u` is a UTF-16 low surrogate.
pub open spec fn is_low_surrogate(u: u16) -> bool {
    0xDC00 <= u <= 0xDFFF
}

/// Whether `u` is a UTF-16 surrogate of either kind.
pub open spec fn is_surrogate(u: u16) -> bool {
    0xD800 <= u <= 0xDFFF
}

/// The UTF-16 code units of one character.
pub open spec fn char_to_utf16(c: char) -> Seq<u16> {
    let v = c as int;
    if v < 0x10000 {
        seq![v as u16]
    } else {
        let w = v - 0x10000;
        seq![(0xD800 + w / 0x400) as u16, (0xDC00 + w % 0x400) as u16]
    }
}

/// The UTF-16 encoding of a character sequence.
pub open spec fn utf16_encode(s: Seq<char>) -> Seq<u16>
    decreases s.len(),
{
    if s.len() == 0 {
        Seq::empty()
    } else {
        char_to_utf16(s[0]) + utf16_encode(s.skip(1))
    }
}

/// The scalar value that a surrogate pair encodes.
pub open spec fn surrogate_pair_value(hi: u16, lo: u16) -> int {
    0x10000 + (hi - 0xD800) * 0x400 + (lo - 0xDC00)
}

/// The characters that UTF-16 code units decode to; a surrogate that is not part of a
/// pair decodes to U+FFFD REPLACEMENT CHARACTER.
pub open spec fn utf16_decode(u: Seq<u16>) -> Seq<char>
    decreases u.len(),
{
    if u.len() == 0 {
        Seq::empty()
    } else if u.len() >= 2 && is_high_surrogate(u[0]) && is_low_surrogate(u[1]) {
        seq![surrogate_pair_value(u[0], u[1]) as char] + utf16_decode(u.skip(2))
    } else if is_surrogate(u[0]) {
        seq!['\u{FFFD}'] + utf16_decode(u.skip(1))
    } else {
        seq![u[0] as char] + utf16_decode(u.skip(1))
    }
}

/// The index of the first nul code unit in `u`, or its length if there is none.
pub open spec fn nul_index(u: Seq<u16>) -> nat
    decreases u.len(),
{
    if u.len() == 0 || u[0] == 0 {
        0
    } else {
        1 + nul_index(u.skip(1))
    }
}

/// The code units of a nul-terminated SAP unicode string: those before the first nul.
pub open spec fn uc_text(u: Seq<u16>) -> Seq<u16> {
    u.take(nul_index(u) as int)
}

/// The characters of a nul-terminated SAP unicode string.
pub open spec fn uc_chars(u: Seq<u16>) -> Seq<char> {
    utf16_decode(uc_text(u))
}

/// Whether the text `s` with a terminating nul fits into a buffer of `len` code units.
pub open spec fn fits_with_nul(len: nat, s: Seq<char>) -> bool {
    utf16_encode(s).len() + 1 <= len
}

/// The contents of `buf` after the nul-terminated text `s` has been written to its start.
pub open spec fn written_with_nul(buf: Seq<u16>, s: Seq<char>) -> Seq<u16> {
    let e = utf16_encode(s);
    e + seq![0u16] + buf.skip(e.len() + 1 as int)
}

/// Whether the text `s` without a terminating nul fits into a buffer of `len` code units.
pub open spec fn fits_without_nul(len: nat, s: Seq<char>) -> bool {
    utf16_encode(s).len() <= len
}

/// The contents of a buffer of `len` code units after the text `s` has been written to
/// it without a terminating nul: the text, then zeros.
pub open spec fn written_without_nul(len: nat, s: Seq<char>) -> Seq<u16> {
    let e = utf16_encode(s);
    e + zeros((len - e.len()) as nat)
}

/// Whether a text holds no nul character.
pub open spec fn has_no_nul(s: Seq<char>) -> bool {
    forall|i: int| 0 <= i < s.len() ==> s[i] != '\0'
}

/// Characterizes [`nul_index`]: it is the first position holding a nul.
pub proof fn lemma_nul_index(u: Seq<u16>, i: int)
    requires
        0 <= i <= u.len(),
        forall|j: int| 0 <= j < i ==> u[j] != 0,
        i == u.len() || u[i] == 0,
    ensures
        nul_index(u) == i,
    decreases u.len(),
{
    if u.len() > 0 && u[0] != 0 {
        lemma_nul_index(u.skip(1), i - 1);
    }
}

/// [`nul_index`] lies within the units, and no unit before it is a nul.
pub proof fn lemma_nul_index_bounds(u: Seq<u16>)
    ensures
        nul_index(u) <= u.len(),
        forall|j: int| 0 <= j < nul_index(u) ==> u[j] != 0,
        nul_index(u) < u.len() ==> u[nul_index(u) as int] == 0,
    decreases u.len(),
{
    if u.len() > 0 && u[0] != 0 {
        lemma_nul_index_bounds(u.skip(1));
        assert forall|j: int| 0 <= j < nul_index(u) implies u[j] != 0 by {
            if j > 0 {
                assert(u[j] == u.skip(1)[j - 1]);
            }
        }
    }
}

proof fn lemma_char_to_utf16(c: char, rest: Seq<u16>)
    ensures
        utf16_decode(char_to_utf16(c) + rest) == seq![c] + utf16_decode(rest),
        (c as int) < 0x10000 ==> char_to_utf16(c).len() == 1,
        (c as int) >= 0x10000 ==> char_to_utf16(c).len() == 2,
        c != '\0' ==> forall|j: int| 0 <= j < char_to_utf16(c).len() ==> #[trigger] char_to_utf16(c)[j] != 0,
{
    let u = char_to_utf16(c) + rest;
    let v = c as int;
    if v < 0x10000 {
        assert(u[0] == v as u16);
        assert(!is_surrogate(u[0]));
        assert(u.skip(1) =~= rest);
        assert((u[0] as char) == c);
    } else {
        let w = v - 0x10000;
        assert(0 <= w < 0x100000);
        let hi = (0xD800 + w / 0x400) as u16;
        let lo = (0xDC00 + w % 0x400) as u16;
        assert(0 <= w / 0x400 < 0x400) by (nonlinear_arith)
            requires
                0 <= w < 0x100000,
        ;
        assert(w == (w / 0x400) * 0x400 + w % 0x400) by (nonlinear_arith);
        assert(u[0] == hi);
        assert(u[1] == lo);
        assert(is_high_surrogate(hi) && is_low_surrogate(lo));
        assert(u.skip(2) =~= rest);
        assert(surrogate_pair_value(hi, lo) == v);
        assert((surrogate_pair_value(hi, lo) as char) == c);
    }
}

/// The code units of a character are its standard UTF-16 encoding: a character below
/// U+10000 is the one code unit of the same value; any other character is a high
/// surrogate followed by a low surrogate whose offsets from 0xD800 and 0xDC00 give the
/// upper and lower ten bits of the character's value minus 0x10000.
pub proof fn lemma_char_utf16_standard(c: char)
    ensures
        (c as int) < 0x10000 ==> char_to_utf16(c).len() == 1 && char_to_utf16(c)[0] as int
            == c as int,
        (c as int) >= 0x10000 ==> {
            let u = char_to_utf16(c);
            &&& u.len() == 2
            &&& 0xD800 <= u[0] <= 0xDBFF
            &&& 0xDC00 <= u[1] <= 0xDFFF
            &&& 0x10000 + (u[0] as int - 0xD800) * 0x400 + (u[1] as int - 0xDC00) == c as int
        },
{
    let v = c as int;
    if v >= 0x10000 {
        let w = v - 0x10000;
        assert(0 <= w < 0x100000);
        assert(0 <= w / 0x400 < 0x400 && 0 <= w % 0x400 < 0x400) by (nonlinear_arith)
            requires
                0 <= w < 0x100000,
        ;
        assert(w == (w / 0x400) * 0x400 + w % 0x400) by (nonlinear_arith);
    }
}

/// A text of characters below U+10000 encodes to one code unit per character, each of
/// the value of its character.
pub proof fn lemma_utf16_encode_bmp(s: Seq<char>)
    requires
        forall|i: int| 0 <= i < s.len() ==> (#[trigger] s[i] as int) < 0x10000,
    ensures
        utf16_encode(s).len() == s.len(),
        forall|i: int| 0 <= i < s.len() ==> #[trigger] utf16_encode(s)[i] as int == s[i] as int,
    decreases s.len(),
{
    if s.len() > 0 {
        let t = s.skip(1);
        assert forall|i: int| 0 <= i < t.len() implies (#[trigger] t[i] as int) < 0x10000 by {
            assert(t[i] == s[i + 1]);
        }
        lemma_utf16_encode_bmp(t);
        lemma_char_utf16_standard(s[0]);
        let e = utf16_encode(s);
        assert forall|i: int| 0 <= i < s.len() implies #[trigger] e[i] as int == s[i] as int by {
            if i == 0 {
                assert(e[0] == char_to_utf16(s[0])[0]);
            } else {
                assert(e[i] == utf16_encode(t)[i - 1]);
                assert(t[i - 1] == s[i]);
            }
        }
    }
}

/// Code units that are not surrogates decode to one character each, of the value of
/// its code unit; a high surrogate followed by a low surrogate decodes to the one
/// character whose value they encode; any other surrogate decodes to U+FFFD.
pub proof fn lemma_utf16_decode_standard(u: Seq<u16>)
    ensures
        (forall|i: int| 0 <= i < u.len() ==> !(0xD800 <= #[trigger] u[i] <= 0xDFFF)) ==> {
            &&& utf16_decode(u).len() == u.len()
            &&& forall|i: int| 0 <= i < u.len() ==> #[trigger] utf16_decode(u)[i] as int == u[i] as int
        },
        u.len() == 2 && 0xD800 <= u[0] <= 0xDBFF && 0xDC00 <= u[1] <= 0xDFFF ==> {
            &&& utf16_decode(u).len() == 1
            &&& utf16_decode(u)[0] as int == 0x10000 + (u[0] as int - 0xD800) * 0x400 + (u[1] as int
                - 0xDC00)
        },
        u.len() == 1 && 0xD800 <= u[0] <= 0xDFFF ==> utf16_decode(u) == seq!['\u{FFFD}'],
    decreases u.len(),
{
    if u.len() > 0 {
        let t = u.skip(1);
        lemma_utf16_decode_standard(t);
        if forall|i: int| 0 <= i < u.len() ==> !(0xD800 <= #[trigger] u[i] <= 0xDFFF) {
            assert forall|i: int| 0 <= i < t.len() implies !(0xD800 <= #[trigger] t[i] <= 0xDFFF) by {
                assert(t[i] == u[i + 1]);
            }
            assert(!(0xD800 <= u[0] <= 0xDFFF));
            let d = utf16_decode(u);
            assert(d == seq![u[0] as char] + utf16_decode(t));
            assert forall|i: int| 0 <= i < u.len() implies #[trigger] d[i] as int == u[i] as int by {
                if i > 0 {
                    assert(d[i] == utf16_decode(t)[i - 1]);
                    assert(t[i - 1] == u[i]);
                }
            }
        }
        if u.len() == 2 && 0xD800 <= u[0] <= 0xDBFF && 0xDC00 <= u[1] <= 0xDFFF {
            let v = surrogate_pair_value(u[0], u[1]);
            assert(0x10000 <= v <= 0x10FFFF);
            assert(u.skip(2).len() == 0);
            assert(utf16_decode(u.skip(2)) =~= Seq::<char>::empty());
            assert(utf16_decode(u) =~= seq![v as char]);
        }
        if u.len() == 1 && 0xD800 <= u[0] <= 0xDFFF {
            assert(t.len() == 0);
            assert(utf16_decode(t) =~= Seq::<char>::empty());
            assert(utf16_decode(u) =~= seq!['\u{FFFD}']);
        }
    }
}

/// Decoding the UTF-16 encoding of a text gives the text back.
pub proof fn lemma_utf16_roundtrip(s: Seq<char>)
    ensures
        utf16_decode(utf16_encode(s)) == s,
    decreases s.len(),
{
    if s.len() > 0 {
        lemma_utf16_roundtrip(s.skip(1));
        lemma_char_to_utf16(s[0], utf16_encode(s.skip(1)));
        assert(seq![s[0]] + s.skip(1) =~= s);
    }
}

/// A text without nul characters encodes to code units without nul.
pub proof fn lemma_utf16_no_nul(s: Seq<char>)
    requires
        has_no_nul(s),
    ensures
        forall|j: int| 0 <= j < utf16_encode(s).len() ==> utf16_encode(s)[j] != 0,
    decreases s.len(),
{
    if s.len() > 0 {
        assert(has_no_nul(s.skip(1))) by {
            assert forall|i: int| 0 <= i < s.skip(1).len() implies s.skip(1)[i] != '\0' by {
                assert(s.skip(1)[i] == s[i + 1]);
            }
        }
        lemma_utf16_no_nul(s.skip(1));
        lemma_char_to_utf16(s[0], utf16_encode(s.skip(1)));
        let a = char_to_utf16(s[0]);
        let e = utf16_encode(s);
        assert forall|j: int| 0 <= j < e.len() implies e[j] != 0 by {
            if j < a.len() {
                assert(e[j] == a[j]);
            } else {
                assert(e[j] == utf16_encode(s.skip(1))[j - a.len()]);
            }
        }
    }
}

/// Reading back a text that was written with a terminating nul gives the text, if it
/// holds no nul character.
pub proof fn lemma_written_with_nul_text(buf: Seq<u16>, s: Seq<char>)
    requires
        fits_with_nul(buf.len(), s),
        has_no_nul(s),
    ensures
        uc_text(written_with_nul(buf, s)) == utf16_encode(s),
        uc_chars(written_with_nul(buf, s)) == s,
        written_with_nul(buf, s).len() == buf.len(),
{
    let e = utf16_encode(s);
    let w = written_with_nul(buf, s);
    lemma_utf16_no_nul(s);
    assert forall|j: int| 0 <= j < e.len() implies w[j] != 0 by {
        assert(w[j] == e[j]);
    }
    assert(w[e.len() as int] == 0);
    lemma_nul_index(w, e.len() as int);
    assert(w.take(e.len() as int) =~= e);
    lemma_utf16_roundtrip(s);
}

/// Reading back a text that was written without a terminating nul gives the text, if
/// it holds no nul character.
pub proof fn lemma_written_without_nul_text(len: nat, s: Seq<char>)
    requires
        fits_without_nul(len, s),
        has_no_nul(s),
    ensures
        uc_text(written_without_nul(len, s)) == utf16_encode(s),
        uc_chars(written_without_nul(len, s)) == s,
        written_without_nul(len, s).len() == len,
{
    let e = utf16_encode(s);
    let w = written_without_nul(len, s);
    lemma_utf16_no_nul(s);
    assert forall|j: int| 0 <= j < e.len() implies w[j] != 0 by {
        assert(w[j] == e[j]);
    }
    lemma_nul_index(w, e.len() as int);
    assert(w.take(e.len() as int) =~= e);
    lemma_utf16_roundtrip(s);
}

/// Digits encode to one code unit each, and not to a nul.
pub proof fn lemma_utf16_len_digits(s: Seq<char>)
    requires
        forall|i: int| 0 <= i < s.len() ==> is_digit(#[trigger] s[i]),
    ensures
        utf16_encode(s).len() == s.len(),
        utf16_encode(s) == Seq::new(s.len(), |i: int| s[i] as u16),
    decreases s.len(),
{
    if s.len() > 0 {
        let t = s.skip(1);
        assert forall|i: int| 0 <= i < t.len() implies is_digit(#[trigger] t[i]) by {
            assert(t[i] == s[i + 1]);
        }
        lemma_utf16_len_digits(t);
        assert(is_digit(s[0]));
        assert(utf16_encode(s) =~= Seq::new(s.len(), |i: int| s[i] as u16));
    }
}

/// The UTF-16 encoding of a string.
pub fn utf16_encode_str(s: &str) -> (r: Vec<u16>)
    ensures
        r@ == utf16_encode(s@),
{
    let chars = chars_of(s);
    let mut r: Vec<u16> = Vec::new();
    let n = chars.len();
    let mut i: usize = 0;
    assert(chars@.skip(0) =~= chars@);
    assert(r@ =~= Seq::<u16>::empty());
    while i < n
        invariant
            n == chars@.len(),
            chars@ == s@,
            i <= n,
            r@ + utf16_encode(chars@.skip(i as int)) == utf16_encode(chars@),
        decreases n - i,
    {
        let c = chars[i];
        let v = char_value(c);
        assert(chars@.skip(i as int).skip(1) =~= chars@.skip(i + 1));
        let ghost before = r@;
        if v < 0x10000 {
            r.push(v as u16);
        } else {
            let w = v - 0x10000;
            r.push((0xD800 + w / 0x400) as u16);
            r.push((0xDC00 + w % 0x400) as u16);
        }
        assert(r@ =~= before + char_to_utf16(c));
        assert(utf16_encode(chars@.skip(i as int)) == char_to_utf16(c) + utf16_encode(
            chars@.skip(i + 1),
        ));
        assert(r@ + utf16_encode(chars@.skip(i + 1)) =~= before + utf16_encode(
            chars@.skip(i as int),
        ));
        i = i + 1;
    }
    assert(chars@.skip(n as int) =~= Seq::<char>::empty());
    r
}

/// The number of code units before the first nul among the first `maxlen` units.
fn strnlen(s: &[u16], maxlen: usize) -> (len: usize)
    requires
        maxlen <= s@.len(),
    ensures
        len == if nul_index(s@) < maxlen {
            nul_index(s@)
        } else {
            maxlen as nat
        },
{
    let mut len: usize = 0;
    while len < maxlen && s[len] != 0
        invariant
            len <= maxlen <= s@.len(),
            forall|j: int| 0 <= j < len ==> s@[j] != 0,
        decreases maxlen - len,
    {
        len = len + 1;
    }
    proof {
        lemma_nul_index_bounds(s@);
        if len < maxlen {
            lemma_nul_index(s@, len as int);
        } else if nul_index(s@) < maxlen {
            assert(s@[nul_index(s@) as int] == 0);
        }
    }
    len
}

/// The number of code units before the first nul.
fn strlen(s: &[u16]) -> (len: usize)
    ensures
        len == nul_index(s@),
{
    proof {
        lemma_nul_index_bounds(s@);
    }
    strnlen(s, s.len())
}

/// Decodes the first `len` code units as UTF-16; an unpaired surrogate becomes U+FFFD.
fn utf16_decode_units(u: &[u16], len: usize) -> (r: Vec<char>)
    requires
        len <= u@.len(),
    ensures
        r@ == utf16_decode(u@.take(len as int)),
{
    let ghost t = u@.take(len as int);
    let mut r: Vec<char> = Vec::new();
    let mut i: usize = 0;
    assert(t.skip(0) =~= t);
    assert(r@ =~= Seq::<char>::empty());
    while i < len
        invariant
            len <= u@.len(),
            t == u@.take(len as int),
            i <= len,
            r@ + utf16_decode(t.skip(i as int)) == utf16_decode(t),
        decreases len - i,
    {
        let ghost rest = t.skip(i as int);
        let ghost before = r@;
        let x = u[i];
        assert(rest[0] == x);
        if i + 1 < len && 0xD800 <= x && x <= 0xDBFF && 0xDC00 <= u[i + 1] && u[i + 1] <= 0xDFFF {
            let y = u[i + 1];
            assert(rest[1] == y);
            let v: u32 = 0x10000 + (x as u32 - 0xD800) * 0x400 + (y as u32 - 0xDC00);
            assert(v as int == surrogate_pair_value(x, y));
            match char_from_u32(v) {
                Some(c) => r.push(c),
                None => r.push('\u{FFFD}'),
            }
            assert(rest.skip(2) =~= t.skip(i + 2));
            assert(r@ + utf16_decode(t.skip(i + 2)) =~= before + utf16_decode(rest));
            i = i + 2;
        } else if 0xD800 <= x && x <= 0xDFFF {
            r.push('\u{FFFD}');
            assert(rest.skip(1) =~= t.skip(i + 1));
            assert(r@ + utf16_decode(t.skip(i + 1)) =~= before + utf16_decode(rest));
            i = i + 1;
        } else {
            match char_from_u32(x as u32) {
                Some(c) => r.push(c),
                None => r.push('\u{FFFD}'),
            }
            assert(((x as u32) as char) == (x as char));
            assert(rest.skip(1) =~= t.skip(i + 1));
            assert(r@ + utf16_decode(t.skip(i + 1)) =~= before + utf16_decode(rest));
            i = i + 1;
        }
    }
    assert(t.skip(len as int) =~= Seq::<u16>::empty());
    r
}

/// Whether two nul-terminated SAP unicode buffers hold the same text.
pub fn uc_text_equal(a: &[u16], b: &[u16]) -> (r: bool)
    ensures
        r == (uc_text(a@) == uc_text(b@)),
{
    let na = strlen(a);
    let nb = strlen(b);
    proof {
        lemma_nul_index_bounds(a@);
        lemma_nul_index_bounds(b@);
    }
    if na != nb {
        assert(uc_text(a@).len() != uc_text(b@).len());
        return false;
    }
    let mut i: usize = 0;
    while i < na
        invariant
            na == nb,
            na == nul_index(a@),
            nb == nul_index(b@),
            na <= a@.len(),
            nb <= b@.len(),
            i <= na,
            forall|j: int| 0 <= j < i ==> a@[j] == b@[j],
        decreases na - i,
    {
        if a[i] != b[i] {
            assert(uc_text(a@)[i as int] != uc_text(b@)[i as int]);
            return false;
        }
        i = i + 1;
    }
    assert(uc_text(a@) =~= uc_text(b@));
    true
}

/// A SAP unicode string: a buffer of UTF-16 code units, read up to its first nul.
#[derive(Debug, Clone, PartialEq, Eq, PartialOrd, Ord, Hash)]
pub struct UCStr {
    uc: Vec<u16>,
}

impl View for UCStr {
    type V = Seq<u16>;

    closed spec fn view(&self) -> Seq<u16> {
        self.uc@
    }
}

impl UCStr {
    /// A SAP unicode string holding the given code units.
    pub(crate) fn from_vec(uc: Vec<u16>) -> (r: UCStr)
        ensures
            r@ == uc@,
    {
        UCStr { uc }
    }

    /// A SAP unicode string holding a copy of the given code units.
    pub fn from_slice(uc: &[u16]) -> (r: UCStr)
        ensures
            r@ == uc@,
    {
        let mut v: Vec<u16> = Vec::new();
        let mut i: usize = 0;
        while i < uc.len()
            invariant
                i <= uc@.len(),
                v@ == uc@.take(i as int),
            decreases uc@.len() - i,
        {
            v.push(uc[i]);
            assert(uc@.take(i + 1) =~= uc@.take(i as int).push(uc@[i as int]));
            i = i + 1;
        }
        assert(uc@.take(uc@.len() as int) =~= uc@);
        UCStr { uc: v }
    }

    /// The number of code units of the buffer.
    pub fn len(&self) -> (r: usize)
        ensures
            r == self@.len(),
    {
        self.uc.len()
    }

    /// The code units of the buffer.
    pub fn as_slice(&self) -> (r: &[u16])
        ensures
            r@ == self@,
    {
        self.uc.as_slice()
    }

    /// The characters of a nul-terminated SAP unicode buffer: the code units before the
    /// first nul, decoded as UTF-16, with U+FFFD in place of an unpaired surrogate.
    pub fn slice_chars(uc: &[u16]) -> (r: Vec<char>)
        ensures
            r@ == uc_chars(uc@),
    {
        let n = strlen(uc);
        proof {
            lemma_nul_index_bounds(uc@);
        }
        utf16_decode_units(uc, n)
    }

    /// The text of a nul-terminated SAP unicode buffer (see [`UCStr::to_string_lossy`]).
    pub fn slice_to_string_lossy(uc: &[u16]) -> (r: String)
        ensures
            r@ == uc_chars(uc@),
    {
        let chars = UCStr::slice_chars(uc);
        string_from_chars(&chars)
    }

    /// The text of the string: the code units before the first nul, decoded as UTF-16,
    /// with U+FFFD in place of an unpaired surrogate.
    pub fn to_string_lossy(&self) -> (r: String)
        ensures
            r@ == uc_chars(self@),
    {
        UCStr::slice_to_string_lossy(self.uc.as_slice())
    }

    /// Writes `s` with a terminating nul to the start of `buf`, and returns the number of
    /// code units written without the nul. Fails, leaving `buf` unchanged, where text and
    /// nul do not fit.
    pub fn write_slice(buf: &mut [u16], s: &str) -> (r: RfcResult<usize>)
        ensures
            fits_with_nul(old(buf)@.len(), s@) ==> r == Ok::<usize, RfcError>(
                utf16_encode(s@).len() as usize,
            ) && final(buf)@ == written_with_nul(old(buf)@, s@),
            !fits_with_nul(old(buf)@.len(), s@) ==> (r matches Err(e) && is_buffer_too_small(e)),
            !fits_with_nul(old(buf)@.len(), s@) ==> final(buf)@ == old(buf)@,
    {
        let e = utf16_encode_str(s);
        if e.len() >= buf.len() {
            return Err(RfcError::buffer_too_small());
        }
        let ghost old_buf = buf@;
        let mut i: usize = 0;
        while i < e.len()
            invariant
                e.len() < buf@.len(),
                buf@.len() == old_buf.len(),
                i <= e.len(),
                buf@ == e@.take(i as int) + old_buf.skip(i as int),
            decreases e.len() - i,
        {
            buf[i] = e[i];
            assert(buf@ =~= e@.take(i + 1) + old_buf.skip(i + 1));
            i = i + 1;
        }
        buf[e.len()] = 0;
        assert(buf@ =~= written_with_nul(old_buf, s@));
        Ok(e.len())
    }

    /// Writes `s` without a terminating nul to `buf` and fills the rest of it with
    /// zeros; returns the number of code units of the text. Fails, leaving `buf`
    /// unchanged, where the text does not fit.
    pub fn write_slice_without_nul(buf: &mut [u16], s: &str) -> (r: RfcResult<usize>)
        ensures
            fits_without_nul(old(buf)@.len(), s@) ==> r == Ok::<usize, RfcError>(
                utf16_encode(s@).len() as usize,
            ) && final(buf)@ == written_without_nul(old(buf)@.len(), s@),
            !fits_without_nul(old(buf)@.len(), s@) ==> (r matches Err(e) && is_buffer_too_small(e)),
            !fits_without_nul(old(buf)@.len(), s@) ==> final(buf)@ == old(buf)@,
    {
        let e = utf16_encode_str(s);
        if e.len() > buf.len() {
            return Err(RfcError::buffer_too_small());
        }
        let ghost old_buf = buf@;
        let mut i: usize = 0;
        while i < buf.len()
            invariant
                e.len() <= buf@.len(),
                buf@.len() == old_buf.len(),
                i <= buf@.len(),
                e@ == utf16_encode(s@),
                forall|j: int| 0 <= j < i ==> buf@[j] == written_without_nul(old_buf.len(), s@)[j],
            decreases buf@.len() - i,
        {
            let ghost w = written_without_nul(old_buf.len(), s@);
            if i < e.len() {
                buf[i] = e[i];
                assert(w[i as int] == e@[i as int]);
            } else {
                buf[i] = 0;
                assert(w[i as int] == zeros((old_buf.len() - e@.len()) as nat)[i - e@.len()]);
            }
            i = i + 1;
        }
        assert(buf@ =~= written_without_nul(old_buf.len(), s@));
        Ok(e.len())
    }

    /// Writes `s` with a terminating nul to the start of the string; see
    /// [`UCStr::write_slice`].
    pub fn write(&mut self, s: &str) -> (r: RfcResult<usize>)
        ensures
            fits_with_nul(old(self)@.len(), s@) ==> r == Ok::<usize, RfcError>(
                utf16_encode(s@).len() as usize,
            ) && final(self)@ == written_with_nul(old(self)@, s@),
            !fits_with_nul(old(self)@.len(), s@) ==> (r matches Err(e) && is_buffer_too_small(e)),
            !fits_with_nul(old(self)@.len(), s@) ==> final(self)@ == old(self)@,
    {
        UCStr::write_slice(self.uc.as_mut_slice(), s)
    }

    /// Writes `s` without a terminating nul to the string and fills its rest with zeros;
    /// see [`UCStr::write_slice_without_nul`].
    pub fn write_without_nul(&mut self, s: &str) -> (r: RfcResult<usize>)
        ensures
            fits_without_nul(old(self)@.len(), s@) ==> r == Ok::<usize, RfcError>(
                utf16_encode(s@).len() as usize,
            ) && final(self)@ == written_without_nul(old(self)@.len(), s@),
            !fits_without_nul(old(self)@.len(), s@) ==> (r matches Err(e) && is_buffer_too_small(e)),
            !fits_without_nul(old(self)@.len(), s@) ==> final(self)@ == old(self)@,
    {
        UCStr::write_slice_without_nul(self.uc.as_mut_slice(), s)
    }
}

} // verus!
