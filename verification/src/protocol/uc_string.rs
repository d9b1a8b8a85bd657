use vstd::prelude::*;

use crate::protocol::uc_str::{
    has_no_nul, lemma_nul_index, lemma_utf16_no_nul, lemma_utf16_roundtrip, uc_chars, uc_text,
    utf16_encode, utf16_encode_str, UCStr,
};

verus! {

/// An owned SAP unicode string: the UTF-16 encoding of a text, terminated by a nul.
#[derive(Debug, Clone, PartialEq, Eq, PartialOrd, Ord, Hash)]
pub struct UCString {
    uc: UCStr,
}

/// The code units of a text as a nul-terminated SAP unicode string.
pub open spec fn uc_string_units(s: Seq<char>) -> Seq<u16> {
    utf16_encode(s).push(0u16)
}

/// The text of a nul-terminated SAP unicode string made from a text without nul
/// characters is that text; its code units before the nul are the UTF-16 encoding.
pub proof fn lemma_uc_string_text(s: Seq<char>)
    requires
        has_no_nul(s),
    ensures
        uc_text(uc_string_units(s)) == utf16_encode(s),
        uc_chars(uc_string_units(s)) == s,
{
    let u = uc_string_units(s);
    let e = utf16_encode(s);
    lemma_utf16_no_nul(s);
    assert forall|j: int| 0 <= j < e.len() implies u[j] != 0 by {
        assert(u[j] == e[j]);
    }
    lemma_nul_index(u, e.len() as int);
    assert(u.take(e.len() as int) =~= e);
    lemma_utf16_roundtrip(s);
}

impl View for UCString {
    type V = Seq<u16>;

    closed spec fn view(&self) -> Seq<u16> {
        self.uc@
    }
}

impl UCString {
    /// An empty SAP unicode string, without any code unit.
    pub fn new() -> (r: Self)
        ensures
            r@ == Seq::<u16>::empty(),
    {
        UCString { uc: UCStr::from_vec(Vec::new()) }
    }

    /// The SAP unicode string of a text: its UTF-16 encoding followed by a nul.
    pub fn from_str(s: &str) -> (r: Self)
        ensures
            r@ == uc_string_units(s@),
    {
        let mut uc = utf16_encode_str(s);
        uc.push(0);
        UCString { uc: UCStr::from_vec(uc) }
    }

    /// The string as borrowed SAP unicode string.
    pub fn as_uc_str(&self) -> (r: &UCStr)
        ensures
            r@ == self@,
    {
        &self.uc
    }

    /// The code units of the string, nul included.
    pub fn as_slice(&self) -> (r: &[u16])
        ensures
            r@ == self@,
    {
        self.uc.as_slice()
    }
}

impl Default for UCString {
    fn default() -> (r: Self)
        ensures
            r@ == Seq::<u16>::empty(),
    {
        UCString::new()
    }
}

impl core::ops::Deref for UCString {
    type Target = UCStr;

    fn deref(&self) -> (r: &UCStr)
        ensures
            r@ == self@,
    {
        &self.uc
    }
}

} // verus!
