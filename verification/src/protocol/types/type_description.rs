use vstd::prelude::*;

use crate::protocol::enums::{lemma_type_code_roundtrip, RfcType, Type};
use crate::protocol::types::error::{
    is_buffer_too_small, is_invalid_parameter, zeros, RfcError, RfcResult,
};
use crate::protocol::types::field_description::FieldDescription;
use crate::protocol::uc_str::{
    fits_with_nul, has_no_nul, lemma_written_with_nul_text, uc_chars, uc_text, uc_text_equal,
    utf16_encode, written_with_nul, UCStr,
};
use crate::protocol::uc_string::{lemma_uc_string_text, uc_string_units, UCString};

verus! {

/// The key under which a name is looked up: the code units of the name up to its first
/// nul, as the library reads a nul-terminated name.
pub open spec fn name_key(name: Seq<char>) -> Seq<u16> {
    uc_text(uc_string_units(name))
}

/// The next multiple of `n` at or above `len`: the offset at which a field of length `n`
/// is placed behind `len` bytes. A field of length zero is placed at offset zero into an
/// empty type, and at the largest `u32` offset behind a type that is not empty (the
/// quotient `len / 0` taken as unbounded).
pub open spec fn align_up(len: nat, n: nat) -> nat {
    if n == 0 {
        if len == 0 {
            0
        } else {
            u32::MAX as nat
        }
    } else {
        (((len + n - 1) as nat / n) * n) as nat
    }
}

/// Whether `e` is the error that reports a type description that would grow too large.
pub open spec fn is_type_too_large(e: RfcError) -> bool {
    is_invalid_parameter(e, "The type description is too large"@)
}

/// Type description of a structure or table type: its name, its fields in order, and its
/// length in bytes in a non-unicode and in a unicode system.
#[derive(Debug, PartialEq, Eq, Hash)]
pub struct TypeDesc<'a> {
    pub(crate) name: [u16; 31],
    pub(crate) fields: Vec<FieldDescription<'a>>,
    pub(crate) nuc_length: u32,
    pub(crate) uc_length: u32,
}

impl<'a> TypeDesc<'a> {
    /// The name of the type: a nul-terminated buffer of 31 code units.
    pub closed spec fn spec_name(self) -> Seq<u16> {
        self.name@
    }

    /// The fields of the type, in order.
    pub closed spec fn spec_fields(self) -> Seq<FieldDescription<'a>> {
        self.fields@
    }

    /// The length of the type in bytes in a non-unicode system.
    pub closed spec fn spec_nuc_length(self) -> u32 {
        self.nuc_length
    }

    /// The length of the type in bytes in a unicode system.
    pub closed spec fn spec_uc_length(self) -> u32 {
        self.uc_length
    }

    /// Whether the type can be stored inline in a structure: no field has a pointer type
    /// (string, xstring, ABAP object or box), and every nested structure or table can be
    /// stored inline.
    pub closed spec fn spec_inlineable(self) -> bool {
        desc_inlineable(self)
    }

    /// Whether the field at `i` has the name that `name` is looked up by.
    pub open spec fn field_has_name(self, i: int, name: Seq<char>) -> bool {
        uc_text(self.spec_fields()[i].spec_name()) == name_key(name)
    }

    #[verifier::type_invariant]
    closed spec fn inv(self) -> bool {
        self.fields@.len() <= u32::MAX
    }
}

/// Whether all fields of `d` can be stored inline.
spec fn desc_inlineable<'a>(d: TypeDesc<'a>) -> bool
    decreases d, d.fields@.len() + 1,
{
    fields_inlineable(d, d.fields@.len())
}

/// Whether the first `n` fields of `d` can be stored inline.
spec fn fields_inlineable<'a>(d: TypeDesc<'a>, n: nat) -> bool
    decreases d, n,
{
    if n == 0 || n > d.fields@.len() {
        true
    } else {
        let f = d.fields@[n - 1];
        &&& fields_inlineable(d, (n - 1) as nat)
        &&& !is_pointer_type(f.rfc_type)
        &&& match f.type_desc {
            Some(t) => (f.rfc_type == RfcType::Table || f.rfc_type == RfcType::Structure)
                ==> desc_inlineable(*t),
            None => true,
        }
    }
}

/// Whether values of a type code are stored behind a pointer.
pub open spec fn is_pointer_type(t: RfcType) -> bool {
    t == RfcType::String || t == RfcType::XString || t == RfcType::ABAPObject || t
        == RfcType::Box || t == RfcType::GenericBox
}

proof fn lemma_fields_inlineable_prefix<'a>(d: TypeDesc<'a>, m: nat, n: nat)
    requires
        m <= n <= d.fields@.len(),
        fields_inlineable(d, n),
    ensures
        fields_inlineable(d, m),
    decreases n,
{
    if m < n {
        lemma_fields_inlineable_prefix(d, m, (n - 1) as nat);
    }
}

impl<'a> TypeDesc<'a> {
    /// The name of the type.
    pub fn name(&self) -> (r: String)
        ensures
            r@ == uc_chars(self.spec_name()),
    {
        UCStr::slice_to_string_lossy(&self.name)
    }

    /// The number of fields of the type.
    pub fn len(&self) -> (r: usize)
        ensures
            r == self.spec_fields().len(),
    {
        self.fields.len()
    }

    /// The first field with the given name, or `None` where no field has it.
    pub fn get(&self, field_name: &str) -> (r: Option<FieldDescription<'a>>)
        ensures
            r matches Some(f) ==> exists|i: int|
                0 <= i < self.spec_fields().len() && self.field_has_name(i, field_name@)
                    && f == self.spec_fields()[i] && forall|j: int|
                    0 <= j < i ==> !self.field_has_name(j, field_name@),
            r is None ==> forall|i: int|
                0 <= i < self.spec_fields().len() ==> !self.field_has_name(i, field_name@),
    {
        let key = UCString::from_str(field_name);
        let mut i: usize = 0;
        while i < self.fields.len()
            invariant
                i <= self.fields@.len(),
                key@ == uc_string_units(field_name@),
                forall|j: int| 0 <= j < i ==> !self.field_has_name(j, field_name@),
            decreases self.fields@.len() - i,
        {
            if uc_text_equal(self.fields[i].name_units(), key.as_slice()) {
                let f = self.fields[i];
                proof {
                    assert(self.field_has_name(i as int, field_name@));
                    assert(f == self.spec_fields()[i as int]);
                }
                return Some(f);
            }
            i = i + 1;
        }
        None
    }

    /// The field at the given position, or `None` where the position is out of range.
    pub fn get_by_index(&self, index: u32) -> (r: Option<FieldDescription<'a>>)
        ensures
            index < self.spec_fields().len() ==> r == Some(self.spec_fields()[index as int]),
            index >= self.spec_fields().len() ==> r is None,
    {
        if index as usize >= self.fields.len() {
            // Index out of range.
            None
        } else {
            Some(self.fields[index as usize])
        }
    }

    /// The lengths of the type in bytes: in a non-unicode and in a unicode system.
    pub(crate) fn byte_lengths(&self) -> (r: (u32, u32))
        ensures
            r == (self.spec_nuc_length(), self.spec_uc_length()),
    {
        (self.nuc_length, self.uc_length)
    }

    /// The length of the type in bytes in a non-unicode system.
    pub fn nuc_length(&self) -> (r: u32)
        ensures
            r == self.spec_nuc_length(),
    {
        self.byte_lengths().0
    }

    /// The length of the type in bytes in a unicode system.
    pub fn uc_length(&self) -> (r: u32)
        ensures
            r == self.spec_uc_length(),
    {
        self.byte_lengths().1
    }

    /// Whether the type can be stored inline in a structure.
    pub(crate) fn inlineable(&self) -> (r: bool)
        ensures
            r == self.spec_inlineable(),
        decreases *self,
    {
        let mut i: usize = 0;
        while i < self.fields.len()
            invariant
                i <= self.fields@.len(),
                fields_inlineable(*self, i as nat),
            decreases self.fields@.len() - i,
        {
            let f = &self.fields[i];
            let t = f.rfc_type;
            if t == RfcType::String || t == RfcType::XString || t == RfcType::ABAPObject || t
                == RfcType::Box || t == RfcType::GenericBox {
                proof {
                    if fields_inlineable(*self, self.fields@.len()) {
                        lemma_fields_inlineable_prefix(*self, (i + 1) as nat, self.fields@.len());
                    }
                }
                return false;
            }
            if t == RfcType::Table || t == RfcType::Structure {
                match f.type_desc {
                    Some(nested) => {
                        proof {
                            assert(decreases_to!(*self => *nested)) by {
                                assert(decreases_to!(*self => self.fields));
                                assert(decreases_to!(self.fields => self.fields@));
                                assert(decreases_to!(self.fields@ => self.fields@[i as int]));
                            }
                        }
                        if !nested.inlineable() {
                            proof {
                                if fields_inlineable(*self, self.fields@.len()) {
                                    lemma_fields_inlineable_prefix(
                                        *self,
                                        (i + 1) as nat,
                                        self.fields@.len(),
                                    );
                                }
                            }
                            return false;
                        }
                    },
                    None => {},
                }
            }
            i = i + 1;
        }
        true
    }

    /// An iterator over the fields of the type, in order.
    pub fn iter(&'a self) -> (r: TypeIter<'a>)
        ensures
            r.spec_desc() == self,
            r.spec_index() == 0,
    {
        TypeIter { desc: self, index: 0 }
    }
}

/// An iterator over the fields of a type description.
#[derive(Debug, Copy, Clone, PartialEq, Eq, Hash)]
pub struct TypeIter<'a> {
    desc: &'a TypeDesc<'a>,
    index: u32,
}

impl<'a> TypeIter<'a> {
    /// The type description whose fields are visited.
    pub closed spec fn spec_desc(self) -> &'a TypeDesc<'a> {
        self.desc
    }

    /// The position of the next field.
    pub closed spec fn spec_index(self) -> u32 {
        self.index
    }

    /// The next field, or `None` after the last one.
    pub fn next(&mut self) -> (r: Option<FieldDescription<'a>>)
        ensures
            final(self).spec_desc() == old(self).spec_desc(),
            old(self).spec_index() < old(self).spec_desc().spec_fields().len() ==> r == Some(
                old(self).spec_desc().spec_fields()[old(self).spec_index() as int],
            ) && final(self).spec_index() == old(self).spec_index() + 1,
            old(self).spec_index() >= old(self).spec_desc().spec_fields().len() ==> r is None
                && final(self).spec_index() == old(self).spec_index(),
    {
        let result = self.desc.get_by_index(self.index);
        if result.is_some() {
            proof {
                use_type_invariant(self.desc);
            }
            self.index = self.index + 1;
        }
        result
    }
}

/// Type description that the library owns: a structure or table type that is built up
/// field by field.
#[derive(Debug, PartialEq, Eq, Hash)]
pub struct TypeDescription<'a> {
    desc: TypeDesc<'a>,
}

impl<'a> View for TypeDescription<'a> {
    type V = TypeDesc<'a>;

    closed spec fn view(&self) -> TypeDesc<'a> {
        self.desc
    }
}

/// Whether `f` is the field that [`TypeDescription::add_field`] adds for `name` and
/// `field_type` at the given offsets.
pub open spec fn field_holds<'a>(
    f: FieldDescription<'a>,
    name: Seq<char>,
    field_type: Type<'a>,
    nuc_offset: nat,
    uc_offset: nat,
) -> bool {
    &&& f.spec_name() == written_with_nul(zeros(31), name)
    &&& f.spec_rfc_type() == field_type.spec_rfc_type()
    &&& f.spec_nuc_length() == field_type.spec_len().0
    &&& f.spec_nuc_offset() == nuc_offset
    &&& f.spec_uc_length() == field_type.spec_len().1
    &&& f.spec_uc_offset() == uc_offset
    &&& f.spec_decimals() == field_type.spec_decimals()
    &&& f.spec_type_desc() == field_type.spec_type_description()
}

/// Whether a field of the given lengths can be added to a type of the given lengths and
/// number of fields: the lengths of the grown type fit in a `u32`, and so does the number
/// of fields.
pub open spec fn field_fits(nuc_length: u32, uc_length: u32, n_fields: nat, field_len: (u32, u32)) -> bool {
    &&& align_up(nuc_length as nat, field_len.0 as nat) + field_len.0 <= u32::MAX
    &&& align_up(uc_length as nat, field_len.1 as nat) + field_len.1 <= u32::MAX
    &&& n_fields < u32::MAX
}

/// The next multiple of `n` at or above `len`.
fn align_up_u64(len: u64, n: u64) -> (r: u64)
    requires
        len <= u32::MAX,
        n <= u32::MAX,
    ensures
        r == align_up(len as nat, n as nat),
        r <= len + n || r == u32::MAX,
{
    if n == 0 {
        if len == 0 {
            0
        } else {
            0xFFFF_FFFF
        }
    } else {
        let a = len + n - 1;
        assert((a / n) * n <= a) by (nonlinear_arith)
            requires
                n > 0,
        ;
        (a / n) * n
    }
}

impl<'a> TypeDescription<'a> {
    /// Creates an empty type description with the given name.
    ///
    /// Fails where the name does not fit into the 30 characters of an ABAP name.
    pub fn new(name: &str) -> (r: RfcResult<Self>)
        ensures
            r is Ok <==> fits_with_nul(31, name@),
            r matches Ok(t) ==> t@.spec_name() == written_with_nul(zeros(31), name@)
                && t@.spec_fields() == Seq::<FieldDescription<'a>>::empty()
                && t@.spec_nuc_length() == 0 && t@.spec_uc_length() == 0,
            r matches Err(e) ==> is_buffer_too_small(e),
    {
        let mut uc_name: [u16; 31] = [0u16; 31];
        proof {
            assert(uc_name@ =~= zeros(31));
        }
        UCStr::write_slice(&mut uc_name, name)?;
        Ok(TypeDescription { desc: TypeDesc { name: uc_name, fields: Vec::new(), nuc_length: 0, uc_length: 0 } })
    }

    /// The type description as borrowed type description.
    pub fn as_desc(&self) -> (r: &TypeDesc<'a>)
        ensures
            *r == self@,
    {
        &self.desc
    }

    /// Adds a field of the given name and type behind the existing fields.
    ///
    /// The field is placed at the next multiple of its length (in a non-unicode and in a
    /// unicode system) at or above the current length of the type; the type then ends
    /// behind the field. A field of length zero goes to offset zero of an empty type, and
    /// to the largest `u32` offset behind a type that is not empty, which then takes that
    /// length. Fails, leaving the type description unchanged, where the name
    /// does not fit into the 30 characters of an ABAP name, or where the type would grow
    /// beyond the `u32` range.
    pub fn add_field(&mut self, name: &str, field_type: Type<'a>) -> (r: RfcResult<()>)
        requires
            field_type.len_defined(),
        ensures
            ({
                let old_desc = old(self)@;
                let len = field_type.spec_len();
                let nuc_offset = align_up(old_desc.spec_nuc_length() as nat, len.0 as nat);
                let uc_offset = align_up(old_desc.spec_uc_length() as nat, len.1 as nat);
                if !fits_with_nul(31, name@) {
                    &&& r matches Err(e) && is_buffer_too_small(e)
                    &&& final(self)@ == old_desc
                } else if !field_fits(
                    old_desc.spec_nuc_length(),
                    old_desc.spec_uc_length(),
                    old_desc.spec_fields().len(),
                    len,
                ) {
                    &&& r matches Err(e) && is_type_too_large(e)
                    &&& final(self)@ == old_desc
                } else {
                    &&& r is Ok
                    &&& final(self)@.spec_name() == old_desc.spec_name()
                    &&& final(self)@.spec_fields().len() == old_desc.spec_fields().len() + 1
                    &&& final(self)@.spec_fields().drop_last() == old_desc.spec_fields()
                    &&& field_holds(
                        final(self)@.spec_fields().last(),
                        name@,
                        field_type,
                        nuc_offset,
                        uc_offset,
                    )
                    &&& final(self)@.spec_fields().last().spec_field_type() == field_type
                    &&& final(self)@.spec_nuc_length() == nuc_offset + len.0
                    &&& final(self)@.spec_uc_length() == uc_offset + len.1
                }
            }),
    {
        // Calculate the new type size: the field is placed at the next multiple of its
        // length, which adds padding bytes where the current length is not one.
        proof {
            lemma_type_code_roundtrip(field_type);
        }
        let (nuc_len, uc_len) = field_type.len();
        let nuc_offset = align_up_u64(self.desc.nuc_length as u64, nuc_len as u64);
        let uc_offset = align_up_u64(self.desc.uc_length as u64, uc_len as u64);

        let mut field_name: [u16; 31] = [0u16; 31];
        proof {
            assert(field_name@ =~= zeros(31));
        }
        UCStr::write_slice(&mut field_name, name)?;

        if nuc_offset + nuc_len as u64 > 0xFFFF_FFFF || uc_offset + uc_len as u64 > 0xFFFF_FFFF
            || self.desc.fields.len() >= 0xFFFF_FFFF {
            return Err(RfcError::invalid_parameter("The type description is too large"));
        }
        let field_desc = FieldDescription::from_parts(
            field_name,
            field_type.rfc_type(),
            nuc_len,
            nuc_offset as u32,
            uc_len,
            uc_offset as u32,
            field_type.decimals(),
            field_type.type_description(),
        );
        // Add it to the type and set the new type length.
        let mut desc = TypeDesc { name: [0u16; 31], fields: Vec::new(), nuc_length: 0, uc_length: 0 };
        core::mem::swap(&mut desc, &mut self.desc);
        let TypeDesc { name: desc_name, fields: mut fields, nuc_length: _, uc_length: _ } = desc;
        fields.push(field_desc);
        proof {
            assert(fields@.drop_last() =~= old(self)@.fields@);
        }
        self.desc = TypeDesc {
            name: desc_name,
            fields,
            nuc_length: (nuc_offset + nuc_len as u64) as u32,
            uc_length: (uc_offset + uc_len as u64) as u32,
        };
        Ok(())
    }
}

impl<'a> core::ops::Deref for TypeDescription<'a> {
    type Target = TypeDesc<'a>;

    fn deref(&self) -> (r: &TypeDesc<'a>)
        ensures
            *r == self@,
    {
        &self.desc
    }
}

/// After a field has been added under a name that no earlier field has, looking that
/// name up finds the new field: it has the name, and no field before it does.
pub proof fn lemma_get_after_add_field<'a>(
    old_desc: TypeDesc<'a>,
    new_desc: TypeDesc<'a>,
    name: Seq<char>,
    field_type: Type<'a>,
    nuc_offset: nat,
    uc_offset: nat,
)
    requires
        has_no_nul(name),
        fits_with_nul(31, name),
        new_desc.spec_fields().len() == old_desc.spec_fields().len() + 1,
        new_desc.spec_fields().drop_last() == old_desc.spec_fields(),
        field_holds(new_desc.spec_fields().last(), name, field_type, nuc_offset, uc_offset),
        forall|i: int| 0 <= i < old_desc.spec_fields().len() ==> !old_desc.field_has_name(i, name),
    ensures
        new_desc.field_has_name(old_desc.spec_fields().len() as int, name),
        forall|j: int|
            0 <= j < old_desc.spec_fields().len() ==> !new_desc.field_has_name(j, name),
{
    lemma_written_with_nul_text(zeros(31), name);
    lemma_uc_string_text(name);
    let k = old_desc.spec_fields().len() as int;
    assert(new_desc.spec_fields()[k] == new_desc.spec_fields().last());
    assert forall|j: int| 0 <= j < k implies !new_desc.field_has_name(j, name) by {
        assert(new_desc.spec_fields()[j] == new_desc.spec_fields().drop_last()[j]);
        assert(!old_desc.field_has_name(j, name));
    }
}

/// Whether the fields of `d` lie one behind the other, in order and without overlap, and
/// all within the length of the type, in a non-unicode and in a unicode system.
pub open spec fn fields_laid_out<'a>(d: TypeDesc<'a>) -> bool {
    let f = d.spec_fields();
    &&& forall|i: int|
        0 <= i < f.len() ==> #[trigger] f[i].spec_nuc_offset() + f[i].spec_nuc_length()
            <= d.spec_nuc_length() && f[i].spec_uc_offset() + f[i].spec_uc_length()
            <= d.spec_uc_length()
    &&& forall|i: int, j: int|
        #![trigger f[i], f[j]]
        0 <= i < j < f.len() ==> f[i].spec_nuc_offset() + f[i].spec_nuc_length()
            <= f[j].spec_nuc_offset() && f[i].spec_uc_offset() + f[i].spec_uc_length()
            <= f[j].spec_uc_offset()
}

/// The next multiple of `n` at or above `len` is at or above `len`.
proof fn lemma_align_up_at_least(len: nat, n: nat)
    requires
        len <= u32::MAX,
    ensures
        align_up(len, n) >= len,
{
    if n > 0 {
        let a = (len + n - 1) as nat;
        assert((a / n) * n + a % n == a && a % n < n) by (nonlinear_arith)
            requires
                n > 0,
        ;
    }
}

/// Adding a field keeps the layout of a type: where the fields lie one behind the other
/// within the length of the type, they still do after [`TypeDescription::add_field`] has
/// placed the new field at the next multiple of its length and grown the type behind it.
pub proof fn lemma_add_field_keeps_layout<'a>(
    old_desc: TypeDesc<'a>,
    new_desc: TypeDesc<'a>,
    name: Seq<char>,
    field_type: Type<'a>,
)
    requires
        fields_laid_out(old_desc),
        new_desc.spec_fields().len() == old_desc.spec_fields().len() + 1,
        new_desc.spec_fields().drop_last() == old_desc.spec_fields(),
        field_holds(
            new_desc.spec_fields().last(),
            name,
            field_type,
            align_up(old_desc.spec_nuc_length() as nat, field_type.spec_len().0 as nat),
            align_up(old_desc.spec_uc_length() as nat, field_type.spec_len().1 as nat),
        ),
        new_desc.spec_nuc_length() == align_up(
            old_desc.spec_nuc_length() as nat,
            field_type.spec_len().0 as nat,
        ) + field_type.spec_len().0,
        new_desc.spec_uc_length() == align_up(
            old_desc.spec_uc_length() as nat,
            field_type.spec_len().1 as nat,
        ) + field_type.spec_len().1,
    ensures
        fields_laid_out(new_desc),
{
    lemma_align_up_at_least(old_desc.spec_nuc_length() as nat, field_type.spec_len().0 as nat);
    lemma_align_up_at_least(old_desc.spec_uc_length() as nat, field_type.spec_len().1 as nat);
    let o = old_desc.spec_fields();
    let f = new_desc.spec_fields();
    let k = o.len() as int;
    assert forall|i: int| 0 <= i < k implies #[trigger] f[i] == o[i] by {
        assert(f[i] == f.drop_last()[i]);
    }
    assert(f[k] == f.last());
    assert forall|i: int| 0 <= i < f.len() implies #[trigger] f[i].spec_nuc_offset()
        + f[i].spec_nuc_length() <= new_desc.spec_nuc_length() && f[i].spec_uc_offset()
        + f[i].spec_uc_length() <= new_desc.spec_uc_length() by {
        if i < k {
            assert(f[i] == o[i]);
        }
    }
    assert forall|i: int, j: int| 0 <= i < j < f.len() implies f[i].spec_nuc_offset()
        + f[i].spec_nuc_length() <= f[j].spec_nuc_offset() && f[i].spec_uc_offset()
        + f[i].spec_uc_length() <= f[j].spec_uc_offset() by {
        assert(f[i] == o[i]);
        if j < k {
            assert(f[j] == o[j]);
        }
    }
}

/// The offset at which a field of length `n > 0` is placed behind `len` bytes is the
/// least multiple of `n` that is at or above `len`: it is divisible by `n`, not below
/// `len`, and less than `len + n` (so a length that is already a multiple of `n` is kept).
pub proof fn lemma_align_up_least_multiple(len: nat, n: nat)
    requires
        n > 0,
    ensures
        align_up(len, n) % n == 0,
        len <= align_up(len, n) < len + n,
        len % n == 0 ==> align_up(len, n) == len,
{
    let a = (len + n - 1) as nat;
    let q = a / n;
    assert(q * n + a % n == a && 0 <= a % n < n) by (nonlinear_arith)
        requires
            n > 0,
            q == a / n,
    ;
    assert((q * n) % n == 0) by (nonlinear_arith)
        requires
            n > 0,
    ;
    if len % n == 0 {
        let k = len / n;
        assert(k * n == len) by (nonlinear_arith)
            requires
                n > 0,
                len % n == 0,
                k == len / n,
        ;
        assert(a == k * n + (n - 1));
        assert(q == k) by (nonlinear_arith)
            requires
                n > 0,
                a == k * n + (n - 1),
                q == a / n,
        ;
    }
}

} // verus!
