use vstd::prelude::*;

use crate::protocol::enums::{RfcType, Type};
use crate::protocol::types::type_description::TypeDesc;
use crate::protocol::uc_str::{uc_chars, UCStr};

verus! {

/// The description of one field of a structure or table type (`RFC_FIELD_DESC`): its
/// name, type, lengths and offsets in a non-unicode and in a unicode system, and the type
/// description of a nested structure or table.
#[derive(Debug, Copy, Clone, PartialEq, Eq, Hash)]
pub struct FieldDescription<'a> {
    pub(crate) name: [u16; 31],
    pub(crate) rfc_type: RfcType,
    pub(crate) nuc_length: u32,
    pub(crate) nuc_offset: u32,
    pub(crate) uc_length: u32,
    pub(crate) uc_offset: u32,
    pub(crate) decimals: u32,
    pub(crate) type_desc: Option<&'a TypeDesc<'a>>,
}

impl<'a> FieldDescription<'a> {
    /// The name of the field: a nul-terminated buffer of 31 code units.
    pub closed spec fn spec_name(self) -> Seq<u16> {
        self.name@
    }

    /// The type code of the field.
    pub closed spec fn spec_rfc_type(self) -> RfcType {
        self.rfc_type
    }

    /// The length of the field in bytes in a non-unicode system.
    pub closed spec fn spec_nuc_length(self) -> u32 {
        self.nuc_length
    }

    /// The offset of the field in bytes in a non-unicode system.
    pub closed spec fn spec_nuc_offset(self) -> u32 {
        self.nuc_offset
    }

    /// The length of the field in bytes in a unicode system.
    pub closed spec fn spec_uc_length(self) -> u32 {
        self.uc_length
    }

    /// The offset of the field in bytes in a unicode system.
    pub closed spec fn spec_uc_offset(self) -> u32 {
        self.uc_offset
    }

    /// The number of decimal places of the field.
    pub closed spec fn spec_decimals(self) -> u32 {
        self.decimals
    }

    /// The type description of a structure or table field.
    pub closed spec fn spec_type_desc(self) -> Option<&'a TypeDesc<'a>> {
        self.type_desc
    }

    /// Whether a structure or table field names its type description.
    pub open spec fn wf(self) -> bool {
        self.spec_rfc_type() == RfcType::Table || self.spec_rfc_type() == RfcType::Structure
            ==> self.spec_type_desc() is Some
    }

    /// The type of the field.
    pub open spec fn spec_field_type(self) -> Type<'a> {
        Type::spec_from_rfc_type(
            self.spec_rfc_type(),
            self.spec_nuc_length(),
            self.spec_decimals(),
            self.spec_type_desc(),
        )
    }

    #[verifier::type_invariant]
    closed spec fn inv(self) -> bool {
        self.wf()
    }

    /// A field description made of its parts.
    pub(crate) fn from_parts(
        name: [u16; 31],
        rfc_type: RfcType,
        nuc_length: u32,
        nuc_offset: u32,
        uc_length: u32,
        uc_offset: u32,
        decimals: u32,
        type_desc: Option<&'a TypeDesc<'a>>,
    ) -> (r: Self)
        requires
            rfc_type == RfcType::Table || rfc_type == RfcType::Structure ==> type_desc is Some,
        ensures
            r.spec_name() == name@,
            r.spec_rfc_type() == rfc_type,
            r.spec_nuc_length() == nuc_length,
            r.spec_nuc_offset() == nuc_offset,
            r.spec_uc_length() == uc_length,
            r.spec_uc_offset() == uc_offset,
            r.spec_decimals() == decimals,
            r.spec_type_desc() == type_desc,
    {
        FieldDescription {
            name,
            rfc_type,
            nuc_length,
            nuc_offset,
            uc_length,
            uc_offset,
            decimals,
            type_desc,
        }
    }

    /// The name of the field as nul-terminated buffer.
    pub(crate) fn name_units(&self) -> (r: &[u16; 31])
        ensures
            r@ == self.spec_name(),
    {
        &self.name
    }

    /// The type code of the field.
    pub(crate) fn rfc_type(&self) -> (r: RfcType)
        ensures
            r == self.spec_rfc_type(),
    {
        self.rfc_type
    }

    /// The type description of a structure or table field.
    pub(crate) fn type_desc(&self) -> (r: Option<&'a TypeDesc<'a>>)
        ensures
            r == self.spec_type_desc(),
    {
        self.type_desc
    }

    /// The name of the field.
    pub fn name(&self) -> (r: String)
        ensures
            r@ == uc_chars(self.spec_name()),
    {
        UCStr::slice_to_string_lossy(&self.name)
    }

    /// The type of the field; its length is the non-unicode length of the field.
    pub fn field_type(&self) -> (r: Type<'a>)
        ensures
            r == self.spec_field_type(),
    {
        proof {
            use_type_invariant(self);
        }
        Type::from_rfc_type(self.rfc_type, self.length(), self.decimals(), self.type_desc)
    }

    /// The length of the field in bytes in a non-unicode system.
    pub fn length(&self) -> (r: u32)
        ensures
            r == self.spec_nuc_length(),
    {
        self.nuc_length
    }

    /// The number of decimal places of the field.
    pub fn decimals(&self) -> (r: u32)
        ensures
            r == self.spec_decimals(),
    {
        self.decimals
    }
}

} // verus!
