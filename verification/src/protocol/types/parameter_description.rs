use vstd::prelude::*;

use crate::protocol::enums::{lemma_type_code_roundtrip, ParameterDirection, RfcType, Type};
use crate::protocol::types::error::{is_buffer_too_small, zeros, RfcResult};
use crate::protocol::types::type_description::TypeDesc;
use crate::protocol::uc_str::{
    fits_with_nul, has_no_nul, lemma_written_with_nul_text, uc_chars, written_with_nul, UCStr,
};

verus! {

/// The description of one parameter of a function module (`RFC_PARAMETER_DESC`): its
/// name, type, direction, lengths, default value, description text and whether it is
/// optional.
#[derive(Debug, Copy, Clone, PartialEq, Eq, Hash)]
pub struct ParameterDescription<'a> {
    name: [u16; 31],
    rfc_type: RfcType,
    direction: ParameterDirection,
    nuc_length: u32,
    uc_length: u32,
    decimals: u32,
    type_desc: Option<&'a TypeDesc<'a>>,
    default_value: [u16; 31],
    parameter_text: [u16; 80],
    optional: bool,
}

impl<'a> ParameterDescription<'a> {
    /// The name of the parameter: a nul-terminated buffer of 31 code units.
    pub closed spec fn spec_name(self) -> Seq<u16> {
        self.name@
    }

    /// The type code of the parameter.
    pub closed spec fn spec_rfc_type(self) -> RfcType {
        self.rfc_type
    }

    /// The direction of the parameter.
    pub closed spec fn spec_direction(self) -> ParameterDirection {
        self.direction
    }

    /// The length of the parameter in bytes in a non-unicode system.
    pub closed spec fn spec_nuc_length(self) -> u32 {
        self.nuc_length
    }

    /// The length of the parameter in bytes in a unicode system.
    pub closed spec fn spec_uc_length(self) -> u32 {
        self.uc_length
    }

    /// The number of decimal places of the parameter.
    pub closed spec fn spec_decimals(self) -> u32 {
        self.decimals
    }

    /// The type description of a structure or table parameter.
    pub closed spec fn spec_type_desc(self) -> Option<&'a TypeDesc<'a>> {
        self.type_desc
    }

    /// The default value: a nul-terminated buffer of 31 code units.
    pub closed spec fn spec_default_value(self) -> Seq<u16> {
        self.default_value@
    }

    /// The description text: a nul-terminated buffer of 80 code units.
    pub closed spec fn spec_text(self) -> Seq<u16> {
        self.parameter_text@
    }

    /// Whether the parameter is optional.
    pub closed spec fn spec_optional(self) -> bool {
        self.optional
    }

    /// The type of the parameter.
    pub open spec fn spec_parameter_type(self) -> Type<'a> {
        Type::spec_from_rfc_type(
            self.spec_rfc_type(),
            self.spec_nuc_length(),
            self.spec_decimals(),
            self.spec_type_desc(),
        )
    }

    #[verifier::type_invariant]
    closed spec fn inv(self) -> bool {
        self.rfc_type == RfcType::Table || self.rfc_type == RfcType::Structure
            ==> self.type_desc is Some
    }

    /// A description of a parameter of the given name, direction and type; it is not
    /// optional and has neither default value nor description text.
    ///
    /// Fails where the name does not fit into the 30 characters of an ABAP name.
    pub fn new(name: &str, direction: ParameterDirection, parameter_type: Type<'a>) -> (r: RfcResult<
        Self,
    >)
        requires
            parameter_type.len_defined(),
        ensures
            r is Ok <==> fits_with_nul(31, name@),
            r matches Ok(p) ==> {
                &&& p.spec_name() == written_with_nul(zeros(31), name@)
                &&& p.spec_rfc_type() == parameter_type.spec_rfc_type()
                &&& p.spec_direction() == direction
                &&& p.spec_nuc_length() == parameter_type.spec_len().0
                &&& p.spec_uc_length() == parameter_type.spec_len().1
                &&& p.spec_decimals() == parameter_type.spec_decimals()
                &&& p.spec_type_desc() == parameter_type.spec_type_description()
                &&& p.spec_default_value() == zeros(31)
                &&& p.spec_text() == zeros(80)
                &&& !p.spec_optional()
                &&& p.spec_parameter_type() == parameter_type
            },
            r matches Err(e) ==> is_buffer_too_small(e),
    {
        proof {
            lemma_type_code_roundtrip(parameter_type);
        }
        let (nuc_length, uc_length) = parameter_type.len();
        let mut uc_name: [u16; 31] = [0u16; 31];
        proof {
            assert(uc_name@ =~= zeros(31));
        }
        UCStr::write_slice(&mut uc_name, name)?;
        let default_value: [u16; 31] = [0u16; 31];
        let parameter_text: [u16; 80] = [0u16; 80];
        proof {
            assert(default_value@ =~= zeros(31));
            assert(parameter_text@ =~= zeros(80));
        }
        Ok(
            ParameterDescription {
                name: uc_name,
                rfc_type: parameter_type.rfc_type(),
                direction,
                nuc_length,
                uc_length,
                decimals: parameter_type.decimals(),
                type_desc: parameter_type.type_description(),
                default_value,
                parameter_text,
                optional: false,
            },
        )
    }

    /// The name of the parameter as nul-terminated buffer.
    pub(crate) fn name_units(&self) -> (r: &[u16; 31])
        ensures
            r@ == self.spec_name(),
    {
        &self.name
    }

    /// The name of the parameter.
    pub fn name(&self) -> (r: String)
        ensures
            r@ == uc_chars(self.spec_name()),
    {
        UCStr::slice_to_string_lossy(&self.name)
    }

    /// The type of the parameter; its length is the non-unicode length.
    pub fn parameter_type(&self) -> (r: Type<'a>)
        ensures
            r == self.spec_parameter_type(),
    {
        proof {
            use_type_invariant(self);
        }
        Type::from_rfc_type(self.rfc_type, self.len(), self.decimals(), self.type_desc)
    }

    /// The direction of the parameter.
    pub fn direction(&self) -> (r: ParameterDirection)
        ensures
            r == self.spec_direction(),
    {
        self.direction
    }

    /// The length of the parameter in bytes in a non-unicode system.
    pub fn len(&self) -> (r: u32)
        ensures
            r == self.spec_nuc_length(),
    {
        self.nuc_length
    }

    /// The number of decimal places of the parameter.
    pub fn decimals(&self) -> (r: u32)
        ensures
            r == self.spec_decimals(),
    {
        self.decimals
    }

    /// The default value of the parameter.
    pub fn default_value(&self) -> (r: String)
        ensures
            r@ == uc_chars(self.spec_default_value()),
    {
        UCStr::slice_to_string_lossy(&self.default_value)
    }

    /// Sets the default value of the parameter. Fails, leaving the description
    /// unchanged, where the value does not fit into 30 characters.
    pub fn set_default_value(&mut self, default: &str) -> (r: RfcResult<()>)
        ensures
            r is Ok <==> fits_with_nul(31, default@),
            r is Ok ==> final(self).spec_default_value() == written_with_nul(
                old(self).spec_default_value(),
                default@,
            ),
            r is Ok && has_no_nul(default@) ==> uc_chars(final(self).spec_default_value())
                == default@,
            r matches Err(e) ==> is_buffer_too_small(e) && *final(self) == *old(self),
            final(self).spec_name() == old(self).spec_name(),
            final(self).spec_rfc_type() == old(self).spec_rfc_type(),
            final(self).spec_direction() == old(self).spec_direction(),
            final(self).spec_nuc_length() == old(self).spec_nuc_length(),
            final(self).spec_uc_length() == old(self).spec_uc_length(),
            final(self).spec_decimals() == old(self).spec_decimals(),
            final(self).spec_type_desc() == old(self).spec_type_desc(),
            final(self).spec_text() == old(self).spec_text(),
            final(self).spec_optional() == old(self).spec_optional(),
    {
        proof {
            use_type_invariant(&*self);
        }
        let mut value = self.default_value;
        match UCStr::write_slice(&mut value, default) {
            Ok(_) => {
                proof {
                    if has_no_nul(default@) {
                        lemma_written_with_nul_text(old(self).spec_default_value(), default@);
                    }
                }
                self.default_value = value;
                Ok(())
            },
            Err(e) => Err(e),
        }
    }

    /// The description text of the parameter.
    pub fn description(&self) -> (r: String)
        ensures
            r@ == uc_chars(self.spec_text()),
    {
        UCStr::slice_to_string_lossy(&self.parameter_text)
    }

    /// Whether the parameter is optional.
    pub fn optional(&self) -> (r: bool)
        ensures
            r == self.spec_optional(),
    {
        self.optional
    }

    /// Sets whether the parameter is optional; nothing else changes.
    pub fn set_optional(&mut self, optional: bool)
        ensures
            final(self).spec_optional() == optional,
            final(self).spec_name() == old(self).spec_name(),
            final(self).spec_rfc_type() == old(self).spec_rfc_type(),
            final(self).spec_direction() == old(self).spec_direction(),
            final(self).spec_nuc_length() == old(self).spec_nuc_length(),
            final(self).spec_uc_length() == old(self).spec_uc_length(),
            final(self).spec_decimals() == old(self).spec_decimals(),
            final(self).spec_type_desc() == old(self).spec_type_desc(),
            final(self).spec_default_value() == old(self).spec_default_value(),
            final(self).spec_text() == old(self).spec_text(),
    {
        proof {
            use_type_invariant(&*self);
        }
        self.optional = optional;
    }
}

} // verus!
