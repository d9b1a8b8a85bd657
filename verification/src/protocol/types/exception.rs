use vstd::prelude::*;

use crate::protocol::types::error::zeros;
use crate::protocol::uc_str::{uc_chars, UCStr};

verus! {

/// The exception description block of the SAP NetWeaver RFC library
/// (`RFC_EXCEPTION_DESC`): key and message as nul-terminated SAP unicode buffers.
#[derive(Debug, Copy, Clone, PartialEq, Eq, Hash)]
pub struct RfcExceptionDesc {
    /// The exception key.
    pub key: [u16; 128],
    /// The message of the exception.
    pub message: [u16; 512],
}

/// Structure for reading or defining the properties of an exception key in a function
/// module.
#[derive(Debug, Copy, Clone, PartialEq, Eq, Hash)]
pub struct ExceptionDescription {
    desc: RfcExceptionDesc,
}

impl View for ExceptionDescription {
    type V = RfcExceptionDesc;

    closed spec fn view(&self) -> RfcExceptionDesc {
        self.desc
    }
}

impl ExceptionDescription {
    /// The exception description that the block describes.
    pub fn from_desc(desc: RfcExceptionDesc) -> (r: Self)
        ensures
            r@ == desc,
    {
        ExceptionDescription { desc }
    }

    /// The exception description block of the description.
    pub fn to_desc(&self) -> (r: RfcExceptionDesc)
        ensures
            r == self@,
    {
        self.desc
    }

    /// The key of the exception as nul-terminated buffer.
    pub(crate) fn key_units(&self) -> (r: &[u16; 128])
        ensures
            r@ == self@.key@,
    {
        &self.desc.key
    }

    /// The key of the exception.
    pub fn key(&self) -> (r: String)
        ensures
            r@ == uc_chars(self@.key@),
    {
        UCStr::slice_to_string_lossy(&self.desc.key)
    }

    /// The message of the exception.
    pub fn message(&self) -> (r: String)
        ensures
            r@ == uc_chars(self@.message@),
    {
        UCStr::slice_to_string_lossy(&self.desc.message)
    }
}

impl Default for ExceptionDescription {
    fn default() -> (r: Self)
        ensures
            r@.key@ == zeros(128),
            r@.message@ == zeros(512),
    {
        let r = ExceptionDescription {
            desc: RfcExceptionDesc { key: [0u16; 128], message: [0u16; 512] },
        };
        proof {
            assert(r.desc.key@ =~= zeros(128));
            assert(r.desc.message@ =~= zeros(512));
        }
        r
    }
}

} // verus!
