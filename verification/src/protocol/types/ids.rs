use vstd::prelude::*;

use crate::protocol::uc_str::{uc_chars, UCStr};

verus! {

/// A transaction ID (`RFC_TID`): 24 characters in a nul-terminated SAP unicode buffer.
#[derive(Debug, Copy, Clone, PartialEq, Eq, Hash)]
pub struct TransactionID([u16; 25]);

/// A unit ID (`RFC_UNITID`): 32 characters in a nul-terminated SAP unicode buffer.
#[derive(Debug, Copy, Clone, PartialEq, Eq, Hash)]
pub struct UnitID([u16; 33]);

impl View for TransactionID {
    type V = Seq<u16>;

    closed spec fn view(&self) -> Seq<u16> {
        self.0@
    }
}

impl View for UnitID {
    type V = Seq<u16>;

    closed spec fn view(&self) -> Seq<u16> {
        self.0@
    }
}

impl TransactionID {
    /// The transaction ID that the buffer holds.
    pub fn from_raw(id: [u16; 25]) -> (r: Self)
        ensures
            r@ == id@,
    {
        TransactionID(id)
    }

    /// The buffer of the transaction ID.
    pub fn to_raw(&self) -> (r: [u16; 25])
        ensures
            r@ == self@,
    {
        self.0
    }

    /// The transaction ID as text.
    pub fn to_string(&self) -> (r: String)
        ensures
            r@ == uc_chars(self@),
    {
        UCStr::slice_to_string_lossy(&self.0)
    }
}

impl UnitID {
    /// The unit ID that the buffer holds.
    pub fn from_raw(id: [u16; 33]) -> (r: Self)
        ensures
            r@ == id@,
    {
        UnitID(id)
    }

    /// The buffer of the unit ID.
    pub fn to_raw(&self) -> (r: [u16; 33])
        ensures
            r@ == self@,
    {
        self.0
    }

    /// The unit ID as text.
    pub fn to_string(&self) -> (r: String)
        ensures
            r@ == uc_chars(self@),
    {
        UCStr::slice_to_string_lossy(&self.0)
    }
}

/// The unit identifier block (`RFC_UNIT_IDENTIFIER`): the type of a unit and its ID.
#[derive(Debug, Copy, Clone, PartialEq, Eq, Hash)]
pub struct RfcUnitIdentifier {
    /// The type of the unit as SAP unicode character: `T` or `Q`.
    pub unit_type: u16,
    /// The ID of the unit.
    pub unit_id: [u16; 33],
}

/// For convenience combines a [UnitID] and its type.
#[derive(Debug, PartialEq, Eq, Hash)]
pub struct UnitIdentifier(RfcUnitIdentifier);

impl View for UnitIdentifier {
    type V = RfcUnitIdentifier;

    closed spec fn view(&self) -> RfcUnitIdentifier {
        self.0
    }
}

impl UnitIdentifier {
    /// The unit identifier that the block holds.
    pub fn from_raw(identifier: RfcUnitIdentifier) -> (r: Self)
        ensures
            r@ == identifier,
    {
        UnitIdentifier(identifier)
    }

    /// The block of the unit identifier.
    pub fn to_raw(&self) -> (r: RfcUnitIdentifier)
        ensures
            r == self@,
    {
        self.0
    }

    /// The type of the unit.
    /// 'T' for "transactional" behavior (unit is executed synchronously),
    /// 'Q' for "queued" behavior (unit is written into a queue and executed asynchronously).
    ///
    /// The unit type must be one of these two.
    pub fn unit_type(&self) -> (r: char)
        requires
            self@.unit_type == 'T' as u16 || self@.unit_type == 'Q' as u16,
        ensures
            self@.unit_type == 'T' as u16 ==> r == 'T',
            self@.unit_type == 'Q' as u16 ==> r == 'Q',
    {
        if self.0.unit_type == 'T' as u16 {
            'T'
        } else {
            'Q'
        }
    }

    /// The 32 digit unit ID of the background unit.
    pub fn unit_id(&self) -> (r: UnitID)
        ensures
            r@ == self@.unit_id@,
    {
        UnitID::from_raw(self.0.unit_id)
    }
}

} // verus!
