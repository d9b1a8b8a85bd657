use vstd::prelude::*;

verus! {

/// A structure container of the SAP NetWeaver RFC library, known by its handle.
#[derive(Debug, PartialEq, Eq, Structural, Hash)]
pub struct Structure {
    handle: u64,
}

impl View for Structure {
    type V = u64;

    closed spec fn view(&self) -> u64 {
        self.handle
    }
}

impl Structure {
    /// The structure container with the given handle.
    pub fn from_handle(handle: u64) -> (r: Self)
        ensures
            r@ == handle,
    {
        Structure { handle }
    }

    /// The handle of the structure container.
    pub fn handle(&self) -> (r: u64)
        ensures
            r == self@,
    {
        self.handle
    }
}

} // verus!
