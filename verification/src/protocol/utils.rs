//! Helpers for the results of SAP NetWeaver RFC calls.
use vstd::prelude::*;

use crate::protocol::enums::ReturnCode;
use crate::protocol::types::error::{error_describes, RfcError, RfcErrorInfo, RfcResult};

verus! {

/// Turns the error information block that an RFC call filled into a result: `Ok` when
/// its code is `OK`, else the error that it describes.
pub fn check_rc(error_info: &RfcErrorInfo) -> (r: RfcResult<()>)
    ensures
        r is Ok <==> error_info.code == ReturnCode::OK,
        r matches Err(e) ==> error_describes(e, *error_info),
{
    match error_info.code {
        ReturnCode::OK => Ok(()),
        _ => Err(RfcError::from_info(error_info)),
    }
}

} // verus!
