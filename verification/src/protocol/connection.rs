use vstd::prelude::*;

use crate::protocol::enums::ReturnCode;
use crate::protocol::function_description::FunctionDescription;
use crate::protocol::types::connection_attributes::{ConnectionAttributes, RfcAttributes};
use crate::protocol::types::connection_parameter::ConnectionParameters;
use crate::protocol::types::error::{error_describes, RfcError, RfcErrorInfo, RfcResult};
use crate::protocol::types::type_description::TypeDescription;
use crate::protocol::utils::check_rc;

verus! {

/// An RFC connection: the parameters it is opened with and the handle of the library
/// (`0` while the connection is closed).
///
/// The calls that talk to the partner system are made by the caller; the connection
/// takes their outcome, the handle and the error information block that the library
/// returned, and keeps its state accordingly.
#[derive(Debug)]
pub struct Connection {
    params: ConnectionParameters,
    handle: u64,
}

impl View for Connection {
    type V = (Seq<(Seq<u16>, Seq<u16>)>, u64);

    closed spec fn view(&self) -> (Seq<(Seq<u16>, Seq<u16>)>, u64) {
        (self.params@, self.handle)
    }
}

impl Connection {
    /// The connection opened with `params`, given the handle and the error information
    /// that opening it returned: the connection where the code is `OK`, else the error
    /// that the information describes.
    pub fn open(params: ConnectionParameters, handle: u64, error_info: &RfcErrorInfo) -> (r:
        RfcResult<Self>)
        ensures
            r is Ok <==> error_info.code == ReturnCode::OK,
            r matches Ok(c) ==> c@ == (params@, handle),
            r matches Err(e) ==> error_describes(e, *error_info),
    {
        let mut result = Self { params, handle: 0 };
        result._open(handle, error_info)?;
        Ok(result)
    }

    /// Takes the outcome of opening the connection: the handle is kept where the code is
    /// `OK`.
    fn _open(&mut self, handle: u64, error_info: &RfcErrorInfo) -> (r: RfcResult<()>)
        ensures
            r is Ok <==> error_info.code == ReturnCode::OK,
            r is Ok ==> final(self)@ == (old(self)@.0, handle),
            r matches Err(e) ==> error_describes(e, *error_info) && final(self)@ == old(self)@,
    {
        match check_rc(error_info) {
            Ok(_) => {
                self.handle = handle;
                Ok(())
            },
            Err(e) => Err(e),
        }
    }

    /// Whether the connection is open: its handle is not null.
    pub fn is_alive(&self) -> (r: bool)
        ensures
            r == (self@.1 != 0),
    {
        self.handle != 0
    }

    /// The handle of the connection (`0` while it is closed).
    pub fn handle(&self) -> (r: u64)
        ensures
            r == self@.1,
    {
        self.handle
    }

    /// The parameters the connection is opened with.
    pub fn params(&self) -> (r: &ConnectionParameters)
        ensures
            r@ == self@.0,
    {
        &self.params
    }

    /// Closes the connection, given the error information that closing its handle
    /// returned. A closed connection stays closed and the information is not consulted;
    /// otherwise the handle is dropped where the code is `OK`, and the error is returned
    /// where it is not.
    pub fn close(&mut self, error_info: &RfcErrorInfo) -> (r: RfcResult<()>)
        ensures
            final(self)@.0 == old(self)@.0,
            old(self)@.1 == 0 ==> r is Ok && final(self)@ == old(self)@,
            old(self)@.1 != 0 ==> (r is Ok <==> error_info.code == ReturnCode::OK),
            old(self)@.1 != 0 && r is Ok ==> final(self)@.1 == 0,
            old(self)@.1 != 0 ==> (r matches Err(e) ==> error_describes(e, *error_info)
                && final(self)@ == old(self)@),
    {
        if !self.is_alive() {
            return Ok(());
        }
        check_rc(error_info)?;
        self.handle = 0;
        Ok(())
    }

    /// Closes and opens the connection again, given the error information that closing
    /// returned and the handle and error information that opening returned.
    pub fn reopen(&mut self, close_info: &RfcErrorInfo, handle: u64, open_info: &RfcErrorInfo) -> (r:
        RfcResult<()>)
        ensures
            final(self)@.0 == old(self)@.0,
            old(self)@.1 != 0 && close_info.code != ReturnCode::OK ==> (r matches Err(e)
                && error_describes(e, *close_info)) && final(self)@ == old(self)@,
            old(self)@.1 == 0 || close_info.code == ReturnCode::OK ==> {
                &&& r is Ok <==> open_info.code == ReturnCode::OK
                &&& r is Ok ==> final(self)@.1 == handle
                &&& r matches Err(e) ==> error_describes(e, *open_info) && final(self)@.1 == 0
            },
    {
        self.close(close_info)?;
        self._open(handle, open_info)
    }

    /// Cancels the call running over the connection and closes it, given the error
    /// information that cancelling returned; as [`Connection::close`].
    pub fn cancel(&mut self, error_info: &RfcErrorInfo) -> (r: RfcResult<()>)
        ensures
            final(self)@.0 == old(self)@.0,
            old(self)@.1 == 0 ==> r is Ok && final(self)@ == old(self)@,
            old(self)@.1 != 0 ==> (r is Ok <==> error_info.code == ReturnCode::OK),
            old(self)@.1 != 0 && r is Ok ==> final(self)@.1 == 0,
            old(self)@.1 != 0 ==> (r matches Err(e) ==> error_describes(e, *error_info)
                && final(self)@ == old(self)@),
    {
        if !self.is_alive() {
            return Ok(());
        }
        check_rc(error_info)?;
        self.handle = 0;
        Ok(())
    }

    /// The answer to a ping of the partner, given the code and the error information
    /// that the ping returned: `Ok` where the code is `OK`, else the error that the
    /// information describes.
    pub fn ping(&self, rc: ReturnCode, error_info: &RfcErrorInfo) -> (r: RfcResult<()>)
        ensures
            r is Ok <==> rc == ReturnCode::OK,
            r matches Err(e) ==> error_describes(e, *error_info),
    {
        match rc {
            ReturnCode::OK => Ok(()),
            _ => Err(RfcError::from_info(error_info)),
        }
    }

    /// The attributes of the connection, given the attributes block and the error
    /// information that reading them returned.
    pub fn attributes(&self, attributes: RfcAttributes, error_info: &RfcErrorInfo) -> (r:
        RfcResult<ConnectionAttributes>)
        ensures
            r is Ok <==> error_info.code == ReturnCode::OK,
            r matches Ok(a) ==> a@ == attributes,
            r matches Err(e) ==> error_describes(e, *error_info),
    {
        match check_rc(error_info) {
            Err(e) => Err(e),
            Ok(_) => Ok(ConnectionAttributes::from_attrs(attributes)),
        }
    }

    /// The description of a structure or table type of the partner system, given the
    /// description and the error information that looking it up returned.
    pub fn describe_type<'a>(&self, desc: TypeDescription<'a>, error_info: &RfcErrorInfo) -> (r:
        RfcResult<TypeDescription<'a>>)
        ensures
            r is Ok <==> error_info.code == ReturnCode::OK,
            r matches Ok(d) ==> d@ == desc@,
            r matches Err(e) ==> error_describes(e, *error_info),
    {
        match check_rc(error_info) {
            Ok(_) => Ok(desc),
            Err(e) => Err(e),
        }
    }

    /// The description of a function module of the partner system, given the
    /// description and the error information that looking it up returned.
    pub fn describe_function<'a>(
        &self,
        desc: FunctionDescription<'a>,
        error_info: &RfcErrorInfo,
    ) -> (r: RfcResult<FunctionDescription<'a>>)
        ensures
            r is Ok <==> error_info.code == ReturnCode::OK,
            r matches Ok(d) ==> d@ == desc@,
            r matches Err(e) ==> error_describes(e, *error_info),
    {
        check_rc(error_info)?;
        Ok(desc)
    }
}

} // verus!
