use vstd::prelude::*;

use crate::protocol::enums::{ErrorGroup, ReturnCode};
use crate::protocol::uc_str::{
    fits_with_nul, has_no_nul, lemma_written_with_nul_text, uc_chars, written_with_nul, UCStr,
};

verus! {

/// Detailed information about the error that has occurred.
///
/// Used in all functions of the NW RFC library to return detailed information about
/// an error that has just occurred. This can be an error that the communication partner
/// sent back to us, an error that occurred in the network layer or operating system,
/// an internal error in the NW RFC library or an error that the application programmer
/// (i.e. you) has committed...
#[derive(Debug, Clone)]
pub struct RfcError {
    /// Error code.
    pub code: ReturnCode,
    /// Error group.
    pub group: ErrorGroup,
    /// Error key
    pub key: String,
    /// Error message
    pub message: String,
    /// ABAP message ID, or class
    pub abap_msg_class: String,
    /// ABAP message type, e.g. 'E', 'A', or 'X'
    pub abap_msg_type: String,
    /// ABAP message number
    pub abap_msg_number: String,
    /// ABAP message details field 1, corresponds to SY-MSGV1
    pub abap_msg_v1: String,
    /// ABAP message details field 2, corresponds to SY-MSGV2
    pub abap_msg_v2: String,
    /// ABAP message details field 3, corresponds to SY-MSGV3
    pub abap_msg_v3: String,
    /// ABAP message details field 4, corresponds to SY-MSGV4
    pub abap_msg_v4: String,
}

/// Result returned by all SAP NetWeaver RFC functions.
///
/// This result either contains the generic type `T` in case the execution
/// as successful. Or it returns a [`RfcError`] which will describe the actual
/// error that has happened and give additional information about that error.
pub type RfcResult<T> = Result<T, RfcError>;

/// The error information block of the SAP NetWeaver RFC library (`RFC_ERROR_INFO`):
/// the texts are fixed-size, nul-terminated SAP unicode buffers.
#[derive(Debug, Clone, Copy)]
pub struct RfcErrorInfo {
    /// Error code.
    pub code: ReturnCode,
    /// Error group.
    pub group: ErrorGroup,
    /// Error key.
    pub key: [u16; 128],
    /// Error message.
    pub message: [u16; 512],
    /// ABAP message ID, or class.
    pub abap_msg_class: [u16; 21],
    /// ABAP message type.
    pub abap_msg_type: [u16; 2],
    /// ABAP message number.
    pub abap_msg_number: [u16; 4],
    /// ABAP message details field 1.
    pub abap_msg_v1: [u16; 51],
    /// ABAP message details field 2.
    pub abap_msg_v2: [u16; 51],
    /// ABAP message details field 3.
    pub abap_msg_v3: [u16; 51],
    /// ABAP message details field 4.
    pub abap_msg_v4: [u16; 51],
}

/// Whether `e` is the error that a conversion into a too small SAP unicode buffer
/// reports.
pub open spec fn is_buffer_too_small(e: RfcError) -> bool {
    &&& e.code == ReturnCode::BufferTooSmall
    &&& e.group == ErrorGroup::ExternalRuntimeFailure
    &&& e.key@ == "RFC_BUFFER_TOO_SMALL"@
    &&& e.message@ == "The buffer is too small to hold the converted text"@
    &&& e.abap_msg_class@ == Seq::<char>::empty()
    &&& e.abap_msg_type@ == Seq::<char>::empty()
    &&& e.abap_msg_number@ == Seq::<char>::empty()
    &&& e.abap_msg_v1@ == Seq::<char>::empty()
    &&& e.abap_msg_v2@ == Seq::<char>::empty()
    &&& e.abap_msg_v3@ == Seq::<char>::empty()
    &&& e.abap_msg_v4@ == Seq::<char>::empty()
}

/// Whether `e` is the error that the information block `info` describes: the same code
/// and group, and each text as read up to the first nul of its buffer.
pub open spec fn error_describes(e: RfcError, info: RfcErrorInfo) -> bool {
    &&& e.code == info.code
    &&& e.group == info.group
    &&& e.key@ == uc_chars(info.key@)
    &&& e.message@ == uc_chars(info.message@)
    &&& e.abap_msg_class@ == uc_chars(info.abap_msg_class@)
    &&& e.abap_msg_type@ == uc_chars(info.abap_msg_type@)
    &&& e.abap_msg_number@ == uc_chars(info.abap_msg_number@)
    &&& e.abap_msg_v1@ == uc_chars(info.abap_msg_v1@)
    &&& e.abap_msg_v2@ == uc_chars(info.abap_msg_v2@)
    &&& e.abap_msg_v3@ == uc_chars(info.abap_msg_v3@)
    &&& e.abap_msg_v4@ == uc_chars(info.abap_msg_v4@)
}

/// Whether all texts of `e` fit, with their terminating nul, into the buffers of an error
/// information block.
pub open spec fn error_fits_info(e: RfcError) -> bool {
    &&& fits_with_nul(128, e.key@)
    &&& fits_with_nul(512, e.message@)
    &&& fits_with_nul(21, e.abap_msg_class@)
    &&& fits_with_nul(2, e.abap_msg_type@)
    &&& fits_with_nul(4, e.abap_msg_number@)
    &&& fits_with_nul(51, e.abap_msg_v1@)
    &&& fits_with_nul(51, e.abap_msg_v2@)
    &&& fits_with_nul(51, e.abap_msg_v3@)
    &&& fits_with_nul(51, e.abap_msg_v4@)
}

/// Whether `info` is the information block that holds the error `e`: the same code and
/// group, and each text written with its terminating nul into an otherwise zeroed buffer.
pub open spec fn info_holds_error(info: RfcErrorInfo, e: RfcError) -> bool {
    &&& info.code == e.code
    &&& info.group == e.group
    &&& info.key@ == written_with_nul(zeros(128), e.key@)
    &&& info.message@ == written_with_nul(zeros(512), e.message@)
    &&& info.abap_msg_class@ == written_with_nul(zeros(21), e.abap_msg_class@)
    &&& info.abap_msg_type@ == written_with_nul(zeros(2), e.abap_msg_type@)
    &&& info.abap_msg_number@ == written_with_nul(zeros(4), e.abap_msg_number@)
    &&& info.abap_msg_v1@ == written_with_nul(zeros(51), e.abap_msg_v1@)
    &&& info.abap_msg_v2@ == written_with_nul(zeros(51), e.abap_msg_v2@)
    &&& info.abap_msg_v3@ == written_with_nul(zeros(51), e.abap_msg_v3@)
    &&& info.abap_msg_v4@ == written_with_nul(zeros(51), e.abap_msg_v4@)
}

/// The text that [`RfcError::to_string`] gives: one line per field.
pub open spec fn error_display(e: RfcError) -> Seq<char> {
    "RFC-Error:\n"@ + "\tcode: "@ + e.code.spec_name() + "\n"@ + "\tgroup: "@
        + e.group.spec_name() + "\n"@ + "\tkey: "@ + e.key@ + "\n"@ + "\tmessage: "@
        + e.message@ + "\n"@ + "\tabapMsgClass: "@ + e.abap_msg_class@ + "\n"@
        + "\tabapMsgType: "@ + e.abap_msg_type@ + "\n"@ + "\tabapMsgNumber: "@
        + e.abap_msg_number@ + "\n"@ + "\tabapMsgV1: "@ + e.abap_msg_v1@ + "\n"@
        + "\tabapMsgV2: "@ + e.abap_msg_v2@ + "\n"@ + "\tabapMsgV3: "@ + e.abap_msg_v3@
        + "\n"@ + "\tabapMsgV4: "@ + e.abap_msg_v4@ + "\n"@
}

/// Whether `e` is the error that reports an invalid parameter with the given message.
pub open spec fn is_invalid_parameter(e: RfcError, message: Seq<char>) -> bool {
    &&& e.code == ReturnCode::InvalidParameter
    &&& e.group == ErrorGroup::ExternalRuntimeFailure
    &&& e.key@ == "RFC_INVALID_PARAMETER"@
    &&& e.message@ == message
    &&& e.abap_msg_class@ == Seq::<char>::empty()
    &&& e.abap_msg_type@ == Seq::<char>::empty()
    &&& e.abap_msg_number@ == Seq::<char>::empty()
    &&& e.abap_msg_v1@ == Seq::<char>::empty()
    &&& e.abap_msg_v2@ == Seq::<char>::empty()
    &&& e.abap_msg_v3@ == Seq::<char>::empty()
    &&& e.abap_msg_v4@ == Seq::<char>::empty()
}

/// A sequence of `n` zero code units.
pub open spec fn zeros(n: nat) -> Seq<u16> {
    Seq::new(n, |i: int| 0u16)
}

impl RfcError {
    /// The error that a conversion into a too small SAP unicode buffer reports.
    pub fn buffer_too_small() -> (r: RfcError)
        ensures
            is_buffer_too_small(r),
    {
        RfcError {
            code: ReturnCode::BufferTooSmall,
            group: ErrorGroup::ExternalRuntimeFailure,
            key: String::from_str("RFC_BUFFER_TOO_SMALL"),
            message: String::from_str("The buffer is too small to hold the converted text"),
            abap_msg_class: String::new(),
            abap_msg_type: String::new(),
            abap_msg_number: String::new(),
            abap_msg_v1: String::new(),
            abap_msg_v2: String::new(),
            abap_msg_v3: String::new(),
            abap_msg_v4: String::new(),
        }
    }

    /// The error that reports an invalid parameter, with the given message.
    pub fn invalid_parameter(message: &str) -> (r: RfcError)
        ensures
            is_invalid_parameter(r, message@),
    {
        RfcError {
            code: ReturnCode::InvalidParameter,
            group: ErrorGroup::ExternalRuntimeFailure,
            key: String::from_str("RFC_INVALID_PARAMETER"),
            message: String::from_str(message),
            abap_msg_class: String::new(),
            abap_msg_type: String::new(),
            abap_msg_number: String::new(),
            abap_msg_v1: String::new(),
            abap_msg_v2: String::new(),
            abap_msg_v3: String::new(),
            abap_msg_v4: String::new(),
        }
    }

    /// The error described by an error information block: code and group are taken
    /// over, and each text is read up to its first nul.
    pub fn from_info(value: &RfcErrorInfo) -> (r: RfcError)
        ensures
            error_describes(r, *value),
    {
        RfcError {
            code: value.code,
            group: value.group,
            key: UCStr::slice_to_string_lossy(&value.key),
            message: UCStr::slice_to_string_lossy(&value.message),
            abap_msg_class: UCStr::slice_to_string_lossy(&value.abap_msg_class),
            abap_msg_type: UCStr::slice_to_string_lossy(&value.abap_msg_type),
            abap_msg_number: UCStr::slice_to_string_lossy(&value.abap_msg_number),
            abap_msg_v1: UCStr::slice_to_string_lossy(&value.abap_msg_v1),
            abap_msg_v2: UCStr::slice_to_string_lossy(&value.abap_msg_v2),
            abap_msg_v3: UCStr::slice_to_string_lossy(&value.abap_msg_v3),
            abap_msg_v4: UCStr::slice_to_string_lossy(&value.abap_msg_v4),
        }
    }
}

impl Default for RfcError {
    fn default() -> (r: Self)
        ensures
            r.code == ReturnCode::OK,
            r.group == ErrorGroup::OK,
            r.key@ == Seq::<char>::empty(),
            r.message@ == Seq::<char>::empty(),
            r.abap_msg_class@ == Seq::<char>::empty(),
            r.abap_msg_type@ == Seq::<char>::empty(),
            r.abap_msg_number@ == Seq::<char>::empty(),
            r.abap_msg_v1@ == Seq::<char>::empty(),
            r.abap_msg_v2@ == Seq::<char>::empty(),
            r.abap_msg_v3@ == Seq::<char>::empty(),
            r.abap_msg_v4@ == Seq::<char>::empty(),
    {
        RfcError {
            code: ReturnCode::OK,
            group: ErrorGroup::OK,
            key: String::new(),
            message: String::new(),
            abap_msg_class: String::new(),
            abap_msg_type: String::new(),
            abap_msg_number: String::new(),
            abap_msg_v1: String::new(),
            abap_msg_v2: String::new(),
            abap_msg_v3: String::new(),
            abap_msg_v4: String::new(),
        }
    }
}

impl RfcError {
    /// A multi-line description of the error: its code, group and texts.
    pub fn to_string(&self) -> (r: String)
        ensures
            r@ == error_display(*self),
    {
        let mut s = String::from_str("RFC-Error:\n");
        s.append("\tcode: ");
        s.append(self.code.to_string().as_str());
        s.append("\n");
        s.append("\tgroup: ");
        s.append(self.group.to_string().as_str());
        s.append("\n");
        s.append("\tkey: ");
        s.append(self.key.as_str());
        s.append("\n");
        s.append("\tmessage: ");
        s.append(self.message.as_str());
        s.append("\n");
        s.append("\tabapMsgClass: ");
        s.append(self.abap_msg_class.as_str());
        s.append("\n");
        s.append("\tabapMsgType: ");
        s.append(self.abap_msg_type.as_str());
        s.append("\n");
        s.append("\tabapMsgNumber: ");
        s.append(self.abap_msg_number.as_str());
        s.append("\n");
        s.append("\tabapMsgV1: ");
        s.append(self.abap_msg_v1.as_str());
        s.append("\n");
        s.append("\tabapMsgV2: ");
        s.append(self.abap_msg_v2.as_str());
        s.append("\n");
        s.append("\tabapMsgV3: ");
        s.append(self.abap_msg_v3.as_str());
        s.append("\n");
        s.append("\tabapMsgV4: ");
        s.append(self.abap_msg_v4.as_str());
        s.append("\n");
        s
    }
}

impl Default for RfcErrorInfo {
    fn default() -> (r: Self)
        ensures
            r.code == ReturnCode::OK,
            r.group == ErrorGroup::OK,
            r.key@ == zeros(128),
            r.message@ == zeros(512),
            r.abap_msg_class@ == zeros(21),
            r.abap_msg_type@ == zeros(2),
            r.abap_msg_number@ == zeros(4),
            r.abap_msg_v1@ == zeros(51),
            r.abap_msg_v2@ == zeros(51),
            r.abap_msg_v3@ == zeros(51),
            r.abap_msg_v4@ == zeros(51),
    {
        let r = RfcErrorInfo {
            code: ReturnCode::OK,
            group: ErrorGroup::OK,
            key: [0u16; 128],
            message: [0u16; 512],
            abap_msg_class: [0u16; 21],
            abap_msg_type: [0u16; 2],
            abap_msg_number: [0u16; 4],
            abap_msg_v1: [0u16; 51],
            abap_msg_v2: [0u16; 51],
            abap_msg_v3: [0u16; 51],
            abap_msg_v4: [0u16; 51],
        };
        assert(r.key@ =~= zeros(128));
        assert(r.message@ =~= zeros(512));
        assert(r.abap_msg_class@ =~= zeros(21));
        assert(r.abap_msg_type@ =~= zeros(2));
        assert(r.abap_msg_number@ =~= zeros(4));
        assert(r.abap_msg_v1@ =~= zeros(51));
        assert(r.abap_msg_v2@ =~= zeros(51));
        assert(r.abap_msg_v3@ =~= zeros(51));
        assert(r.abap_msg_v4@ =~= zeros(51));
        r
    }
}

impl RfcErrorInfo {
    /// The error information block that holds `value`: code and group are taken over and
    /// each text is written with a terminating nul into its buffer. Fails where a text
    /// does not fit into its buffer.
    pub fn try_from_error(value: &RfcError) -> (r: Result<RfcErrorInfo, RfcError>)
        ensures
            r is Ok <==> error_fits_info(*value),
            r matches Ok(info) ==> info_holds_error(info, *value),
            r matches Err(e) ==> is_buffer_too_small(e),
    {
        let mut result = RfcErrorInfo::default();
        result.code = value.code;
        result.group = value.group;
        UCStr::write_slice(&mut result.key, value.key.as_str())?;
        UCStr::write_slice(&mut result.message, value.message.as_str())?;
        UCStr::write_slice(&mut result.abap_msg_class, value.abap_msg_class.as_str())?;
        UCStr::write_slice(&mut result.abap_msg_type, value.abap_msg_type.as_str())?;
        UCStr::write_slice(&mut result.abap_msg_number, value.abap_msg_number.as_str())?;
        UCStr::write_slice(&mut result.abap_msg_v1, value.abap_msg_v1.as_str())?;
        UCStr::write_slice(&mut result.abap_msg_v2, value.abap_msg_v2.as_str())?;
        UCStr::write_slice(&mut result.abap_msg_v3, value.abap_msg_v3.as_str())?;
        UCStr::write_slice(&mut result.abap_msg_v4, value.abap_msg_v4.as_str())?;
        Ok(result)
    }
}

/// Converting an error to an error information block and reading it back gives the same
/// error, where every text fits into its buffer and holds no nul character.
pub proof fn lemma_error_info_roundtrip(e: RfcError, info: RfcErrorInfo, back: RfcError)
    requires
        error_fits_info(e),
        has_no_nul(e.key@),
        has_no_nul(e.message@),
        has_no_nul(e.abap_msg_class@),
        has_no_nul(e.abap_msg_type@),
        has_no_nul(e.abap_msg_number@),
        has_no_nul(e.abap_msg_v1@),
        has_no_nul(e.abap_msg_v2@),
        has_no_nul(e.abap_msg_v3@),
        has_no_nul(e.abap_msg_v4@),
        info_holds_error(info, e),
        error_describes(back, info),
    ensures
        back.code == e.code,
        back.group == e.group,
        back.key@ == e.key@,
        back.message@ == e.message@,
        back.abap_msg_class@ == e.abap_msg_class@,
        back.abap_msg_type@ == e.abap_msg_type@,
        back.abap_msg_number@ == e.abap_msg_number@,
        back.abap_msg_v1@ == e.abap_msg_v1@,
        back.abap_msg_v2@ == e.abap_msg_v2@,
        back.abap_msg_v3@ == e.abap_msg_v3@,
        back.abap_msg_v4@ == e.abap_msg_v4@,
{
    lemma_written_with_nul_text(zeros(128), e.key@);
    lemma_written_with_nul_text(zeros(512), e.message@);
    lemma_written_with_nul_text(zeros(21), e.abap_msg_class@);
    lemma_written_with_nul_text(zeros(2), e.abap_msg_type@);
    lemma_written_with_nul_text(zeros(4), e.abap_msg_number@);
    lemma_written_with_nul_text(zeros(51), e.abap_msg_v1@);
    lemma_written_with_nul_text(zeros(51), e.abap_msg_v2@);
    lemma_written_with_nul_text(zeros(51), e.abap_msg_v3@);
    lemma_written_with_nul_text(zeros(51), e.abap_msg_v4@);
}

} // verus!
