//! The abstraction layer of the RFC protocol: metadata descriptions, value types and
//! the conversions between Rust strings and SAP unicode buffers.
pub mod connection;
pub mod enums;
pub mod function;
pub mod function_description;
pub mod structure;
pub mod text;
pub mod types;
pub mod uc_str;
pub mod uc_string;

pub mod utils;

pub use connection::Connection;
pub use enums::{
    AuthenticationType, CallType, ClassAttributeType, ErrorGroup, InvalidTraceLevel,
    MetadataObjectType, ParameterDirection, ProtocolType, ReturnCode, RfcType, ServerState,
    SessionEvent, TraceLevel, Type, UnitState,
};
pub use function::Function;
pub use function_description::{ExceptionIterator, FuncDesc, FunctionDescription, ParameterIterator};
pub use structure::Structure;
pub use types::connection_attributes::{ConnectionAttributes, RfcAttributes};
pub use types::connection_parameter::{
    ConnectionParameterIterator, ConnectionParameters, RfcConnectionParameter,
};
pub use types::date_time::{
    Date, InvalidDateError, InvalidDateTypes, InvalidTimeError, InvalidTimeTypes, RfcDate, RfcTime,
    Time,
};
pub use types::error::{RfcError, RfcErrorInfo, RfcResult};
pub use types::exception::{ExceptionDescription, RfcExceptionDesc};
pub use types::field_description::FieldDescription;
pub use types::ids::{RfcUnitIdentifier, TransactionID, UnitID, UnitIdentifier};
pub use types::parameter_description::ParameterDescription;
pub use types::type_description::{TypeDesc, TypeDescription, TypeIter};
pub use uc_str::{SapUc, UCStr};
pub use uc_string::UCString;
