//! Enumerations of the SAP NetWeaver RFC protocol.
//!
//! All of them can be turned into the name of their value with `to_string`.
use vstd::prelude::*;

use crate::protocol::text::{decimal, decimal_string};
use crate::protocol::types::type_description::TypeDesc;
use crate::protocol::uc_str::uc_chars;

verus! {

/// Return codes used by the SAP NetWeaver RFC functions.
///
/// Return codes are used by all functions that do not directly return a handle.
/// Also used as error indicator in the structure [`RfcError::code`].
///
/// [`RfcError::code`]: crate::protocol::RfcError::code
#[derive(Debug, Copy, Clone, PartialEq, Eq, Structural, Hash)]
pub enum ReturnCode {
    /// Everything O.K. Used by every function
    OK,
    /// Error in Network & Communication layer
    CommunicationFailure,
    /// Unable to logon to SAP system. Invalid password, user locked, etc.
    LogonFailure,
    /// SAP system runtime error (SYSTEM_FAILURE): Shortdump on the backend side
    ABAPRuntimeFailure,
    /// The called function module raised an E-, A- or X-Message
    ABAPMessage,
    /// The called function module raised an Exception (RAISE or MESSAGE ... RAISING)
    ABAPException,
    /// Connection closed by the other side
    Closed,
    /// No longer used
    Canceled,
    /// The operation timed out
    Timeout,
    /// Memory insufficient
    MemoryInsuffcient,
    /// Version mismatch
    VersionMismatch,
    /// The received data has an unsupported format
    InvalidProtocol,
    /// A problem while serializing or deserializing RFM parameters
    SerializationFailure,
    /// An invalid handle was passed to an API call
    InvalidHandle,
    /// RfcListenAndDispatch did not receive an RFC request during the timeout period
    Retry,
    /// Error in external custom code. (E.g. in the function handlers or tRFC handlers.)
    /// Results in SYSTEM_FAILURE
    ExternalFailure,
    /// Inbound tRFC Call already executed (needs to be returned from RFC_ON_CHECK_TRANSACTION
    /// in case the TID is already known and successfully processed before.)
    Executed,
    /// Function or structure definition not found (Metadata API)
    NotFound,
    /// The operation is not supported on that handle
    NotSupported,
    /// The operation is not supported on that handle at the current point of time
    /// (e.g. trying a callback on a server handle, while not in a call)
    IllegalState,
    /// An invalid parameter was passed to an API call, (e.g. invalid name, type or length)
    InvalidParameter,
    /// Codepage conversion error
    CodepageConversionFailure,
    /// Error while converting a parameter to the correct data type
    ConversionFailure,
    /// The given buffer was to small to hold the entire parameter. Data has been truncated.
    BufferTooSmall,
    /// Trying to move the current position before the first row of the table
    TableMoveBOF,
    /// Trying to move the current position after the last row of the table
    TableMoveEOF,
    /// Failed to start and attach SAPGUI to the RFC connection
    StartSAPGUIFailure,
    /// The called function module raised a class based exception
    ABAPClassException,
    /// "Something" went wrong, but I don't know what...
    UnknownError,
    /// Authorization check error
    AuthorizationFailure,
    /// The authentication handler (RFC_ON_AUTHENTICATION_CHECK) failed to authenticate
    /// the user trying to log on
    AuthenticationFailure,
    /// Error when dealing with functions provided by the cryptolibrary
    CryptolibFailure,
    /// Error when dealing with io functions, streams etc
    IOFailure,
    /// Requesting or freeing critical sections or mutex failed
    LockingFailure,
    /// Don't use
    _MaxValure,
}

impl ReturnCode {
    /// The name of the value.
    pub open spec fn spec_name(self) -> Seq<char> {
        match self {
            ReturnCode::OK => "Ok"@,
            ReturnCode::CommunicationFailure => "CommunicationFailure"@,
            ReturnCode::LogonFailure => "LogonFailure"@,
            ReturnCode::ABAPRuntimeFailure => "ABAPRuntimeFailure"@,
            ReturnCode::ABAPMessage => "ABAPMessage"@,
            ReturnCode::ABAPException => "ABAPException"@,
            ReturnCode::Closed => "Closed"@,
            ReturnCode::Canceled => "Canceled"@,
            ReturnCode::Timeout => "Timeout"@,
            ReturnCode::MemoryInsuffcient => "MemoryInsuffcient"@,
            ReturnCode::VersionMismatch => "VersionMismatch"@,
            ReturnCode::InvalidProtocol => "InvalidProtocol"@,
            ReturnCode::SerializationFailure => "SerializationFailure"@,
            ReturnCode::InvalidHandle => "InvalidHandle"@,
            ReturnCode::Retry => "Retry"@,
            ReturnCode::ExternalFailure => "ExternalFailure"@,
            ReturnCode::Executed => "Executed"@,
            ReturnCode::NotFound => "NotFound"@,
            ReturnCode::NotSupported => "NotSupported"@,
            ReturnCode::IllegalState => "IllegalState"@,
            ReturnCode::InvalidParameter => "InvalidParameter"@,
            ReturnCode::CodepageConversionFailure => "CodepageConversionFailure"@,
            ReturnCode::ConversionFailure => "ConversionFailure"@,
            ReturnCode::BufferTooSmall => "BufferTooSmall"@,
            ReturnCode::TableMoveBOF => "TableMoveBOF"@,
            ReturnCode::TableMoveEOF => "TableMoveEOF"@,
            ReturnCode::StartSAPGUIFailure => "StartSAPGUIFailure"@,
            ReturnCode::ABAPClassException => "ABAPClassException"@,
            ReturnCode::UnknownError => "UnknownError"@,
            ReturnCode::AuthorizationFailure => "AuthorizationFailure"@,
            ReturnCode::AuthenticationFailure => "AuthenticationFailure"@,
            ReturnCode::CryptolibFailure => "CryptolibFailure"@,
            ReturnCode::IOFailure => "IOFailure"@,
            ReturnCode::LockingFailure => "LockingFailure"@,
            ReturnCode::_MaxValure => "_MaxValure"@,
        }
    }

    /// Returns the name of the value.
    pub fn to_string(&self) -> (r: String)
        ensures
            r@ == self.spec_name(),
    {
        match self {
            ReturnCode::OK => String::from_str("Ok"),
            ReturnCode::CommunicationFailure => String::from_str("CommunicationFailure"),
            ReturnCode::LogonFailure => String::from_str("LogonFailure"),
            ReturnCode::ABAPRuntimeFailure => String::from_str("ABAPRuntimeFailure"),
            ReturnCode::ABAPMessage => String::from_str("ABAPMessage"),
            ReturnCode::ABAPException => String::from_str("ABAPException"),
            ReturnCode::Closed => String::from_str("Closed"),
            ReturnCode::Canceled => String::from_str("Canceled"),
            ReturnCode::Timeout => String::from_str("Timeout"),
            ReturnCode::MemoryInsuffcient => String::from_str("MemoryInsuffcient"),
            ReturnCode::VersionMismatch => String::from_str("VersionMismatch"),
            ReturnCode::InvalidProtocol => String::from_str("InvalidProtocol"),
            ReturnCode::SerializationFailure => String::from_str("SerializationFailure"),
            ReturnCode::InvalidHandle => String::from_str("InvalidHandle"),
            ReturnCode::Retry => String::from_str("Retry"),
            ReturnCode::ExternalFailure => String::from_str("ExternalFailure"),
            ReturnCode::Executed => String::from_str("Executed"),
            ReturnCode::NotFound => String::from_str("NotFound"),
            ReturnCode::NotSupported => String::from_str("NotSupported"),
            ReturnCode::IllegalState => String::from_str("IllegalState"),
            ReturnCode::InvalidParameter => String::from_str("InvalidParameter"),
            ReturnCode::CodepageConversionFailure => String::from_str("CodepageConversionFailure"),
            ReturnCode::ConversionFailure => String::from_str("ConversionFailure"),
            ReturnCode::BufferTooSmall => String::from_str("BufferTooSmall"),
            ReturnCode::TableMoveBOF => String::from_str("TableMoveBOF"),
            ReturnCode::TableMoveEOF => String::from_str("TableMoveEOF"),
            ReturnCode::StartSAPGUIFailure => String::from_str("StartSAPGUIFailure"),
            ReturnCode::ABAPClassException => String::from_str("ABAPClassException"),
            ReturnCode::UnknownError => String::from_str("UnknownError"),
            ReturnCode::AuthorizationFailure => String::from_str("AuthorizationFailure"),
            ReturnCode::AuthenticationFailure => String::from_str("AuthenticationFailure"),
            ReturnCode::CryptolibFailure => String::from_str("CryptolibFailure"),
            ReturnCode::IOFailure => String::from_str("IOFailure"),
            ReturnCode::LockingFailure => String::from_str("LockingFailure"),
            ReturnCode::_MaxValure => String::from_str("_MaxValure"),
        }
    }
}

/// Error groups used by the SAP NetWeaver RFC functions.
///
/// Groups several error conditions together, depending on the "layer" to which they belong.
/// Used in the structure [`RfcError::group`].
///
/// [`RfcError::group`]: crate::protocol::RfcError::group
#[derive(Debug, Copy, Clone, PartialEq, Eq, Structural, Hash)]
pub enum ErrorGroup {
    /// OK
    OK,
    /// ABAP Exception raised in ABAP function modules
    ABAPApplicationFailure,
    /// ABAP Message raised in ABAP function modules or
    /// in ABAP runtime of the backend (e.g Kernel)
    ABAPRuntimeFailure,
    /// Error message raised when logon fails
    LogonFailure,
    /// Problems with the network connection (or backend broke down and killed the connection)
    CommunicationFailure,
    /// Problems in the RFC runtime of the external program (i.e "this" library)
    ExternalRuntimeFailure,
    /// Problems in the external program (e.g in the external server implementation)
    ExternalApplicationFailure,
    /// Problems raised in the authorization check handler provided by
    /// the external server implementation
    ExternalAuthorizationFailure,
    /// Problems raised by the authentication handler (RFC_ON_AUTHENTICATION_CHECK)
    ExtenralAuthenticationFailure,
    /// Problems when dealing with functions provided by the cryptolibrary
    CryptolibFailure,
    /// Requesting or freeing critical sections or mutex failed
    LockingFailure,
}

impl ErrorGroup {
    /// The name of the value.
    pub open spec fn spec_name(self) -> Seq<char> {
        match self {
            ErrorGroup::OK => "Ok"@,
            ErrorGroup::ABAPApplicationFailure => "ABAPApplicationFailure"@,
            ErrorGroup::ABAPRuntimeFailure => "ABAPRuntimeFailure"@,
            ErrorGroup::LogonFailure => "LogonFailure"@,
            ErrorGroup::CommunicationFailure => "CommunicationFailure"@,
            ErrorGroup::ExternalRuntimeFailure => "ExternalRuntimeFailure"@,
            ErrorGroup::ExternalApplicationFailure => "ExternalApplicationFailure"@,
            ErrorGroup::ExternalAuthorizationFailure => "ExternalAuthorizationFailure"@,
            ErrorGroup::ExtenralAuthenticationFailure => "ExtenralAuthenticationFailure"@,
            ErrorGroup::CryptolibFailure => "CryptolibFailure"@,
            ErrorGroup::LockingFailure => "LockingFailure"@,
        }
    }

    /// Returns the name of the value.
    pub fn to_string(&self) -> (r: String)
        ensures
            r@ == self.spec_name(),
    {
        match self {
            ErrorGroup::OK => String::from_str("Ok"),
            ErrorGroup::ABAPApplicationFailure => String::from_str("ABAPApplicationFailure"),
            ErrorGroup::ABAPRuntimeFailure => String::from_str("ABAPRuntimeFailure"),
            ErrorGroup::LogonFailure => String::from_str("LogonFailure"),
            ErrorGroup::CommunicationFailure => String::from_str("CommunicationFailure"),
            ErrorGroup::ExternalRuntimeFailure => String::from_str("ExternalRuntimeFailure"),
            ErrorGroup::ExternalApplicationFailure => String::from_str("ExternalApplicationFailure"),
            ErrorGroup::ExternalAuthorizationFailure => String::from_str("ExternalAuthorizationFailure"),
            ErrorGroup::ExtenralAuthenticationFailure => String::from_str("ExtenralAuthenticationFailure"),
            ErrorGroup::CryptolibFailure => String::from_str("CryptolibFailure"),
            ErrorGroup::LockingFailure => String::from_str("LockingFailure"),
        }
    }
}

/// Processing status of a logical unit of work (LUW).
///
/// Used for inquiring the processing status of a background unit that
/// we (or someone else) sent into the backend.
#[derive(Debug, Copy, Clone, PartialEq, Eq, Structural, Hash)]
pub enum UnitState {
    /// No information for this unit ID and unit type can be found in the target system.
    /// If you are sure, that target system, unit ID and unit type are correct,
    /// it means that your previous attempt did not even reach the target system.
    /// Send the unit again. However, if you get this status after the Confirm step has
    /// already been executed, it means that everything is ok. Don't re-execute in this case!
    UnitNotFound,
    /// Backend system is still in the process of persisting (or executing if type 'T')
    /// the payload data. Give it some more time and check the state again later.
    UnitInProcress,
    /// Data has been persisted (or executed if type 'T') ok on receiver side.
    /// Confirm event may now be triggered.
    UnitCommitted,
    /// An error of any type has occurred. Unit needs to be resent.
    UnitRolledBack,
    /// Temporary state between the Confirm event and the time, when the status data
    /// will be erased for good. Nothing to be done.
    UnitConfirmed,
}

impl UnitState {
    /// The name of the value.
    pub open spec fn spec_name(self) -> Seq<char> {
        match self {
            UnitState::UnitNotFound => "UnitNotFound"@,
            UnitState::UnitInProcress => "UnitInProcress"@,
            UnitState::UnitCommitted => "UnitCommitted"@,
            UnitState::UnitRolledBack => "UnitRolledBack"@,
            UnitState::UnitConfirmed => "UnitConfirmed"@,
        }
    }

    /// Returns the name of the value.
    pub fn to_string(&self) -> (r: String)
        ensures
            r@ == self.spec_name(),
    {
        match self {
            UnitState::UnitNotFound => String::from_str("UnitNotFound"),
            UnitState::UnitInProcress => String::from_str("UnitInProcress"),
            UnitState::UnitCommitted => String::from_str("UnitCommitted"),
            UnitState::UnitRolledBack => String::from_str("UnitRolledBack"),
            UnitState::UnitConfirmed => String::from_str("UnitConfirmed"),
        }
    }
}

/// The type of an incoming function call from the backend.
#[derive(Debug, Copy, Clone, PartialEq, Eq, Structural, Hash)]
pub enum CallType {
    /// It's a standard synchronous RFC call.
    Synchronous,
    /// This function call is part of a transactional LUW (tRFC).
    Transactional,
    /// This function call is part of a queued LUW (qRFC).
    Queued,
    /// This function call is part of a background LUW (bgRFC).
    BackgroundUnit,
}

impl CallType {
    /// The name of the value.
    pub open spec fn spec_name(self) -> Seq<char> {
        match self {
            CallType::Synchronous => "Synchronous"@,
            CallType::Transactional => "Transactional"@,
            CallType::Queued => "Queued"@,
            CallType::BackgroundUnit => "BackgroundUnit"@,
        }
    }

    /// Returns the name of the value.
    pub fn to_string(&self) -> (r: String)
        ensures
            r@ == self.spec_name(),
    {
        match self {
            CallType::Synchronous => String::from_str("Synchronous"),
            CallType::Transactional => String::from_str("Transactional"),
            CallType::Queued => String::from_str("Queued"),
            CallType::BackgroundUnit => String::from_str("BackgroundUnit"),
        }
    }
}

/// Type of authentication method used by the backend authentication handler.
#[derive(Debug, Copy, Clone, PartialEq, Eq, Structural, Hash)]
pub enum AuthenticationType {
    /// No authentication data was provided
    NoAuthentication,
    /// Authentication with user and password
    Basic,
    /// Authentication with x509 certificate
    X509,
    /// Authentication with assertion ticket
    SSO,
}

impl AuthenticationType {
    /// The name of the value.
    pub open spec fn spec_name(self) -> Seq<char> {
        match self {
            AuthenticationType::NoAuthentication => "None"@,
            AuthenticationType::Basic => "Basic"@,
            AuthenticationType::X509 => "X509"@,
            AuthenticationType::SSO => "SSO"@,
        }
    }

    /// Returns the name of the value.
    pub fn to_string(&self) -> (r: String)
        ensures
            r@ == self.spec_name(),
    {
        match self {
            AuthenticationType::NoAuthentication => String::from_str("None"),
            AuthenticationType::Basic => String::from_str("Basic"),
            AuthenticationType::X509 => String::from_str("X509"),
            AuthenticationType::SSO => String::from_str("SSO"),
        }
    }
}

/// Used in state information in order to indicate the different types of
/// RFC programs, RFC Server types, etc.
#[derive(Debug, Copy, Clone, PartialEq, Eq, Structural, Hash)]
pub enum ProtocolType {
    /// Unspecified
    Unknown,
    /// RFC Client
    Client,
    /// Started RFC Server
    StartedServer,
    /// Registered RFC Server
    RegisteredServer,
    /// Multi-count registered RFC Server
    MultiCoundRegisteredServer,
    /// TCP Client
    TCPSocketClient,
    /// TCP Server
    TCPSocketServer,
    /// Websocket RFC Client
    WebsocketClient,
    /// Websocket RFC Server
    WebsocketServer,
    /// Websocket RFC Client
    ProxyWebsocketClient,
}

impl ProtocolType {
    /// The name of the value.
    pub open spec fn spec_name(self) -> Seq<char> {
        match self {
            ProtocolType::Unknown => "Unknown"@,
            ProtocolType::Client => "Client"@,
            ProtocolType::StartedServer => "StartedServer"@,
            ProtocolType::RegisteredServer => "RegisteredServer"@,
            ProtocolType::MultiCoundRegisteredServer => "MultiCoundRegisteredServer"@,
            ProtocolType::TCPSocketClient => "TCPSocketClient"@,
            ProtocolType::TCPSocketServer => "TCPSocketServer"@,
            ProtocolType::WebsocketClient => "WebsocketClient"@,
            ProtocolType::WebsocketServer => "WebsocketServer"@,
            ProtocolType::ProxyWebsocketClient => "ProxyWebsocketClient"@,
        }
    }

    /// Returns the name of the value.
    pub fn to_string(&self) -> (r: String)
        ensures
            r@ == self.spec_name(),
    {
        match self {
            ProtocolType::Unknown => String::from_str("Unknown"),
            ProtocolType::Client => String::from_str("Client"),
            ProtocolType::StartedServer => String::from_str("StartedServer"),
            ProtocolType::RegisteredServer => String::from_str("RegisteredServer"),
            ProtocolType::MultiCoundRegisteredServer => String::from_str("MultiCoundRegisteredServer"),
            ProtocolType::TCPSocketClient => String::from_str("TCPSocketClient"),
            ProtocolType::TCPSocketServer => String::from_str("TCPSocketServer"),
            ProtocolType::WebsocketClient => String::from_str("WebsocketClient"),
            ProtocolType::WebsocketServer => String::from_str("WebsocketServer"),
            ProtocolType::ProxyWebsocketClient => String::from_str("ProxyWebsocketClient"),
        }
    }
}

/// Used in state information in order to indicate the current state of an RFC Server.
#[derive(Debug, Copy, Clone, PartialEq, Eq, Structural, Hash)]
pub enum ServerState {
    /// The server object has been created, but nothing has been done with it yet.
    Initial,
    /// The server has been started, but startup is not yet complete.
    Starting,
    /// At least one registration is still able to accept requests, or the server port
    /// is open and listening.
    Running,
    /// All registrations are dead, or the server port could not be opened.
    Broken,
    /// The server is shutting down and still busy processing ongoing requests.
    Stopping,
    /// The server has been stopped and is neither processing nor accepting requests.
    Stopped,
}

impl ServerState {
    /// The name of the value.
    pub open spec fn spec_name(self) -> Seq<char> {
        match self {
            ServerState::Initial => "Initial"@,
            ServerState::Starting => "Starting"@,
            ServerState::Running => "Running"@,
            ServerState::Broken => "Broken"@,
            ServerState::Stopping => "Stopping"@,
            ServerState::Stopped => "Stopped"@,
        }
    }

    /// Returns the name of the value.
    pub fn to_string(&self) -> (r: String)
        ensures
            r@ == self.spec_name(),
    {
        match self {
            ServerState::Initial => String::from_str("Initial"),
            ServerState::Starting => String::from_str("Starting"),
            ServerState::Running => String::from_str("Running"),
            ServerState::Broken => String::from_str("Broken"),
            ServerState::Stopping => String::from_str("Stopping"),
            ServerState::Stopped => String::from_str("Stopped"),
        }
    }
}

/// Notifies a server application whenever a user session gets started or ends.
#[derive(Debug, Copy, Clone, PartialEq, Eq, Structural, Hash)]
pub enum SessionEvent {
    /// A new stateful user session has been created on the server.
    Created,
    /// A function call came in from the backend and started processing.
    Activated,
    /// A function call completed processing.
    Passivated,
    /// A stateful user session has been destroyed.
    Destroyed,
}

impl SessionEvent {
    /// The name of the value.
    pub open spec fn spec_name(self) -> Seq<char> {
        match self {
            SessionEvent::Created => "Created"@,
            SessionEvent::Activated => "Activated"@,
            SessionEvent::Passivated => "Passivated"@,
            SessionEvent::Destroyed => "Destroyed"@,
        }
    }

    /// Returns the name of the value.
    pub fn to_string(&self) -> (r: String)
        ensures
            r@ == self.spec_name(),
    {
        match self {
            SessionEvent::Created => String::from_str("Created"),
            SessionEvent::Activated => String::from_str("Activated"),
            SessionEvent::Passivated => String::from_str("Passivated"),
            SessionEvent::Destroyed => String::from_str("Destroyed"),
        }
    }
}

/// Used in [`ParameterDescription::direction`] for specifying the direction of a
/// function module parameter.
///
/// [`ParameterDescription::direction`]: crate::protocol::ParameterDescription::direction
#[derive(Debug, Copy, Clone, PartialEq, Eq, Structural, Hash)]
pub enum ParameterDirection {
    /// Import parameter. This corresponds to ABAP IMPORTING parameter.
    Import,
    /// Export parameter. This corresponds to ABAP EXPORTING parameter.
    Export,
    /// Import and export parameter. This corresponds to ABAP CHANGING parameter.
    Changing,
    /// Table parameter. This corresponds to ABAP TABLES parameter.
    Tables,
}

impl ParameterDirection {
    /// The name of the value.
    pub open spec fn spec_name(self) -> Seq<char> {
        match self {
            ParameterDirection::Import => "Import"@,
            ParameterDirection::Export => "Export"@,
            ParameterDirection::Changing => "Changing"@,
            ParameterDirection::Tables => "Tables"@,
        }
    }

    /// Returns the name of the value.
    pub fn to_string(&self) -> (r: String)
        ensures
            r@ == self.spec_name(),
    {
        match self {
            ParameterDirection::Import => String::from_str("Import"),
            ParameterDirection::Export => String::from_str("Export"),
            ParameterDirection::Changing => String::from_str("Changing"),
            ParameterDirection::Tables => String::from_str("Tables"),
        }
    }
}

/// Determines the type of an ABAP Object attribute.
#[derive(Debug, Copy, Clone, PartialEq, Eq, Structural, Hash)]
pub enum ClassAttributeType {
    /// Instance attribute (object member)
    Instance,
    /// Class attribute (global)
    Class,
    /// A constant
    Constant,
}

impl ClassAttributeType {
    /// The name of the value.
    pub open spec fn spec_name(self) -> Seq<char> {
        match self {
            ClassAttributeType::Instance => "Instance"@,
            ClassAttributeType::Class => "Class"@,
            ClassAttributeType::Constant => "Constant"@,
        }
    }

    /// Returns the name of the value.
    pub fn to_string(&self) -> (r: String)
        ensures
            r@ == self.spec_name(),
    {
        match self {
            ClassAttributeType::Instance => String::from_str("Instance"),
            ClassAttributeType::Class => String::from_str("Class"),
            ClassAttributeType::Constant => String::from_str("Constant"),
        }
    }
}

/// Selects the kind of metadata object a metadata query entry refers to: a function
/// module, a structure / table or an ABAP class.
#[derive(Debug, Copy, Clone, PartialEq, Eq, Structural, Hash)]
pub enum MetadataObjectType {
    /// Request the metadata of a function module
    Function,
    /// Request the metadata of a structure / table
    Type,
    /// Request the metadata of an ABAP class
    Class,
}

impl MetadataObjectType {
    /// The name of the value.
    pub open spec fn spec_name(self) -> Seq<char> {
        match self {
            MetadataObjectType::Function => "Function"@,
            MetadataObjectType::Type => "Type"@,
            MetadataObjectType::Class => "Class"@,
        }
    }

    /// Returns the name of the value.
    pub fn to_string(&self) -> (r: String)
        ensures
            r@ == self.spec_name(),
    {
        match self {
            MetadataObjectType::Function => String::from_str("Function"),
            MetadataObjectType::Type => String::from_str("Type"),
            MetadataObjectType::Class => String::from_str("Class"),
        }
    }
}

/// The ABAP data type codes of the SAP NetWeaver RFC library (`RFCTYPE`).
#[derive(Debug, Copy, Clone, PartialEq, Eq, Structural, Hash)]
pub enum RfcType {
    /// Code of [`Type::Char`].
    Char,
    /// Code of [`Type::Date`].
    Date,
    /// Code of [`Type::BCD`].
    BCD,
    /// Code of [`Type::Time`].
    Time,
    /// Code of [`Type::Byte`].
    Byte,
    /// Code of [`Type::Table`].
    Table,
    /// Code of [`Type::Num`].
    Num,
    /// Code of [`Type::Float`].
    Float,
    /// Code of [`Type::Int`].
    Int,
    /// Code of [`Type::Int2`].
    Int2,
    /// Code of [`Type::Int1`].
    Int1,
    /// Code of [`Type::Null`].
    Null,
    /// Code of [`Type::ABAPObject`].
    ABAPObject,
    /// Code of [`Type::Structure`].
    Structure,
    /// Code of [`Type::DecF16`].
    DecF16,
    /// Code of [`Type::DecF34`].
    DecF34,
    /// Code of [`Type::XMLData`].
    XMLData,
    /// Code of [`Type::String`].
    String,
    /// Code of [`Type::XString`].
    XString,
    /// Code of [`Type::Int8`].
    Int8,
    /// Code of [`Type::UTCLong`].
    UTCLong,
    /// Code of [`Type::UTCSecond`].
    UTCSecond,
    /// Code of [`Type::UTCMinute`].
    UTCMinute,
    /// Code of [`Type::DTDay`].
    DTDay,
    /// Code of [`Type::DTWeek`].
    DTWeek,
    /// Code of [`Type::DTMonth`].
    DTMonth,
    /// Code of [`Type::TSecond`].
    TSecond,
    /// Code of [`Type::TMinute`].
    TMinute,
    /// Code of [`Type::CDay`].
    CDay,
    /// Code of [`Type::Box`].
    Box,
    /// Code of [`Type::GenericBox`].
    GenericBox,
    /// Marks the end of the codes; not a type.
    MaxValue,
}

/// Field or parameter type when describing a structure or function.
///
/// [`Type`] is used in field descriptions [`FieldDescription`] and parameter descriptions
/// [`ParameterDescription`] and denotes the ABAP data type of the corresponding
/// field / parameter.
///
/// [`FieldDescription`]: crate::protocol::FieldDescription
/// [`ParameterDescription`]: crate::protocol::ParameterDescription
#[derive(Debug, PartialEq, Eq, Hash)]
pub enum Type<'a> {
    /// 1-byte or multibyte character, fixed size of given length, blank padded.
    Char(u32),
    /// Date (YYYYYMMDD)
    Date,
    /// Packed number, any length between 1 and 16 bytes.
    ///
    /// The first parameter defines the length,
    /// the second one the number of decimal places.
    BCD(u32, u32),
    /// Time (HHMMSS)
    Time,
    /// Raw data, binary, fixed length of given length, zero padded.
    Byte(u32),
    /// Internal table.
    /// The parameter defines the type describing the table lines.
    Table(&'a TypeDesc<'a>),
    /// Digits, fixed size of given length, leading zero padded.
    Num(u32),
    /// Floating point, double precision
    Float,
    /// 4-byte integer
    Int,
    /// 2-byte integer. Obsolete, not directly supported by ABAP/4.
    Int2,
    /// 1-byte integer, unsigned. Obsolete, not directly supported by ABAP/4.
    Int1,
    /// Not supported data type.
    Null,
    /// ABAP object.
    ABAPObject,
    /// ABAP structure.
    /// The parameter defines the type describing the fields of the structure.
    Structure(&'a TypeDesc<'a>),
    /// IEEE 754r decimal floating point, 8 bytes
    DecF16,
    /// IEEE 754r decimal floating point, 16 bytes
    DecF34,
    /// No longer used!
    XMLData(u32),
    /// Variable-length, null-terminated string
    String,
    /// Variable-length raw string, length in bytes
    XString,
    /// 8-byte integer
    Int8,
    /// timestamp/long, 8-byte integer
    UTCLong,
    /// timestamp/second, 8-byte integer
    UTCSecond,
    /// timestamp/minute, 8-byte integer
    UTCMinute,
    /// date/day , 4-byte integer
    DTDay,
    /// date/week, 4-byte integer
    DTWeek,
    /// date/month, 4-byte integer
    DTMonth,
    /// time/second, 4-byte integer
    TSecond,
    /// time/minute, 2-byte integer
    TMinute,
    /// calendar day, 2-byte integer
    CDay,
    /// boxed structure, note: not supported by NW RFC lib
    Box,
    /// boxed client dependent structure, note: not supported by NW RFC lib
    GenericBox,
}

impl<'a> Type<'a> {
    /// The ABAP data type code of the type.
    pub open spec fn spec_rfc_type(&self) -> RfcType {
        match self {
            Type::Char(..) => RfcType::Char,
            Type::Date => RfcType::Date,
            Type::BCD(..) => RfcType::BCD,
            Type::Time => RfcType::Time,
            Type::Byte(..) => RfcType::Byte,
            Type::Table(..) => RfcType::Table,
            Type::Num(..) => RfcType::Num,
            Type::Float => RfcType::Float,
            Type::Int => RfcType::Int,
            Type::Int2 => RfcType::Int2,
            Type::Int1 => RfcType::Int1,
            Type::Null => RfcType::Null,
            Type::ABAPObject => RfcType::ABAPObject,
            Type::Structure(..) => RfcType::Structure,
            Type::DecF16 => RfcType::DecF16,
            Type::DecF34 => RfcType::DecF34,
            Type::XMLData(..) => RfcType::XMLData,
            Type::String => RfcType::String,
            Type::XString => RfcType::XString,
            Type::Int8 => RfcType::Int8,
            Type::UTCLong => RfcType::UTCLong,
            Type::UTCSecond => RfcType::UTCSecond,
            Type::UTCMinute => RfcType::UTCMinute,
            Type::DTDay => RfcType::DTDay,
            Type::DTWeek => RfcType::DTWeek,
            Type::DTMonth => RfcType::DTMonth,
            Type::TSecond => RfcType::TSecond,
            Type::TMinute => RfcType::TMinute,
            Type::CDay => RfcType::CDay,
            Type::Box => RfcType::Box,
            Type::GenericBox => RfcType::GenericBox,
        }
    }

    /// Whether the lengths of the type can be computed: the unicode length of a
    /// character-like type is twice its length and must fit in a `u32`.
    pub open spec fn len_defined(&self) -> bool {
        match self {
            Type::Char(len) | Type::BCD(len, _) | Type::Num(len) => *len as int * 2 <= u32::MAX,
            _ => true,
        }
    }

    /// The length of the type in bytes in a non-unicode and in a unicode system.
    pub open spec fn spec_len(&self) -> (u32, u32) {
        match self {
            Type::Structure(t) | Type::Table(t) => if t.spec_inlineable() {
                (t.spec_nuc_length(), t.spec_uc_length())
            } else {
                (8, 8)
            },
            Type::CDay => (2, 2),
            Type::Date => (8, 16),
            Type::DTDay | Type::DTWeek | Type::DTMonth => (4, 4),
            Type::DecF16 => (8, 8),
            Type::DecF34 => (16, 16),
            Type::Float => (8, 8),
            Type::Int => (4, 4),
            Type::Int1 => (1, 1),
            Type::Int2 => (2, 2),
            Type::Int8 => (8, 8),
            Type::Time => (6, 12),
            Type::TSecond => (4, 4),
            Type::TMinute => (2, 2),
            Type::String | Type::XString | Type::ABAPObject | Type::Box | Type::GenericBox => (8, 8),
            Type::Char(len) | Type::BCD(len, _) | Type::Num(len) => (*len, (*len * 2) as u32),
            Type::XMLData(length) | Type::Byte(length) => (*length, *length),
            Type::UTCLong | Type::UTCSecond | Type::UTCMinute => (8, 8),
            Type::Null => (0, 0),
        }
    }

    /// The number of decimal places of the type: that of a packed number, else zero.
    pub open spec fn spec_decimals(&self) -> u32 {
        match self {
            Type::BCD(_, decimals) => *decimals,
            _ => 0,
        }
    }

    /// The type description of a structure or table type.
    pub open spec fn spec_type_description(&self) -> Option<&'a TypeDesc<'a>> {
        match self {
            Type::Structure(t) | Type::Table(t) => Some(*t),
            _ => None,
        }
    }

    /// Whether a value of the type can be stored inline in a structure: pointer types
    /// cannot; a structure or table can where all its fields can.
    pub open spec fn spec_inlineable(&self) -> bool {
        match self {
            Type::String | Type::XString | Type::ABAPObject | Type::Box | Type::GenericBox => false,
            Type::Structure(t) | Type::Table(t) => t.spec_inlineable(),
            _ => true,
        }
    }

    /// The type that a type code denotes, with the length, decimal places and type
    /// description that the other arguments give where the code uses them.
    pub open spec fn spec_from_rfc_type(
        rfc_type: RfcType,
        length: u32,
        decimals: u32,
        type_description: Option<&'a TypeDesc<'a>>,
    ) -> Type<'a> {
        match rfc_type {
            RfcType::Char => Type::Char(length),
            RfcType::Date => Type::Date,
            RfcType::BCD => Type::BCD(length, decimals),
            RfcType::Time => Type::Time,
            RfcType::Byte => Type::Byte(length),
            RfcType::Table => Type::Table(type_description.unwrap()),
            RfcType::Num => Type::Num(length),
            RfcType::Float => Type::Float,
            RfcType::Int => Type::Int,
            RfcType::Int2 => Type::Int2,
            RfcType::Int1 => Type::Int1,
            RfcType::Null => Type::Null,
            RfcType::ABAPObject => Type::ABAPObject,
            RfcType::Structure => Type::Structure(type_description.unwrap()),
            RfcType::DecF16 => Type::DecF16,
            RfcType::DecF34 => Type::DecF34,
            RfcType::XMLData => Type::XMLData(length),
            RfcType::String => Type::String,
            RfcType::XString => Type::XString,
            RfcType::Int8 => Type::Int8,
            RfcType::UTCLong => Type::UTCLong,
            RfcType::UTCSecond => Type::UTCSecond,
            RfcType::UTCMinute => Type::UTCMinute,
            RfcType::DTDay => Type::DTDay,
            RfcType::DTWeek => Type::DTWeek,
            RfcType::DTMonth => Type::DTMonth,
            RfcType::TSecond => Type::TSecond,
            RfcType::TMinute => Type::TMinute,
            RfcType::CDay => Type::CDay,
            RfcType::Box => Type::Box,
            RfcType::GenericBox => Type::GenericBox,
            RfcType::MaxValue => Type::Null,
        }
    }

    /// The name of the type as [`Type::to_string`] gives it.
    pub open spec fn spec_display(&self) -> Seq<char> {
        match self {
            Type::Char(len) => "Char("@ + decimal(*len as nat) + ")"@,
            Type::BCD(len, decimals) => "BCD("@ + decimal(*len as nat) + ", "@ + decimal(
                *decimals as nat,
            ) + ")"@,
            Type::Byte(len) => "Byte("@ + decimal(*len as nat) + ")"@,
            Type::Table(t) => "Table("@ + uc_chars(t.spec_name()) + ")"@,
            Type::Num(len) => "Num("@ + decimal(*len as nat) + ")"@,
            Type::Structure(t) => "Structure("@ + uc_chars(t.spec_name()) + ")"@,
            Type::XMLData(len) => "XMLData("@ + decimal(*len as nat) + ")"@,
            Type::Date => "Date"@,
            Type::Time => "Time"@,
            Type::Float => "Float"@,
            Type::Int => "Int"@,
            Type::Int2 => "Int2"@,
            Type::Int1 => "Int1"@,
            Type::Null => "Null"@,
            Type::ABAPObject => "ABAP Object"@,
            Type::DecF16 => "DecF16"@,
            Type::DecF34 => "DecF34"@,
            Type::String => "String"@,
            Type::XString => "XString"@,
            Type::Int8 => "Int8"@,
            Type::UTCLong => "UTC Timestamp"@,
            Type::UTCSecond => "UTC Seconds"@,
            Type::UTCMinute => "UTC Minutes"@,
            Type::DTDay => "Datetime: Day"@,
            Type::DTWeek => "Datetime: Week"@,
            Type::DTMonth => "Datetime: Month"@,
            Type::TSecond => "Time: Second"@,
            Type::TMinute => "Time: Minute"@,
            Type::CDay => "Calendar Day"@,
            Type::Box => "Box"@,
            Type::GenericBox => "Generic Box"@,
        }
    }

    /// The length of the type in bytes: in a non-unicode and in a unicode system.
    ///
    /// A structure or table whose fields can all be stored inline takes the lengths of
    /// its type description; otherwise it is stored as a pointer of 8 bytes.
    pub fn len(&self) -> (r: (u32, u32))
        requires
            self.len_defined(),
        ensures
            r == self.spec_len(),
    {
        match self {
            Type::Structure(t) | Type::Table(t) => {
                if t.inlineable() {
                    (t.nuc_length(), t.uc_length())
                } else {
                    (8, 8)
                }
            },
            Type::CDay => (2, 2),
            Type::Date => (8, 16),
            Type::DTDay | Type::DTWeek | Type::DTMonth => (4, 4),
            Type::DecF16 => (8, 8),
            Type::DecF34 => (16, 16),
            Type::Float => (8, 8),
            Type::Int => (4, 4),
            Type::Int1 => (1, 1),
            Type::Int2 => (2, 2),
            Type::Int8 => (8, 8),
            Type::Time => (6, 12),
            Type::TSecond => (4, 4),
            Type::TMinute => (2, 2),
            Type::String | Type::XString | Type::ABAPObject | Type::Box | Type::GenericBox => (8, 8),
            Type::Char(len) | Type::BCD(len, _) | Type::Num(len) => (*len, *len * 2),
            Type::XMLData(length) | Type::Byte(length) => (*length, *length),
            Type::UTCLong | Type::UTCSecond | Type::UTCMinute => (8, 8),
            Type::Null => (0, 0),
        }
    }

    /// The number of decimal places: that of a packed number, else zero.
    pub fn decimals(&self) -> (r: u32)
        ensures
            r == self.spec_decimals(),
    {
        match self {
            Type::BCD(_, decimals) => *decimals,
            _ => 0,
        }
    }

    /// The type description of a structure or table type.
    pub fn type_description(&self) -> (r: Option<&'a TypeDesc<'a>>)
        ensures
            r == self.spec_type_description(),
    {
        match self {
            Type::Structure(t) | Type::Table(t) => Some(*t),
            _ => None,
        }
    }

    /// The ABAP data type code of the type.
    pub fn rfc_type(&self) -> (r: RfcType)
        ensures
            r == self.spec_rfc_type(),
    {
        match self {
            Type::Char(..) => RfcType::Char,
            Type::Date => RfcType::Date,
            Type::BCD(..) => RfcType::BCD,
            Type::Time => RfcType::Time,
            Type::Byte(..) => RfcType::Byte,
            Type::Table(..) => RfcType::Table,
            Type::Num(..) => RfcType::Num,
            Type::Float => RfcType::Float,
            Type::Int => RfcType::Int,
            Type::Int2 => RfcType::Int2,
            Type::Int1 => RfcType::Int1,
            Type::Null => RfcType::Null,
            Type::ABAPObject => RfcType::ABAPObject,
            Type::Structure(..) => RfcType::Structure,
            Type::DecF16 => RfcType::DecF16,
            Type::DecF34 => RfcType::DecF34,
            Type::XMLData(..) => RfcType::XMLData,
            Type::String => RfcType::String,
            Type::XString => RfcType::XString,
            Type::Int8 => RfcType::Int8,
            Type::UTCLong => RfcType::UTCLong,
            Type::UTCSecond => RfcType::UTCSecond,
            Type::UTCMinute => RfcType::UTCMinute,
            Type::DTDay => RfcType::DTDay,
            Type::DTWeek => RfcType::DTWeek,
            Type::DTMonth => RfcType::DTMonth,
            Type::TSecond => RfcType::TSecond,
            Type::TMinute => RfcType::TMinute,
            Type::CDay => RfcType::CDay,
            Type::Box => RfcType::Box,
            Type::GenericBox => RfcType::GenericBox,
        }
    }

    /// The type that a type code denotes; the length, decimal places and type
    /// description are taken from the other arguments where the code uses them.
    ///
    /// A table or structure code needs a type description.
    pub fn from_rfc_type(
        rfc_type: RfcType,
        length: u32,
        decimals: u32,
        type_description: Option<&'a TypeDesc<'a>>,
    ) -> (r: Self)
        requires
            rfc_type == RfcType::Table || rfc_type == RfcType::Structure ==> type_description is Some,
        ensures
            r == Type::spec_from_rfc_type(rfc_type, length, decimals, type_description),
    {
        match rfc_type {
            RfcType::Char => Type::Char(length),
            RfcType::Date => Type::Date,
            RfcType::BCD => Type::BCD(length, decimals),
            RfcType::Time => Type::Time,
            RfcType::Byte => Type::Byte(length),
            RfcType::Table => Type::Table(type_description.unwrap()),
            RfcType::Num => Type::Num(length),
            RfcType::Float => Type::Float,
            RfcType::Int => Type::Int,
            RfcType::Int2 => Type::Int2,
            RfcType::Int1 => Type::Int1,
            RfcType::Null => Type::Null,
            RfcType::ABAPObject => Type::ABAPObject,
            RfcType::Structure => Type::Structure(type_description.unwrap()),
            RfcType::DecF16 => Type::DecF16,
            RfcType::DecF34 => Type::DecF34,
            RfcType::XMLData => Type::XMLData(length),
            RfcType::String => Type::String,
            RfcType::XString => Type::XString,
            RfcType::Int8 => Type::Int8,
            RfcType::UTCLong => Type::UTCLong,
            RfcType::UTCSecond => Type::UTCSecond,
            RfcType::UTCMinute => Type::UTCMinute,
            RfcType::DTDay => Type::DTDay,
            RfcType::DTWeek => Type::DTWeek,
            RfcType::DTMonth => Type::DTMonth,
            RfcType::TSecond => Type::TSecond,
            RfcType::TMinute => Type::TMinute,
            RfcType::CDay => Type::CDay,
            RfcType::Box => Type::Box,
            RfcType::GenericBox => Type::GenericBox,
            RfcType::MaxValue => Type::Null,
        }
    }

    /// Whether a value of the type can be stored inline in a structure.
    pub(crate) fn inlineable(&self) -> (r: bool)
        ensures
            r == self.spec_inlineable(),
    {
        match self {
            // Pointer types are never inlineable.
            Type::String | Type::XString | Type::ABAPObject | Type::Box | Type::GenericBox => false,
            // For structures and tables, the corresponding type description determines
            // whether it's inlineable or not.
            Type::Structure(t) | Type::Table(t) => t.inlineable(),
            // Everything else is inlineable.
            _ => true,
        }
    }

    /// The name of the type, with its length, decimal places or the name of its type
    /// description where it has them, e.g. `Char(1)` or `Structure(BAPIRET2)`.
    pub fn to_string(&self) -> (r: String)
        ensures
            r@ == self.spec_display(),
    {
        match self {
            Type::Char(len) => {
                let mut s = String::from_str("Char(");
                s.append(decimal_string(*len).as_str());
                s.append(")");
                s
            },
            Type::BCD(len, decimals) => {
                let mut s = String::from_str("BCD(");
                s.append(decimal_string(*len).as_str());
                s.append(", ");
                s.append(decimal_string(*decimals).as_str());
                s.append(")");
                s
            },
            Type::Byte(len) => {
                let mut s = String::from_str("Byte(");
                s.append(decimal_string(*len).as_str());
                s.append(")");
                s
            },
            Type::Table(t) => {
                let mut s = String::from_str("Table(");
                s.append(t.name().as_str());
                s.append(")");
                s
            },
            Type::Num(len) => {
                let mut s = String::from_str("Num(");
                s.append(decimal_string(*len).as_str());
                s.append(")");
                s
            },
            Type::Structure(t) => {
                let mut s = String::from_str("Structure(");
                s.append(t.name().as_str());
                s.append(")");
                s
            },
            Type::XMLData(len) => {
                let mut s = String::from_str("XMLData(");
                s.append(decimal_string(*len).as_str());
                s.append(")");
                s
            },
            Type::Date => String::from_str("Date"),
            Type::Time => String::from_str("Time"),
            Type::Float => String::from_str("Float"),
            Type::Int => String::from_str("Int"),
            Type::Int2 => String::from_str("Int2"),
            Type::Int1 => String::from_str("Int1"),
            Type::Null => String::from_str("Null"),
            Type::ABAPObject => String::from_str("ABAP Object"),
            Type::DecF16 => String::from_str("DecF16"),
            Type::DecF34 => String::from_str("DecF34"),
            Type::String => String::from_str("String"),
            Type::XString => String::from_str("XString"),
            Type::Int8 => String::from_str("Int8"),
            Type::UTCLong => String::from_str("UTC Timestamp"),
            Type::UTCSecond => String::from_str("UTC Seconds"),
            Type::UTCMinute => String::from_str("UTC Minutes"),
            Type::DTDay => String::from_str("Datetime: Day"),
            Type::DTWeek => String::from_str("Datetime: Week"),
            Type::DTMonth => String::from_str("Datetime: Month"),
            Type::TSecond => String::from_str("Time: Second"),
            Type::TMinute => String::from_str("Time: Minute"),
            Type::CDay => String::from_str("Calendar Day"),
            Type::Box => String::from_str("Box"),
            Type::GenericBox => String::from_str("Generic Box"),
        }
    }
}

/// Reading a type back from its type code, its non-unicode length, its decimal places
/// and its type description gives the type itself: every type code names its own kind of
/// type, and the length and decimals that a type carries are its non-unicode length and
/// decimal places.
pub proof fn lemma_type_code_roundtrip<'a>(t: Type<'a>)
    ensures
        Type::spec_from_rfc_type(
            t.spec_rfc_type(),
            t.spec_len().0,
            t.spec_decimals(),
            t.spec_type_description(),
        ) == t,
{
}

/// The byte lengths of the ABAP types, in a non-unicode and in a unicode system: an
/// 8-byte integer, a double precision float, a 16-digit decimal float, a timestamp and
/// any value stored behind a pointer take 8 bytes; a 4-byte integer and the day, week,
/// month and second counts 4; a 2-byte integer, a minute count and a calendar day 2; a
/// 1-byte integer 1; a 34-digit decimal float 16. A date (8 characters), a time (6
/// characters) and the character-like types of length `n` take one byte per character
/// without and two with unicode; raw data of length `n` takes `n` bytes in both.
pub proof fn lemma_type_lengths<'a>(n: u32, d: u32, t: &'a TypeDesc<'a>)
    ensures
        Type::Float.spec_len() == (8u32, 8u32),
        Type::Int8.spec_len() == (8u32, 8u32),
        Type::DecF16.spec_len() == (8u32, 8u32),
        Type::UTCLong.spec_len() == (8u32, 8u32),
        Type::UTCSecond.spec_len() == (8u32, 8u32),
        Type::UTCMinute.spec_len() == (8u32, 8u32),
        Type::String.spec_len() == (8u32, 8u32),
        Type::XString.spec_len() == (8u32, 8u32),
        Type::ABAPObject.spec_len() == (8u32, 8u32),
        Type::Box.spec_len() == (8u32, 8u32),
        Type::GenericBox.spec_len() == (8u32, 8u32),
        Type::Int.spec_len() == (4u32, 4u32),
        Type::DTDay.spec_len() == (4u32, 4u32),
        Type::DTWeek.spec_len() == (4u32, 4u32),
        Type::DTMonth.spec_len() == (4u32, 4u32),
        Type::TSecond.spec_len() == (4u32, 4u32),
        Type::Int2.spec_len() == (2u32, 2u32),
        Type::TMinute.spec_len() == (2u32, 2u32),
        Type::CDay.spec_len() == (2u32, 2u32),
        Type::Int1.spec_len() == (1u32, 1u32),
        Type::DecF34.spec_len() == (16u32, 16u32),
        Type::Null.spec_len() == (0u32, 0u32),
        Type::Date.spec_len() == (8u32, 16u32),
        Type::Time.spec_len() == (6u32, 12u32),
        n as int * 2 <= u32::MAX ==> Type::Char(n).spec_len().0 == n && Type::Char(n).spec_len().1
            == 2 * n,
        n as int * 2 <= u32::MAX ==> Type::Num(n).spec_len().0 == n && Type::Num(n).spec_len().1
            == 2 * n,
        n as int * 2 <= u32::MAX ==> Type::BCD(n, d).spec_len().0 == n && Type::BCD(
            n,
            d,
        ).spec_len().1 == 2 * n,
        Type::Byte(n).spec_len() == (n, n),
        Type::XMLData(n).spec_len() == (n, n),
        t.spec_inlineable() ==> Type::Structure(t).spec_len() == (
            t.spec_nuc_length(),
            t.spec_uc_length(),
        ) && Type::Table(t).spec_len() == (t.spec_nuc_length(), t.spec_uc_length()),
        !t.spec_inlineable() ==> Type::Structure(t).spec_len() == (8u32, 8u32) && Type::Table(
            t,
        ).spec_len() == (8u32, 8u32),
{
}

impl Default for ReturnCode {
    fn default() -> (r: Self)
        ensures
            r == ReturnCode::OK,
    {
        ReturnCode::OK
    }
}

impl Default for ErrorGroup {
    fn default() -> (r: Self)
        ensures
            r == ErrorGroup::OK,
    {
        ErrorGroup::OK
    }
}

/// Trace level of an RFC connection.
#[derive(Debug, Copy, Clone, PartialEq, Eq, Structural, Hash)]
pub enum TraceLevel {
    /// No tracing.
    Off,
    /// Brief trace.
    Brief,
    /// Verbose trace.
    Verbose,
    /// Full trace.
    Full,
}

/// Error returned when a text does not denote a trace level.
#[derive(Debug)]
pub struct InvalidTraceLevel {}

impl InvalidTraceLevel {
    /// The message of the error.
    pub fn to_string(&self) -> (r: String)
        ensures
            r@ == "Invalid trace level!"@,
    {
        String::from_str("Invalid trace level!")
    }
}

impl TraceLevel {
    /// The digit that denotes the trace level in connection parameters and attributes.
    pub open spec fn spec_digit(self) -> char {
        match self {
            TraceLevel::Off => '0',
            TraceLevel::Brief => '1',
            TraceLevel::Verbose => '2',
            TraceLevel::Full => '3',
        }
    }

    /// The trace level a text denotes: exactly one of the digits `0` to `3`.
    pub open spec fn spec_from_chars(s: Seq<char>) -> Option<TraceLevel> {
        if s.len() != 1 {
            None
        } else if s[0] == '0' {
            Some(TraceLevel::Off)
        } else if s[0] == '1' {
            Some(TraceLevel::Brief)
        } else if s[0] == '2' {
            Some(TraceLevel::Verbose)
        } else if s[0] == '3' {
            Some(TraceLevel::Full)
        } else {
            None
        }
    }

    /// Parses a trace level from its digit (`"0"` to `"3"`).
    pub fn try_from_str(value: &str) -> (r: Result<TraceLevel, InvalidTraceLevel>)
        ensures
            r is Ok <==> TraceLevel::spec_from_chars(value@) is Some,
            r matches Ok(t) ==> TraceLevel::spec_from_chars(value@) == Some(t),
    {
        if value.unicode_len() != 1 {
            return Err(InvalidTraceLevel {  });
        }
        let c = value.get_char(0);
        if c == '0' {
            Ok(TraceLevel::Off)
        } else if c == '1' {
            Ok(TraceLevel::Brief)
        } else if c == '2' {
            Ok(TraceLevel::Verbose)
        } else if c == '3' {
            Ok(TraceLevel::Full)
        } else {
            Err(InvalidTraceLevel {  })
        }
    }

    /// The digit of the trace level as text.
    pub fn as_str(&self) -> (r: &'static str)
        ensures
            r@ == seq![self.spec_digit()],
    {
        let r = match self {
            TraceLevel::Off => "0",
            TraceLevel::Brief => "1",
            TraceLevel::Verbose => "2",
            TraceLevel::Full => "3",
        };
        proof {
            reveal_strlit("0");
            reveal_strlit("1");
            reveal_strlit("2");
            reveal_strlit("3");
        }
        r
    }

    /// The digit of the trace level as string.
    pub fn to_string(&self) -> (r: String)
        ensures
            r@ == seq![self.spec_digit()],
    {
        String::from_str(self.as_str())
    }
}

/// Reading a trace level back from its digit gives the trace level.
pub proof fn lemma_trace_level_digit_roundtrip(t: TraceLevel)
    ensures
        TraceLevel::spec_from_chars(seq![t.spec_digit()]) == Some(t),
{
}

} // verus!
