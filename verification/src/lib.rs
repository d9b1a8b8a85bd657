//! Verified core of a client library for the SAP NetWeaver RFC protocol.
pub mod protocol;
