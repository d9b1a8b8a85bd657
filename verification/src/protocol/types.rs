//! Wrappers for the value and metadata types of the SAP NetWeaver RFC library.
pub mod error;
pub mod date_time;
pub mod field_description;
pub mod type_description;
pub mod exception;
pub mod parameter_description;
pub mod connection_parameter;
pub mod connection_attributes;
pub mod ids;
