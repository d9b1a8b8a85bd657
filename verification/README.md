# nwrfc

A client library for the SAP NetWeaver RFC protocol, written in Verus: the metadata
descriptions of structures and function modules, the value types of the protocol
(dates, times, identifiers, error information) and the conversions between Rust
strings and the nul-terminated UTF-16 buffers (`SAP_UC`) that the NetWeaver RFC
library exchanges. Every function under `src/` carries a contract; Verus proves all of
them except two small trusted wrappers in `text.rs` around `String::push` and
`char::from_u32`, whose contracts are taken from the standard library's documentation.

Layout:

- `src/protocol/` – the verified library. `uc_str.rs` and `uc_string.rs` hold the
  SAP unicode buffers and the UTF-16 model they are specified against; `types/` holds
  the descriptions and value types; `connection.rs` keeps the state of a connection
  from the outcomes of the calls that the caller makes to the RFC library.
- `tests/` – tests that run the compiled library.
- `app/` – the few helpers that need `std::net` (the partner addresses of a
  connection).
