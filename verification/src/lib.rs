//! Helpers for testing a Parsec client against a mocked service: the bytes of
//! a service response that carries a given result, and the request or
//! operation that the client wrote, read back from its bytes, all over the
//! version 1.0 wire format.
pub mod codes;
pub mod exchange;
pub mod frame;
pub mod header;
pub mod mock;
pub mod wire;
