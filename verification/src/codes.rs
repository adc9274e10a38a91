//! The numeric codes that the Parsec wire protocol gives to providers, body
//! types, authenticators, operations and response statuses.
use vstd::prelude::*;

verus! {

/// Code of the core provider.
pub const PROVIDER_CORE: u8 = 0;

/// Code of the protobuf body type.
pub const BODY_TYPE_PROTOBUF: u8 = 0;

/// Code of the "no authentication" authenticator.
pub const AUTH_NO_AUTH: u8 = 0;

/// Opcode of the ping operation.
pub const OPCODE_PING: u32 = 1;

/// Opcode of the operation that lists a provider's opcodes.
pub const OPCODE_LIST_OPCODES: u32 = 9;

/// Status code of a successful response.
pub const STATUS_SUCCESS: u16 = 0;

/// Providers: core (0) up to the CryptoAuthentication library provider (5).
pub open spec fn is_provider_code(p: u8) -> bool {
    p <= 5
}

/// Body types: protobuf (0) is the only one.
pub open spec fn is_body_type_code(c: u8) -> bool {
    c == 0
}

/// Authenticators: no authentication (0) up to JWT-SVID (4).
pub open spec fn is_auth_type_code(a: u8) -> bool {
    a <= 4
}

/// Opcodes: 0x01 to 0x15, 0x18 to 0x1C and 0x1E to 0x20.
pub open spec fn is_opcode_code(o: u32) -> bool {
    ||| 0x01 <= o <= 0x15
    ||| 0x18 <= o <= 0x1C
    ||| 0x1E <= o <= 0x20
}

/// Response statuses: 0 to 22 for the service's own statuses and 1132 to 1153,
/// without 1144, for the PSA Crypto errors.
pub open spec fn is_status_code(s: u16) -> bool {
    ||| s <= 22
    ||| (1132 <= s <= 1153 && s != 1144)
}

} // verus!
