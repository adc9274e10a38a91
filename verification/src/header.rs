//! Request and response headers, with each field held as its wire code.
use vstd::prelude::*;

use crate::codes::{AUTH_NO_AUTH, BODY_TYPE_PROTOBUF, OPCODE_PING, PROVIDER_CORE, is_auth_type_code, is_body_type_code, is_opcode_code, is_provider_code, is_status_code};

verus! {

/// The fields of a request header that a client chooses.
#[derive(Clone, Copy, Debug, PartialEq, Eq, Structural)]
pub struct ReqHeader {
    pub provider: u8,
    pub session: u64,
    pub content_type: u8,
    pub accept_type: u8,
    pub auth_type: u8,
    pub opcode: u32,
}

/// The fields of a response header.
#[derive(Clone, Copy, Debug, PartialEq, Eq, Structural)]
pub struct RespHeader {
    pub provider: u8,
    pub session: u64,
    pub content_type: u8,
    pub opcode: u32,
    pub status: u16,
}

impl ReqHeader {
    /// Every field holds a code that the wire protocol defines.
    pub open spec fn is_valid(self) -> bool {
        &&& is_provider_code(self.provider)
        &&& is_body_type_code(self.content_type)
        &&& is_body_type_code(self.accept_type)
        &&& is_auth_type_code(self.auth_type)
        &&& is_opcode_code(self.opcode)
    }
}

impl RespHeader {
    /// Every field holds a code that the wire protocol defines.
    pub open spec fn is_valid(self) -> bool {
        &&& is_provider_code(self.provider)
        &&& is_body_type_code(self.content_type)
        &&& is_opcode_code(self.opcode)
        &&& is_status_code(self.status)
    }
}

/// The header of the requests that the mocked client sends by default: core
/// provider, session 0, protobuf bodies both ways, no authentication, ping.
pub open spec fn default_req_header() -> ReqHeader {
    ReqHeader {
        provider: PROVIDER_CORE,
        session: 0,
        content_type: BODY_TYPE_PROTOBUF,
        accept_type: BODY_TYPE_PROTOBUF,
        auth_type: AUTH_NO_AUTH,
        opcode: OPCODE_PING,
    }
}

/// The header of the response to a request: provider, session and opcode are
/// those of the request, the content type is the type that the request
/// accepts, and the status is the one given.
pub open spec fn spec_response_header_for(req: ReqHeader, status: u16) -> RespHeader {
    RespHeader {
        provider: req.provider,
        session: req.session,
        content_type: req.accept_type,
        opcode: req.opcode,
        status: status,
    }
}

/// A response answers the request it is for: it comes from the provider the
/// request went to, in the same session, about the same operation, in the
/// body type that the request accepts, with the status given.
pub proof fn lemma_response_answers_request(req: ReqHeader, status: u16)
    ensures
        spec_response_header_for(req, status).provider == req.provider,
        spec_response_header_for(req, status).session == req.session,
        spec_response_header_for(req, status).content_type == req.accept_type,
        spec_response_header_for(req, status).opcode == req.opcode,
        spec_response_header_for(req, status).status == status,
{
}

/// The default request header.
pub fn req_header() -> (h: ReqHeader)
    ensures
        h == default_req_header(),
        h.is_valid(),
{
    ReqHeader {
        provider: PROVIDER_CORE,
        session: 0,
        content_type: BODY_TYPE_PROTOBUF,
        accept_type: BODY_TYPE_PROTOBUF,
        auth_type: AUTH_NO_AUTH,
        opcode: OPCODE_PING,
    }
}

/// The header of the response to a request with header `req`, with status
/// `status`.
pub fn response_header_for(req: ReqHeader, status: u16) -> (r: RespHeader)
    ensures
        r == spec_response_header_for(req, status),
        req.is_valid() && is_status_code(status) ==> r.is_valid(),
        r.provider == req.provider,
        r.session == req.session,
        r.content_type == req.accept_type,
        r.opcode == req.opcode,
        r.status == status,
{
    RespHeader {
        provider: req.provider,
        session: req.session,
        content_type: req.accept_type,
        opcode: req.opcode,
        status: status,
    }
}

} // verus!
