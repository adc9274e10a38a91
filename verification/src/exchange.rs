//! What a test of a Parsec client needs to play the service: the bytes of a
//! service response carrying a given result, and the request or operation that
//! the client wrote.
use vstd::prelude::*;

use mockstream::MockStream;
use parsec_interface::operations::{NativeOperation, NativeResult};
use parsec_interface::requests::request::RequestBody;
use parsec_interface::requests::response::ResponseBody;

use crate::codes::{is_opcode_code, BODY_TYPE_PROTOBUF, OPCODE_LIST_OPCODES, PROVIDER_CORE, STATUS_SUCCESS};
use crate::frame::{
    WIRE_HEADER_LEN, WireFields, le_u16_at, le_u32_at, le_u64_at, lemma_response_frame_fields, accepted, frames, has_request, header_of, lemma_reads_as_unique, lemma_request_frame_reads_back, reads_as,
    request_frame, response_frame,
};
use crate::mock::mock_unread;
use crate::header::{ReqHeader, default_req_header, req_header, response_header_for, spec_response_header_for};
use crate::wire::{
    decode_operation, decoded_operation, encoded_result, reorders_after_two,
    native_result_opcode, read_request, request_body_bytes, response_body_bytes, result_opcode,
    result_to_body, write_response,
};

verus! {

/// A request as read from its frame.
pub struct ParsedRequest {
    pub header: ReqHeader,
    pub body: RequestBody,
    pub auth: Vec<u8>,
}

/// The default request header with the opcode `opcode`.
pub open spec fn req_header_with_opcode(opcode: u32) -> ReqHeader {
    ReqHeader {
        provider: default_req_header().provider,
        session: default_req_header().session,
        content_type: default_req_header().content_type,
        accept_type: default_req_header().accept_type,
        auth_type: default_req_header().auth_type,
        opcode: opcode,
    }
}

/// The frame of the successful response, with body `body`, to a request with
/// the default header and opcode `opcode`.
pub open spec fn success_response_frame(opcode: u32, body: Seq<u8>) -> Seq<u8> {
    response_frame(spec_response_header_for(req_header_with_opcode(opcode), STATUS_SUCCESS), body)
}

/// The body that a frame carries after its 36 header bytes.
pub open spec fn frame_body(frame: Seq<u8>) -> Seq<u8> {
    frame.subrange(WIRE_HEADER_LEN as int, frame.len() as int)
}

/// Reading a successful response frame back: it comes from the core provider,
/// in session 0, with a protobuf body, about the operation `opcode`, with the
/// success status, and carries `body` after its header.
pub proof fn lemma_success_frame_reads_back(opcode: u32, body: Seq<u8>)
    requires
        body.len() <= u32::MAX,
    ensures
        success_response_frame(opcode, body).len() == WIRE_HEADER_LEN + body.len(),
        success_response_frame(opcode, body)[10] == PROVIDER_CORE,
        le_u64_at(success_response_frame(opcode, body), 11) == 0,
        success_response_frame(opcode, body)[19] == BODY_TYPE_PROTOBUF,
        le_u32_at(success_response_frame(opcode, body), 22) == body.len(),
        le_u32_at(success_response_frame(opcode, body), 28) == opcode,
        le_u16_at(success_response_frame(opcode, body), 32) == STATUS_SUCCESS,
        frame_body(success_response_frame(opcode, body)) == body,
{
    lemma_response_frame_fields(spec_response_header_for(req_header_with_opcode(opcode), STATUS_SUCCESS), body);
}

/// The bytes of the successful response, with body `body`, to a request with
/// the default header and opcode `opcode`: `None` exactly when the body is too
/// long for the wire format.
pub fn response_bytes_for(opcode: u32, body: ResponseBody) -> (r: Option<Vec<u8>>)
    requires
        is_opcode_code(opcode),
    ensures
        r is Some <==> response_body_bytes(body).len() <= u32::MAX,
        r matches Some(v) ==> v@ == success_response_frame(opcode, response_body_bytes(body)),
        r matches Some(v) ==> v@.len() == WIRE_HEADER_LEN + response_body_bytes(body).len(),
        r matches Some(v) ==> v@[10] == PROVIDER_CORE && le_u64_at(v@, 11) == 0
            && v@[19] == BODY_TYPE_PROTOBUF && le_u32_at(v@, 28) == opcode
            && le_u16_at(v@, 32) == STATUS_SUCCESS && frame_body(v@) == response_body_bytes(body),
{
    let mut req_hdr = req_header();
    req_hdr.opcode = opcode;
    let resp_hdr = response_header_for(req_hdr, STATUS_SUCCESS);
    let mut stream = MockStream::new();
    match write_response(&mut stream, resp_hdr, body) {
        Ok(()) => {
            let bytes = stream.pop_bytes_written();
            assert(bytes@ =~= success_response_frame(opcode, response_body_bytes(body)));
            proof {
                lemma_success_frame_reads_back(opcode, response_body_bytes(body));
            }
            Some(bytes)
        },
        Err(_) => None,
    }
}

/// The encoding of `result` succeeds and fits the 32-bit body length of a
/// frame.
pub open spec fn result_fits_frame(result: NativeResult) -> bool {
    encoded_result(result) matches Some(body) && body.len() <= u32::MAX
}

/// The bytes of the successful response that carries `result`, as the service
/// writes it to a client that sent a request with the default header and the
/// result's opcode.  `None` exactly when the result cannot be encoded or its
/// encoding is too long for the wire format.
pub fn checked_response_bytes_from_result(result: NativeResult) -> (r: Option<Vec<u8>>)
    ensures
        r is Some <==> result_fits_frame(result),
        r matches Some(v) ==> exists|body: Seq<u8>|
            body.len() == encoded_result(result)->0.len()
                && v@ == #[trigger] success_response_frame(native_result_opcode(result), body),
        r matches Some(v) ==> (native_result_opcode(result) != OPCODE_LIST_OPCODES
            ==> v@ == success_response_frame(native_result_opcode(result), encoded_result(result)->0)),
        r matches Some(v) ==> v@[10] == PROVIDER_CORE && le_u64_at(v@, 11) == 0
            && v@[19] == BODY_TYPE_PROTOBUF && le_u32_at(v@, 28) == native_result_opcode(result)
            && le_u16_at(v@, 32) == STATUS_SUCCESS,
        r matches Some(v) ==> reorders_after_two(frame_body(v@), encoded_result(result)->0),
        r matches Some(v) ==> (native_result_opcode(result) != OPCODE_LIST_OPCODES
            ==> frame_body(v@) == encoded_result(result)->0),
{
    let ghost res = result;
    let opcode = result_opcode(&result);
    match result_to_body(result) {
        Ok(body) => {
            let ghost body_bytes = response_body_bytes(body);
            assert(reorders_after_two(body_bytes, encoded_result(res)->0));
            let r = response_bytes_for(opcode, body);
            proof {
                if r is Some {
                    assert(r->0@ == success_response_frame(native_result_opcode(res), body_bytes));
                }
            }
            r
        },
        Err(_) => None,
    }
}

/// The bytes of the successful response that carries `result`, for a result
/// whose encoding fits a frame.
pub fn get_response_bytes_from_result(result: NativeResult) -> (v: Vec<u8>)
    requires
        result_fits_frame(result),
    ensures
        exists|body: Seq<u8>|
            body.len() == encoded_result(result)->0.len()
                && v@ == #[trigger] success_response_frame(native_result_opcode(result), body),
        native_result_opcode(result) != OPCODE_LIST_OPCODES
            ==> v@ == success_response_frame(native_result_opcode(result), encoded_result(result)->0),
        v@[10] == PROVIDER_CORE && le_u64_at(v@, 11) == 0 && v@[19] == BODY_TYPE_PROTOBUF,
        le_u32_at(v@, 28) == native_result_opcode(result),
        le_u16_at(v@, 32) == STATUS_SUCCESS,
        reorders_after_two(frame_body(v@), encoded_result(result)->0),
        native_result_opcode(result) != OPCODE_LIST_OPCODES ==> frame_body(v@) == encoded_result(result)->0,
{
    match checked_response_bytes_from_result(result) {
        Some(v) => v,
        None => vstd::pervasive::unreached(),
    }
}

/// The request whose frame starts `bytes`, read with no limit on the body
/// length: `None` exactly when `bytes` starts with no request frame that the
/// reader accepts.  The request is the only one that `bytes` reads as; in
/// particular, the frame of a request with a valid header reads back as that
/// header, body and authentication bytes.
pub fn checked_req_from_bytes(bytes: Vec<u8>) -> (r: Option<ParsedRequest>)
    ensures
        r is Some <==> has_request(bytes@, usize::MAX),
        r matches Some(p) ==> p.header.is_valid()
            && reads_as(bytes@, usize::MAX, p.header, request_body_bytes(p.body), p.auth@),
        forall|h: ReqHeader, body: Seq<u8>, auth: Seq<u8>|
            #[trigger] reads_as(bytes@, usize::MAX, h, body, auth) ==> (r matches Some(p) && p.header == h
                && request_body_bytes(p.body) == body && p.auth@ == auth),
        forall|h: ReqHeader, body: Seq<u8>, auth: Seq<u8>|
            h.is_valid() && body.len() <= u32::MAX && auth.len() <= u16::MAX
                && #[trigger] request_frame(h, body, auth).is_prefix_of(bytes@)
            ==> (r matches Some(p) && p.header == h && request_body_bytes(p.body) == body && p.auth@ == auth),
{
    let mut stream = MockStream::new();
    stream.push_bytes_to_read(bytes.as_slice());
    assert(mock_unread(stream) =~= bytes@);
    let r = match read_request(&mut stream, usize::MAX) {
        Ok(p) => Some(p),
        Err(_) => None,
    };
    proof {
        if r is Some {
            let p = r->0;
            let w = choose|w: WireFields|
                #[trigger] frames(bytes@, w, request_body_bytes(p.body), p.auth@)
                && accepted(w, usize::MAX) && header_of(w) == p.header;
            assert(frames(bytes@, w, request_body_bytes(p.body), p.auth@));
        }
        assert forall|h: ReqHeader, body: Seq<u8>, auth: Seq<u8>|
            #[trigger] reads_as(bytes@, usize::MAX, h, body, auth) implies (r matches Some(p) && p.header == h
                && request_body_bytes(p.body) == body && p.auth@ == auth) by {
            let w = choose|w: WireFields|
                #[trigger] frames(bytes@, w, body, auth)
                && accepted(w, usize::MAX) && header_of(w) == h;
            assert(frames(bytes@, w, body, auth));
            assert(has_request(bytes@, usize::MAX));
            let p = r->0;
            lemma_reads_as_unique(bytes@, usize::MAX, h, body, auth, p.header, request_body_bytes(p.body), p.auth@);
        }
        assert forall|h: ReqHeader, body: Seq<u8>, auth: Seq<u8>|
            h.is_valid() && body.len() <= u32::MAX && auth.len() <= u16::MAX
                && #[trigger] request_frame(h, body, auth).is_prefix_of(bytes@)
            implies (r matches Some(p) && p.header == h && request_body_bytes(p.body) == body && p.auth@ == auth) by {
            lemma_request_frame_reads_back(bytes@, usize::MAX, h, body, auth);
        }
    }
    r
}

/// The request whose frame starts `bytes`, for bytes that start with a request
/// frame that the reader accepts.  The request is the only one that `bytes`
/// reads as.
pub fn get_req_from_bytes(bytes: Vec<u8>) -> (p: ParsedRequest)
    requires
        has_request(bytes@, usize::MAX),
    ensures
        p.header.is_valid(),
        reads_as(bytes@, usize::MAX, p.header, request_body_bytes(p.body), p.auth@),
        forall|h: ReqHeader, body: Seq<u8>, auth: Seq<u8>|
            #[trigger] reads_as(bytes@, usize::MAX, h, body, auth) ==> (p.header == h
                && request_body_bytes(p.body) == body && p.auth@ == auth),
        forall|h: ReqHeader, body: Seq<u8>, auth: Seq<u8>|
            h.is_valid() && body.len() <= u32::MAX && auth.len() <= u16::MAX
                && #[trigger] request_frame(h, body, auth).is_prefix_of(bytes@)
            ==> (p.header == h && request_body_bytes(p.body) == body && p.auth@ == auth),
{
    match checked_req_from_bytes(bytes) {
        Some(p) => p,
        None => {
            vstd::pervasive::unreached()
        },
    }
}

/// The bytes read as a request whose body decodes as the operation of its
/// opcode.
pub open spec fn carries_operation(bytes: Seq<u8>) -> bool {
    exists|h: ReqHeader, body: Seq<u8>, auth: Seq<u8>|
        #[trigger] reads_as(bytes, usize::MAX, h, body, auth) && decoded_operation(body, h.opcode) is Some
}

/// The operation that the request at the start of `bytes` carries, decoded as
/// the operation of the request's opcode: `None` exactly when `bytes` reads as
/// no request or the request's body does not decode.
pub fn checked_operation_from_req_bytes(bytes: Vec<u8>) -> (r: Option<NativeOperation>)
    ensures
        r is Some <==> carries_operation(bytes@),
        forall|h: ReqHeader, body: Seq<u8>, auth: Seq<u8>|
            #[trigger] reads_as(bytes@, usize::MAX, h, body, auth) ==> r == decoded_operation(body, h.opcode),
{
    let ghost s = bytes@;
    match checked_req_from_bytes(bytes) {
        Some(req) => {
            let ghost h = req.header;
            let ghost body = request_body_bytes(req.body);
            let ghost auth = req.auth@;
            let r = match decode_operation(req.body, req.header.opcode) {
                Ok(op) => Some(op),
                Err(_) => None,
            };
            proof {
                assert forall|h2: ReqHeader, body2: Seq<u8>, auth2: Seq<u8>|
                    #[trigger] reads_as(s, usize::MAX, h2, body2, auth2)
                    implies r == decoded_operation(body2, h2.opcode) by {
                    lemma_reads_as_unique(s, usize::MAX, h, body, auth, h2, body2, auth2);
                }
            }
            r
        },
        None => {
            proof {
                assert forall|h2: ReqHeader, body2: Seq<u8>, auth2: Seq<u8>|
                    #[trigger] reads_as(s, usize::MAX, h2, body2, auth2) implies false by {
                    let w = choose|w: WireFields|
                        #[trigger] frames(s, w, body2, auth2) && accepted(w, usize::MAX) && header_of(w) == h2;
                    assert(frames(s, w, body2, auth2));
                }
            }
            None
        },
    }
}

/// The operation that the request at the start of `bytes` carries, decoded as
/// the operation of the request's opcode, for bytes that read as a request
/// whose body decodes.
pub fn get_operation_from_req_bytes(bytes: Vec<u8>) -> (op: NativeOperation)
    requires
        carries_operation(bytes@),
    ensures
        forall|h: ReqHeader, body: Seq<u8>, auth: Seq<u8>|
            #[trigger] reads_as(bytes@, usize::MAX, h, body, auth) ==> decoded_operation(body, h.opcode) == Some(op),
{
    match checked_operation_from_req_bytes(bytes) {
        Some(op) => op,
        None => vstd::pervasive::unreached(),
    }
}

} // verus!
