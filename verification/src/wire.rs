//! Calls into `parsec-interface`: writing a response frame, reading a request
//! frame, and the protobuf conversions of operations and results.
use vstd::prelude::*;

use mockstream::MockStream;
use num_traits::FromPrimitive;
use parsec_interface::operations::{Convert, NativeOperation, NativeResult};
use parsec_interface::operations_protobuf::ProtobufConverter;
use parsec_interface::requests::request::RequestBody;
use parsec_interface::requests::response::{ResponseBody, ResponseHeader};
use parsec_interface::requests::{BodyType, Opcode, ProviderId, Request, Response, ResponseStatus};
use parsec_interface::secrecy::ExposeSecret;
use std::convert::TryFrom;

use crate::codes::{is_opcode_code, OPCODE_LIST_OPCODES};
use crate::exchange::ParsedRequest;
use crate::frame::{has_request, reads_as, response_frame};
use crate::header::{ReqHeader, RespHeader};
use crate::mock::{mock_unread, mock_written};

verus! {

#[verifier::external_type_specification]
#[verifier::external_body]
pub struct ExNativeResult(NativeResult);

#[verifier::external_type_specification]
#[verifier::external_body]
pub struct ExNativeOperation(NativeOperation);

#[verifier::external_type_specification]
#[verifier::external_body]
pub struct ExRequestBody(RequestBody);

#[verifier::external_type_specification]
#[verifier::external_body]
pub struct ExResponseBody(ResponseBody);

#[verifier::external_type_specification]
#[verifier::external_body]
pub struct ExResponseStatus(ResponseStatus);

/// The bytes of a request body.
pub uninterp spec fn request_body_bytes(body: RequestBody) -> Seq<u8>;

/// The bytes of a response body.
pub uninterp spec fn response_body_bytes(body: ResponseBody) -> Seq<u8>;

/// The opcode that `NativeResult::opcode` gives for a result.
pub uninterp spec fn native_result_opcode(result: NativeResult) -> u32;

/// The protobuf encoding of a result, or `None` where the protobuf converter
/// cannot encode it.  For a list of opcodes, whose encoding follows the order
/// in which a hash set is walked, it is one of the encodings of the result,
/// all of which have the same length.
pub uninterp spec fn encoded_result(result: NativeResult) -> Option<Seq<u8>>;

/// The operation into which the protobuf converter decodes a request body with
/// these bytes, as the operation with this opcode, or `None` where it cannot.
pub uninterp spec fn decoded_operation(body: Seq<u8>, opcode: u32) -> Option<NativeOperation>;

/// `body` holds the same bytes as `enc`, with the same first two bytes, and
/// the bytes after them possibly in another order.
pub open spec fn reorders_after_two(body: Seq<u8>, enc: Seq<u8>) -> bool {
    &&& body.len() == enc.len()
    &&& enc.len() < 2 ==> body == enc
    &&& enc.len() >= 2 ==> body.take(2) == enc.take(2) && body.skip(2).to_multiset() == enc.skip(2).to_multiset()
}

/// Calls `NativeResult::opcode`: the opcode of the operation that a result
/// answers, which is one that the protocol defines.
#[verifier::external_body]
pub(crate) fn result_opcode(result: &NativeResult) -> (opcode: u32)
    ensures
        opcode == native_result_opcode(*result),
        is_opcode_code(opcode),
{
    result.opcode() as u32
}

/// Calls `Convert::result_to_body` of `ProtobufConverter`: the protobuf
/// encoding of a result.  Whether it succeeds, and the length of the
/// encoding, depend on the result alone; so do the bytes, except for a list of
/// opcodes, whose bytes follow the order in which a hash set is
/// walked.  That encoding is empty for no opcodes, and otherwise the field key
/// 0x0A, the count of opcodes and one byte per opcode, in walk order (each
/// opcode and the count are below 128); so it is the named encoding with the
/// opcode bytes possibly reordered.
#[verifier::external_body]
pub(crate) fn result_to_body(result: NativeResult) -> (r: Result<ResponseBody, ResponseStatus>)
    ensures
        r is Ok <==> encoded_result(result) is Some,
        r matches Ok(body) ==> response_body_bytes(body).len() == encoded_result(result)->0.len(),
        r matches Ok(body) ==> (native_result_opcode(result) != OPCODE_LIST_OPCODES
            ==> response_body_bytes(body) == encoded_result(result)->0),
        r matches Ok(body) ==> reorders_after_two(response_body_bytes(body), encoded_result(result)->0),
{
    ProtobufConverter.result_to_body(result)
}

/// Calls `Convert::body_to_operation` of `ProtobufConverter`: decodes a request
/// body as the operation with the given opcode.  The outcome is
/// `decoded_operation` of the body's bytes and the opcode.
#[verifier::external_body]
pub(crate) fn decode_operation(body: RequestBody, opcode: u32) -> (r: Result<NativeOperation, ResponseStatus>)
    requires
        is_opcode_code(opcode),
    ensures
        r is Ok <==> decoded_operation(request_body_bytes(body), opcode) is Some,
        r matches Ok(op) ==> decoded_operation(request_body_bytes(body), opcode) == Some(op),
{
    ProtobufConverter.body_to_operation(body, Opcode::from_u32(opcode).unwrap())
}

/// Calls `Response::write_to_stream` on a response with the given header and
/// body.  It fails, writing nothing, exactly when the body is too long for its
/// length to fit the header's 32 bits; otherwise it appends the response frame
/// to what was written.
#[verifier::external_body]
pub(crate) fn write_response(stream: &mut MockStream, header: RespHeader, body: ResponseBody) -> (r: Result<(), ResponseStatus>)
    requires
        header.is_valid(),
    ensures
        r is Ok <==> response_body_bytes(body).len() <= u32::MAX,
        r is Ok ==> mock_written(*final(stream)) == mock_written(*old(stream)) + response_frame(header, response_body_bytes(body)),
        r is Err ==> mock_written(*final(stream)) == mock_written(*old(stream)),
        mock_unread(*final(stream)) == mock_unread(*old(stream)),
{
    let header = ResponseHeader {
        provider: ProviderId::try_from(header.provider).unwrap(),
        session: header.session,
        content_type: BodyType::from_u8(header.content_type).unwrap(),
        opcode: Opcode::from_u32(header.opcode).unwrap(),
        status: ResponseStatus::try_from(header.status).unwrap(),
    };
    Response { header, body }.write_to_stream(stream)
}

/// Calls `Request::read_from_stream` with the body limit `limit`.  It succeeds
/// exactly when what is still to be read starts with a request frame that it
/// accepts (see `frame::accepted`), and then returns that frame's header,
/// body and authentication bytes.  What is left to read afterwards, and which
/// error comes on failure, is not stated.
#[verifier::external_body]
pub(crate) fn read_request(stream: &mut MockStream, limit: usize) -> (r: Result<ParsedRequest, ResponseStatus>)
    ensures
        r matches Ok(p) ==> reads_as(mock_unread(*old(stream)), limit, p.header, request_body_bytes(p.body), p.auth@),
        has_request(mock_unread(*old(stream)), limit) ==> r is Ok,
        mock_written(*final(stream)) == mock_written(*old(stream)),
{
    let request = Request::read_from_stream(stream, limit)?;
    let h = request.header;
    let header = ReqHeader {
        provider: h.provider as u8,
        session: h.session,
        content_type: h.content_type as u8,
        accept_type: h.accept_type as u8,
        auth_type: h.auth_type as u8,
        opcode: h.opcode as u32,
    };
    Ok(ParsedRequest { header, body: request.body, auth: request.auth.buffer.expose_secret().clone() })
}

} // verus!
