use parsec_client::codes::{AUTH_NO_AUTH, BODY_TYPE_PROTOBUF, OPCODE_PING, PROVIDER_CORE, STATUS_SUCCESS};
use parsec_client::exchange::{
    checked_operation_from_req_bytes, checked_req_from_bytes, checked_response_bytes_from_result,
    get_operation_from_req_bytes, get_req_from_bytes, get_response_bytes_from_result,
};
use parsec_client::header::{req_header, response_header_for, ReqHeader};
use parsec_interface::operations;
use parsec_interface::operations::list_providers::{ProviderInfo, Uuid};
use parsec_interface::operations::{Convert, NativeOperation, NativeResult};
use parsec_interface::operations_protobuf::ProtobufConverter;
use parsec_interface::requests::request::{RequestAuth, RequestHeader};
use parsec_interface::requests::{
    AuthType, BodyType, Opcode, ProviderId, Request, Response, ResponseStatus,
};
use std::io::Cursor;
use zeroize::Zeroizing;

const MAGIC: [u8; 4] = [0x10, 0xA7, 0xC0, 0x5E];

fn parsec_req_header(opcode: Opcode) -> RequestHeader {
    RequestHeader {
        provider: ProviderId::Core,
        session: 0,
        content_type: BodyType::Protobuf,
        accept_type: BodyType::Protobuf,
        auth_type: AuthType::NoAuth,
        opcode,
    }
}

fn request_bytes(header: RequestHeader, operation: NativeOperation, auth: &[u8]) -> Vec<u8> {
    let body = ProtobufConverter.operation_to_body(operation).unwrap();
    let request = Request {
        header,
        body,
        auth: RequestAuth::new(auth.to_vec()),
    };
    let mut bytes = Vec::new();
    request.write_to_stream(&mut bytes).unwrap();
    bytes
}

#[allow(clippy::too_many_arguments)]
fn frame_by_hand(
    flags: u16,
    provider: u8,
    session: u64,
    content_type: u8,
    accept_type: u8,
    auth_type: u8,
    opcode: u32,
    status: u16,
    reserved: [u8; 2],
    body: &[u8],
    auth: &[u8],
) -> Vec<u8> {
    let mut v = Vec::new();
    v.extend_from_slice(&MAGIC);
    v.extend_from_slice(&30u16.to_le_bytes());
    v.extend_from_slice(&[1, 0]);
    v.extend_from_slice(&flags.to_le_bytes());
    v.push(provider);
    v.extend_from_slice(&session.to_le_bytes());
    v.extend_from_slice(&[content_type, accept_type, auth_type]);
    v.extend_from_slice(&(body.len() as u32).to_le_bytes());
    v.extend_from_slice(&(auth.len() as u16).to_le_bytes());
    v.extend_from_slice(&opcode.to_le_bytes());
    v.extend_from_slice(&status.to_le_bytes());
    v.extend_from_slice(&reserved);
    v.extend_from_slice(body);
    v.extend_from_slice(auth);
    v
}

fn read_response(bytes: &[u8]) -> Response {
    Response::read_from_stream(&mut Cursor::new(bytes.to_vec()), usize::MAX).unwrap()
}

#[test]
fn default_request_header_fields() {
    let h = req_header();
    assert_eq!(h.provider, 0);
    assert_eq!(h.session, 0);
    assert_eq!(h.content_type, 0);
    assert_eq!(h.accept_type, 0);
    assert_eq!(h.auth_type, 0);
    assert_eq!(h.opcode, 1);
    assert_eq!(
        h,
        ReqHeader {
            provider: PROVIDER_CORE,
            session: 0,
            content_type: BODY_TYPE_PROTOBUF,
            accept_type: BODY_TYPE_PROTOBUF,
            auth_type: AUTH_NO_AUTH,
            opcode: OPCODE_PING,
        }
    );
}

#[test]
fn response_header_takes_accept_type_and_status() {
    let req = ReqHeader {
        provider: 3,
        session: 0x1122_3344_5566_7788,
        content_type: 7,
        accept_type: 0,
        auth_type: 2,
        opcode: 0x1B,
    };
    let resp = response_header_for(req, 1149);
    assert_eq!(resp.provider, 3);
    assert_eq!(resp.session, 0x1122_3344_5566_7788);
    assert_eq!(resp.content_type, 0);
    assert_eq!(resp.opcode, 0x1B);
    assert_eq!(resp.status, 1149);
}

#[test]
fn ping_result_response_layout() {
    let bytes = get_response_bytes_from_result(NativeResult::Ping(operations::ping::Result {
        wire_protocol_version_maj: 1,
        wire_protocol_version_min: 0,
    }));
    assert!(bytes.len() >= 36);
    assert_eq!(&bytes[0..4], &MAGIC);
    assert_eq!(&bytes[4..6], &[30, 0]);
    assert_eq!(&bytes[6..8], &[1, 0]);
    assert_eq!(&bytes[8..10], &[0, 0]);
    assert_eq!(bytes[10], PROVIDER_CORE);
    assert_eq!(&bytes[11..19], &[0; 8]);
    assert_eq!(&bytes[19..22], &[BODY_TYPE_PROTOBUF, 0, 0]);
    let body_len = u32::from_le_bytes([bytes[22], bytes[23], bytes[24], bytes[25]]) as usize;
    assert_eq!(bytes.len(), 36 + body_len);
    assert_eq!(&bytes[26..28], &[0, 0]);
    assert_eq!(&bytes[28..32], &1u32.to_le_bytes());
    assert_eq!(&bytes[32..34], &STATUS_SUCCESS.to_le_bytes());
    assert_eq!(&bytes[34..36], &[0, 0]);
}

#[test]
fn ping_result_reads_back() {
    let bytes = get_response_bytes_from_result(NativeResult::Ping(operations::ping::Result {
        wire_protocol_version_maj: 1,
        wire_protocol_version_min: 0,
    }));
    let response = read_response(&bytes);
    assert_eq!(response.header.provider, ProviderId::Core);
    assert_eq!(response.header.session, 0);
    assert_eq!(response.header.content_type, BodyType::Protobuf);
    assert_eq!(response.header.opcode, Opcode::Ping);
    assert_eq!(response.header.status, ResponseStatus::Success);
    match ProtobufConverter
        .body_to_result(response.body, Opcode::Ping)
        .unwrap()
    {
        NativeResult::Ping(result) => {
            assert_eq!(result.wire_protocol_version_maj, 1);
            assert_eq!(result.wire_protocol_version_min, 0);
        }
        other => panic!("wrong result: {:?}", other),
    }
}

#[test]
fn list_providers_response_carries_opcode_and_result() {
    let provider_info = vec![ProviderInfo {
        uuid: Uuid::nil(),
        description: String::from("Some empty provider"),
        vendor: String::from("Arm Ltd."),
        version_maj: 1,
        version_min: 0,
        version_rev: 0,
        id: ProviderId::Core,
    }];
    let bytes = get_response_bytes_from_result(NativeResult::ListProviders(
        operations::list_providers::Result {
            providers: provider_info,
        },
    ));
    assert_eq!(&bytes[28..32], &0x08u32.to_le_bytes());
    let response = read_response(&bytes);
    assert_eq!(response.header.opcode, Opcode::ListProviders);
    assert_eq!(response.header.status, ResponseStatus::Success);
    match ProtobufConverter
        .body_to_result(response.body, Opcode::ListProviders)
        .unwrap()
    {
        NativeResult::ListProviders(result) => {
            assert_eq!(result.providers.len(), 1);
            assert_eq!(result.providers[0].uuid, Uuid::nil());
            assert_eq!(result.providers[0].vendor, "Arm Ltd.");
        }
        other => panic!("wrong result: {:?}", other),
    }
}

#[test]
fn generate_random_response_carries_bytes() {
    let mock_result = vec![0xDE, 0xAD, 0xBE, 0xEF];
    let bytes = get_response_bytes_from_result(NativeResult::PsaGenerateRandom(
        operations::psa_generate_random::Result {
            random_bytes: Zeroizing::from(mock_result.clone()),
        },
    ));
    let response = read_response(&bytes);
    assert_eq!(response.header.opcode, Opcode::PsaGenerateRandom);
    match ProtobufConverter
        .body_to_result(response.body, Opcode::PsaGenerateRandom)
        .unwrap()
    {
        NativeResult::PsaGenerateRandom(result) => assert_eq!(*result.random_bytes, mock_result),
        other => panic!("wrong result: {:?}", other),
    }
}

#[test]
fn empty_result_has_empty_body() {
    let bytes = get_response_bytes_from_result(NativeResult::PsaDestroyKey(
        operations::psa_destroy_key::Result {},
    ));
    assert_eq!(bytes.len(), 36);
    assert_eq!(&bytes[22..26], &[0, 0, 0, 0]);
    assert_eq!(&bytes[28..32], &0x03u32.to_le_bytes());
}

#[test]
fn request_header_reads_back() {
    let bytes = request_bytes(
        parsec_req_header(Opcode::Ping),
        NativeOperation::Ping(operations::ping::Operation {}),
        b"",
    );
    let req = get_req_from_bytes(bytes);
    assert_eq!(req.header, req_header());
    assert!(req.auth.is_empty());
}

#[test]
fn request_body_and_auth_read_back() {
    let header = RequestHeader {
        provider: ProviderId::MbedCrypto,
        session: 0xABCD,
        content_type: BodyType::Protobuf,
        accept_type: BodyType::Protobuf,
        auth_type: AuthType::Direct,
        opcode: Opcode::PsaDestroyKey,
    };
    let operation = NativeOperation::PsaDestroyKey(operations::psa_destroy_key::Operation {
        key_name: String::from("key-name"),
    });
    let expected_body = ProtobufConverter
        .operation_to_body(NativeOperation::PsaDestroyKey(
            operations::psa_destroy_key::Operation {
                key_name: String::from("key-name"),
            },
        ))
        .unwrap();
    let bytes = request_bytes(header, operation, b"some_app_name");
    let req = get_req_from_bytes(bytes);
    assert_eq!(
        req.header,
        ReqHeader {
            provider: 1,
            session: 0xABCD,
            content_type: 0,
            accept_type: 0,
            auth_type: 1,
            opcode: 0x03,
        }
    );
    assert_eq!(req.body.bytes(), expected_body.bytes());
    assert_eq!(req.auth, b"some_app_name".to_vec());
}

#[test]
fn request_by_hand_reads_back() {
    let bytes = frame_by_hand(0, 2, 7, 0, 0, 3, 0x1C, 0, [0, 0], &[1, 2, 3], &[9, 8]);
    let req = get_req_from_bytes(bytes);
    assert_eq!(
        req.header,
        ReqHeader {
            provider: 2,
            session: 7,
            content_type: 0,
            accept_type: 0,
            auth_type: 3,
            opcode: 0x1C,
        }
    );
    assert_eq!(req.body.bytes(), &[1, 2, 3]);
    assert_eq!(req.auth, vec![9, 8]);
}

#[test]
fn request_flags_and_status_are_not_looked_at() {
    let bytes = frame_by_hand(0xFFFF, 0, 0, 0, 0, 0, 1, 0x1234, [0, 0], &[], &[]);
    let req = get_req_from_bytes(bytes);
    assert_eq!(req.header, req_header());
}

#[test]
fn request_followed_by_more_bytes_reads_first_frame() {
    let mut bytes = frame_by_hand(0, 0, 0, 0, 0, 0, 1, 0, [0, 0], &[5], &[6]);
    bytes.extend_from_slice(&[0xcb; 10]);
    let req = get_req_from_bytes(bytes);
    assert_eq!(req.body.bytes(), &[5]);
    assert_eq!(req.auth, vec![6]);
}

#[test]
fn malformed_request_is_refused() {
    assert!(checked_req_from_bytes(vec![0xcb_u8; 130]).is_none());
    assert!(checked_operation_from_req_bytes(vec![0xcb_u8; 130]).is_none());
    assert!(checked_req_from_bytes(Vec::new()).is_none());
}

#[test]
fn truncated_request_is_refused() {
    let mut bytes = frame_by_hand(0, 0, 0, 0, 0, 0, 1, 0, [0, 0], &[1, 2], &[3]);
    let _ = bytes.pop();
    assert!(checked_req_from_bytes(bytes).is_none());
}

#[test]
fn reserved_bytes_must_be_zero() {
    let bytes = frame_by_hand(0, 0, 0, 0, 0, 0, 1, 0, [1, 0], &[], &[]);
    assert!(checked_req_from_bytes(bytes).is_none());
    let bytes = frame_by_hand(0, 0, 0, 0, 0, 0, 1, 0, [0, 1], &[], &[]);
    assert!(checked_req_from_bytes(bytes).is_none());
}

#[test]
fn undefined_codes_are_refused() {
    // opcode 0x16 is not an operation
    assert!(checked_req_from_bytes(frame_by_hand(0, 0, 0, 0, 0, 0, 0x16, 0, [0, 0], &[], &[])).is_none());
    // provider 6 does not exist
    assert!(checked_req_from_bytes(frame_by_hand(0, 6, 0, 0, 0, 0, 1, 0, [0, 0], &[], &[])).is_none());
    // content type 1 is not a body type
    assert!(checked_req_from_bytes(frame_by_hand(0, 0, 0, 1, 0, 0, 1, 0, [0, 0], &[], &[])).is_none());
    // accept type 1 is not a body type
    assert!(checked_req_from_bytes(frame_by_hand(0, 0, 0, 0, 1, 0, 1, 0, [0, 0], &[], &[])).is_none());
    // authenticator 5 does not exist
    assert!(checked_req_from_bytes(frame_by_hand(0, 0, 0, 0, 0, 5, 1, 0, [0, 0], &[], &[])).is_none());
    // the last of each range is accepted
    assert!(checked_req_from_bytes(frame_by_hand(0, 5, 0, 0, 0, 4, 0x20, 0, [0, 0], &[], &[])).is_some());
}

#[test]
fn wrong_magic_or_version_is_refused() {
    let mut bytes = frame_by_hand(0, 0, 0, 0, 0, 0, 1, 0, [0, 0], &[], &[]);
    bytes[0] = 0x11;
    assert!(checked_req_from_bytes(bytes).is_none());
    let mut bytes = frame_by_hand(0, 0, 0, 0, 0, 0, 1, 0, [0, 0], &[], &[]);
    bytes[6] = 2;
    assert!(checked_req_from_bytes(bytes).is_none());
    let mut bytes = frame_by_hand(0, 0, 0, 0, 0, 0, 1, 0, [0, 0], &[], &[]);
    bytes[4] = 31;
    assert!(checked_req_from_bytes(bytes).is_none());
}

#[test]
fn delete_client_operation_reads_back() {
    let client_name = String::from("toto");
    let bytes = request_bytes(
        parsec_req_header(Opcode::DeleteClient),
        NativeOperation::DeleteClient(operations::delete_client::Operation {
            client: client_name.clone(),
        }),
        b"",
    );
    match get_operation_from_req_bytes(bytes) {
        NativeOperation::DeleteClient(op) => assert_eq!(op.client, client_name),
        other => panic!("Got wrong operation type: {:?}", other),
    }
}

#[test]
fn generate_random_operation_reads_back() {
    let bytes = request_bytes(
        parsec_req_header(Opcode::PsaGenerateRandom),
        NativeOperation::PsaGenerateRandom(operations::psa_generate_random::Operation { size: 4 }),
        b"app",
    );
    match checked_operation_from_req_bytes(bytes) {
        Some(NativeOperation::PsaGenerateRandom(op)) => assert_eq!(op.size, 4),
        other => panic!("Got wrong operation type: {:?}", other),
    }
}

#[test]
fn undecodable_body_gives_no_operation() {
    // a body that is not a protobuf message
    let bytes = frame_by_hand(0, 0, 0, 0, 0, 0, 0x1C, 0, [0, 0], &[0xff, 0xff, 0xff], &[]);
    assert!(checked_req_from_bytes(bytes.clone()).is_some());
    assert!(checked_operation_from_req_bytes(bytes).is_none());
}

#[test]
fn checked_response_matches_unchecked() {
    let make = || {
        NativeResult::PsaExportPublicKey(operations::psa_export_public_key::Result {
            data: vec![0xa5_u8; 128].into(),
        })
    };
    let checked = checked_response_bytes_from_result(make()).expect("encodes");
    let unchecked = get_response_bytes_from_result(make());
    assert_eq!(checked, unchecked);
    assert_eq!(&checked[28..32], &0x07u32.to_le_bytes());
    let response = read_response(&checked);
    assert_eq!(response.header.opcode, Opcode::PsaExportPublicKey);
    match ProtobufConverter
        .body_to_result(response.body, Opcode::PsaExportPublicKey)
        .unwrap()
    {
        NativeResult::PsaExportPublicKey(result) => assert_eq!(*result.data, vec![0xa5_u8; 128]),
        other => panic!("wrong result: {:?}", other),
    }
}

#[test]
fn checked_request_matches_unchecked() {
    let bytes = frame_by_hand(0, 1, 42, 0, 0, 1, 0x1B, 0, [0, 0], &[], &[7]);
    let checked = checked_req_from_bytes(bytes.clone()).expect("reads");
    let unchecked = get_req_from_bytes(bytes);
    assert_eq!(checked.header, unchecked.header);
    assert_eq!(checked.auth, unchecked.auth);
    assert_eq!(checked.body.bytes(), unchecked.body.bytes());
}

#[test]
fn equal_results_give_equal_response_bytes() {
    let make = || {
        NativeResult::ListClients(operations::list_clients::Result {
            clients: vec!["toto".to_string(), "tata".to_string()],
        })
    };
    let first = get_response_bytes_from_result(make());
    let second = get_response_bytes_from_result(make());
    assert_eq!(first, second);
    assert_eq!(&first[28..32], &0x1Bu32.to_le_bytes());
}
