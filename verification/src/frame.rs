//! The byte layout of a request or response frame in version 1.0 of the Parsec
//! wire protocol: a fixed 36-byte header, then the body, then the
//! authentication bytes.  Every integer is little-endian.
use vstd::prelude::*;

use crate::header::{ReqHeader, RespHeader};

verus! {

/// Length in bytes of the fixed header that starts every frame.
pub const WIRE_HEADER_LEN: usize = 36;

/// Every field of the fixed header that follows the magic number, the header
/// size and the protocol version.
#[derive(Clone, Copy, Debug, PartialEq, Eq, Structural)]
pub struct WireFields {
    pub flags: u16,
    pub provider: u8,
    pub session: u64,
    pub content_type: u8,
    pub accept_type: u8,
    pub auth_type: u8,
    pub body_len: u32,
    pub auth_len: u16,
    pub opcode: u32,
    pub status: u16,
    pub reserved1: u8,
    pub reserved2: u8,
}

/// Byte `i` of the fixed header:
///
/// | bytes  | content                               |
/// |--------|---------------------------------------|
/// | 0..4   | magic number 0x5EC0A710               |
/// | 4..6   | size of the rest of the header, 30    |
/// | 6, 7   | protocol version 1.0                  |
/// | 8..10  | flags                                 |
/// | 10     | provider                              |
/// | 11..19 | session                               |
/// | 19     | content type                          |
/// | 20     | accept type                           |
/// | 21     | authentication type                   |
/// | 22..26 | body length                           |
/// | 26..28 | authentication length                 |
/// | 28..32 | opcode                                |
/// | 32..34 | status                                |
/// | 34, 35 | reserved                              |
pub open spec fn header_byte(w: WireFields, i: int) -> u8 {
    if i == 0 { 0x10u8 }
    else if i == 1 { 0xA7u8 }
    else if i == 2 { 0xC0u8 }
    else if i == 3 { 0x5Eu8 }
    else if i == 4 { 30u8 }
    else if i == 5 { 0u8 }
    else if i == 6 { 1u8 }
    else if i == 7 { 0u8 }
    else if i == 8 { w.flags as u8 }
    else if i == 9 { (w.flags >> 8u16) as u8 }
    else if i == 10 { w.provider }
    else if i == 11 { w.session as u8 }
    else if i == 12 { (w.session >> 8u64) as u8 }
    else if i == 13 { (w.session >> 16u64) as u8 }
    else if i == 14 { (w.session >> 24u64) as u8 }
    else if i == 15 { (w.session >> 32u64) as u8 }
    else if i == 16 { (w.session >> 40u64) as u8 }
    else if i == 17 { (w.session >> 48u64) as u8 }
    else if i == 18 { (w.session >> 56u64) as u8 }
    else if i == 19 { w.content_type }
    else if i == 20 { w.accept_type }
    else if i == 21 { w.auth_type }
    else if i == 22 { w.body_len as u8 }
    else if i == 23 { (w.body_len >> 8u32) as u8 }
    else if i == 24 { (w.body_len >> 16u32) as u8 }
    else if i == 25 { (w.body_len >> 24u32) as u8 }
    else if i == 26 { w.auth_len as u8 }
    else if i == 27 { (w.auth_len >> 8u16) as u8 }
    else if i == 28 { w.opcode as u8 }
    else if i == 29 { (w.opcode >> 8u32) as u8 }
    else if i == 30 { (w.opcode >> 16u32) as u8 }
    else if i == 31 { (w.opcode >> 24u32) as u8 }
    else if i == 32 { w.status as u8 }
    else if i == 33 { (w.status >> 8u16) as u8 }
    else if i == 34 { w.reserved1 }
    else { w.reserved2 }
}

/// The fixed header of a frame.
pub open spec fn header_bytes(w: WireFields) -> Seq<u8> {
    Seq::new(WIRE_HEADER_LEN as nat, |i: int| header_byte(w, i))
}

/// A whole frame: fixed header, body, authentication bytes.
pub open spec fn raw_frame(w: WireFields, body: Seq<u8>, auth: Seq<u8>) -> Seq<u8> {
    header_bytes(w) + body + auth
}

/// `s` starts with a frame whose header is `w`, whose body is `body` and whose
/// authentication bytes are `auth`, the lengths in the header matching.
pub open spec fn frames(s: Seq<u8>, w: WireFields, body: Seq<u8>, auth: Seq<u8>) -> bool {
    &&& body.len() == w.body_len
    &&& auth.len() == w.auth_len
    &&& raw_frame(w, body, auth).is_prefix_of(s)
}

/// The header fields of a request that a frame header carries.
pub open spec fn header_of(w: WireFields) -> ReqHeader {
    ReqHeader {
        provider: w.provider,
        session: w.session,
        content_type: w.content_type,
        accept_type: w.accept_type,
        auth_type: w.auth_type,
        opcode: w.opcode,
    }
}

/// A frame header that a request reader with body limit `limit` accepts: the
/// reserved bytes are zero, the body is within the limit, and the request
/// header fields hold defined codes.  Flags and status are not looked at.
pub open spec fn accepted(w: WireFields, limit: usize) -> bool {
    &&& w.reserved1 == 0
    &&& w.reserved2 == 0
    &&& w.body_len <= limit
    &&& header_of(w).is_valid()
}

/// `s` starts with a request that a reader with body limit `limit` accepts,
/// with header `h`, body `body` and authentication bytes `auth`.
pub open spec fn reads_as(s: Seq<u8>, limit: usize, h: ReqHeader, body: Seq<u8>, auth: Seq<u8>) -> bool {
    exists|w: WireFields| #[trigger] frames(s, w, body, auth) && accepted(w, limit) && header_of(w) == h
}

/// `s` starts with some request that a reader with body limit `limit` accepts.
pub open spec fn has_request(s: Seq<u8>, limit: usize) -> bool {
    exists|w: WireFields, body: Seq<u8>, auth: Seq<u8>| #[trigger] frames(s, w, body, auth) && accepted(w, limit)
}

/// The frame header that a client writes for a request.
pub open spec fn request_fields(h: ReqHeader, body_len: u32, auth_len: u16) -> WireFields {
    WireFields {
        flags: 0,
        provider: h.provider,
        session: h.session,
        content_type: h.content_type,
        accept_type: h.accept_type,
        auth_type: h.auth_type,
        body_len: body_len,
        auth_len: auth_len,
        opcode: h.opcode,
        status: 0,
        reserved1: 0,
        reserved2: 0,
    }
}

/// The frame of a request, for a body shorter than 2^32 bytes and
/// authentication bytes fewer than 2^16.
pub open spec fn request_frame(h: ReqHeader, body: Seq<u8>, auth: Seq<u8>) -> Seq<u8>
    recommends
        body.len() <= u32::MAX,
        auth.len() <= u16::MAX,
{
    raw_frame(request_fields(h, body.len() as u32, auth.len() as u16), body, auth)
}

/// The frame header of a response: no accept type, no authentication.
pub open spec fn response_fields(r: RespHeader, body_len: u32) -> WireFields {
    WireFields {
        flags: 0,
        provider: r.provider,
        session: r.session,
        content_type: r.content_type,
        accept_type: 0,
        auth_type: 0,
        body_len: body_len,
        auth_len: 0,
        opcode: r.opcode,
        status: r.status,
        reserved1: 0,
        reserved2: 0,
    }
}

/// The frame of a response, for a body shorter than 2^32 bytes.
pub open spec fn response_frame(r: RespHeader, body: Seq<u8>) -> Seq<u8>
    recommends
        body.len() <= u32::MAX,
{
    raw_frame(response_fields(r, body.len() as u32), body, Seq::empty())
}

proof fn lemma_u16_from_bytes(x: u16, y: u16)
    by (bit_vector)
    requires
        x as u8 == y as u8,
        (x >> 8u16) as u8 == (y >> 8u16) as u8,
    ensures
        x == y,
{
}

proof fn lemma_u32_from_bytes(x: u32, y: u32)
    by (bit_vector)
    requires
        x as u8 == y as u8,
        (x >> 8u32) as u8 == (y >> 8u32) as u8,
        (x >> 16u32) as u8 == (y >> 16u32) as u8,
        (x >> 24u32) as u8 == (y >> 24u32) as u8,
    ensures
        x == y,
{
}

proof fn lemma_u64_from_bytes(x: u64, y: u64)
    by (bit_vector)
    requires
        x as u8 == y as u8,
        (x >> 8u64) as u8 == (y >> 8u64) as u8,
        (x >> 16u64) as u8 == (y >> 16u64) as u8,
        (x >> 24u64) as u8 == (y >> 24u64) as u8,
        (x >> 32u64) as u8 == (y >> 32u64) as u8,
        (x >> 40u64) as u8 == (y >> 40u64) as u8,
        (x >> 48u64) as u8 == (y >> 48u64) as u8,
        (x >> 56u64) as u8 == (y >> 56u64) as u8,
    ensures
        x == y,
{
}

/// The little-endian 16-bit number at byte `i` of `s`.
pub open spec fn le_u16_at(s: Seq<u8>, i: int) -> int {
    s[i] + 0x100 * s[i + 1]
}

/// The little-endian 32-bit number at byte `i` of `s`.
pub open spec fn le_u32_at(s: Seq<u8>, i: int) -> int {
    s[i] + 0x100 * s[i + 1] + 0x1_0000 * s[i + 2] + 0x100_0000 * s[i + 3]
}

/// The little-endian 64-bit number at byte `i` of `s`.
pub open spec fn le_u64_at(s: Seq<u8>, i: int) -> int {
    le_u32_at(s, i) + 0x1_0000_0000 * le_u32_at(s, i + 4)
}

proof fn lemma_u16_value(x: u16)
    by (bit_vector)
    ensures
        x == (x as u8) + 0x100 * ((x >> 8u16) as u8),
{
}

proof fn lemma_u32_value(x: u32)
    by (bit_vector)
    ensures
        x == (x as u8) + 0x100 * ((x >> 8u32) as u8) + 0x1_0000 * ((x >> 16u32) as u8)
            + 0x100_0000 * ((x >> 24u32) as u8),
{
}

proof fn lemma_u64_value(x: u64)
    by (bit_vector)
    ensures
        x == (x as u8) + 0x100 * ((x >> 8u64) as u8) + 0x1_0000 * ((x >> 16u64) as u8)
            + 0x100_0000 * ((x >> 24u64) as u8) + 0x1_0000_0000 * (((x >> 32u64) as u8)
            + 0x100 * ((x >> 40u64) as u8) + 0x1_0000 * ((x >> 48u64) as u8)
            + 0x100_0000 * ((x >> 56u64) as u8)),
{
}

/// Reading a frame header back: each field of the header is found, as a
/// little-endian number, at its place in the header's bytes, after the magic
/// number 0x5EC0A710, the header size 30 and the version 1.0.
pub proof fn lemma_header_bytes_fields(w: WireFields)
    ensures
        header_bytes(w).len() == 36,
        le_u32_at(header_bytes(w), 0) == 0x5EC0A710,
        le_u16_at(header_bytes(w), 4) == 30,
        header_bytes(w)[6] == 1,
        header_bytes(w)[7] == 0,
        le_u16_at(header_bytes(w), 8) == w.flags,
        header_bytes(w)[10] == w.provider,
        le_u64_at(header_bytes(w), 11) == w.session,
        header_bytes(w)[19] == w.content_type,
        header_bytes(w)[20] == w.accept_type,
        header_bytes(w)[21] == w.auth_type,
        le_u32_at(header_bytes(w), 22) == w.body_len,
        le_u16_at(header_bytes(w), 26) == w.auth_len,
        le_u32_at(header_bytes(w), 28) == w.opcode,
        le_u16_at(header_bytes(w), 32) == w.status,
        header_bytes(w)[34] == w.reserved1,
        header_bytes(w)[35] == w.reserved2,
{
    let h = header_bytes(w);
    assert forall|i: int| 0 <= i < 36 implies h[i] == header_byte(w, i) by {}
    assert(h[0] == header_byte(w, 0));
    assert(h[1] == header_byte(w, 1));
    assert(h[2] == header_byte(w, 2));
    assert(h[3] == header_byte(w, 3));
    assert(h[4] == header_byte(w, 4));
    assert(h[5] == header_byte(w, 5));
    assert(h[6] == header_byte(w, 6));
    assert(h[7] == header_byte(w, 7));
    assert(h[8] == header_byte(w, 8));
    assert(h[9] == header_byte(w, 9));
    lemma_u16_value(w.flags);
    assert(h[10] == header_byte(w, 10));
    assert(h[11] == header_byte(w, 11));
    assert(h[12] == header_byte(w, 12));
    assert(h[13] == header_byte(w, 13));
    assert(h[14] == header_byte(w, 14));
    assert(h[15] == header_byte(w, 15));
    assert(h[16] == header_byte(w, 16));
    assert(h[17] == header_byte(w, 17));
    assert(h[18] == header_byte(w, 18));
    lemma_u64_value(w.session);
    assert(h[19] == header_byte(w, 19));
    assert(h[20] == header_byte(w, 20));
    assert(h[21] == header_byte(w, 21));
    assert(h[22] == header_byte(w, 22));
    assert(h[23] == header_byte(w, 23));
    assert(h[24] == header_byte(w, 24));
    assert(h[25] == header_byte(w, 25));
    lemma_u32_value(w.body_len);
    assert(h[26] == header_byte(w, 26));
    assert(h[27] == header_byte(w, 27));
    lemma_u16_value(w.auth_len);
    assert(h[28] == header_byte(w, 28));
    assert(h[29] == header_byte(w, 29));
    assert(h[30] == header_byte(w, 30));
    assert(h[31] == header_byte(w, 31));
    lemma_u32_value(w.opcode);
    assert(h[32] == header_byte(w, 32));
    assert(h[33] == header_byte(w, 33));
    lemma_u16_value(w.status);
    assert(h[34] == header_byte(w, 34));
    assert(h[35] == header_byte(w, 35));
}

/// Reading a response frame back: its header gives the response header's
/// provider, session, content type, opcode and status, no accept type and no
/// authentication, and the body's length; after the 36 header bytes comes the
/// body and nothing else.
pub proof fn lemma_response_frame_fields(r: RespHeader, body: Seq<u8>)
    requires
        body.len() <= u32::MAX,
    ensures
        response_frame(r, body).len() == 36 + body.len(),
        response_frame(r, body)[10] == r.provider,
        le_u64_at(response_frame(r, body), 11) == r.session,
        response_frame(r, body)[19] == r.content_type,
        response_frame(r, body)[20] == 0,
        response_frame(r, body)[21] == 0,
        le_u32_at(response_frame(r, body), 22) == body.len(),
        le_u16_at(response_frame(r, body), 26) == 0,
        le_u32_at(response_frame(r, body), 28) == r.opcode,
        le_u16_at(response_frame(r, body), 32) == r.status,
        response_frame(r, body).subrange(36, 36 + body.len() as int) == body,
{
    let w = response_fields(r, body.len() as u32);
    let h = header_bytes(w);
    let f = response_frame(r, body);
    lemma_header_bytes_fields(w);
    assert(f == h + body + Seq::<u8>::empty());
    assert forall|i: int| 0 <= i < 36 implies f[i] == h[i] by {}
    assert(f[10] == h[10]);
    assert(f[11] == h[11] && f[12] == h[12] && f[13] == h[13] && f[14] == h[14]);
    assert(f[15] == h[15] && f[16] == h[16] && f[17] == h[17] && f[18] == h[18]);
    assert(f[19] == h[19] && f[20] == h[20] && f[21] == h[21]);
    assert(f[22] == h[22] && f[23] == h[23] && f[24] == h[24] && f[25] == h[25]);
    assert(f[26] == h[26] && f[27] == h[27]);
    assert(f[28] == h[28] && f[29] == h[29] && f[30] == h[30] && f[31] == h[31]);
    assert(f[32] == h[32] && f[33] == h[33]);
    assert(f.subrange(36, 36 + body.len() as int) =~= body);
}

/// Two frame headers with the same bytes hold the same fields.
pub proof fn lemma_header_bytes_injective(w1: WireFields, w2: WireFields)
    requires
        header_bytes(w1) == header_bytes(w2),
    ensures
        w1 == w2,
{
    assert forall|i: int| 0 <= i < 36 implies header_byte(w1, i) == header_byte(w2, i) by {
        assert(header_bytes(w1)[i] == header_byte(w1, i));
        assert(header_bytes(w2)[i] == header_byte(w2, i));
        assert(header_bytes(w1)[i] == header_bytes(w2)[i]);
    }
    assert(header_byte(w1, 8) == header_byte(w2, 8));
    assert(header_byte(w1, 9) == header_byte(w2, 9));
    lemma_u16_from_bytes(w1.flags, w2.flags);
    assert(header_byte(w1, 10) == header_byte(w2, 10));
    assert(header_byte(w1, 11) == header_byte(w2, 11));
    assert(header_byte(w1, 12) == header_byte(w2, 12));
    assert(header_byte(w1, 13) == header_byte(w2, 13));
    assert(header_byte(w1, 14) == header_byte(w2, 14));
    assert(header_byte(w1, 15) == header_byte(w2, 15));
    assert(header_byte(w1, 16) == header_byte(w2, 16));
    assert(header_byte(w1, 17) == header_byte(w2, 17));
    assert(header_byte(w1, 18) == header_byte(w2, 18));
    lemma_u64_from_bytes(w1.session, w2.session);
    assert(header_byte(w1, 19) == header_byte(w2, 19));
    assert(header_byte(w1, 20) == header_byte(w2, 20));
    assert(header_byte(w1, 21) == header_byte(w2, 21));
    assert(header_byte(w1, 22) == header_byte(w2, 22));
    assert(header_byte(w1, 23) == header_byte(w2, 23));
    assert(header_byte(w1, 24) == header_byte(w2, 24));
    assert(header_byte(w1, 25) == header_byte(w2, 25));
    lemma_u32_from_bytes(w1.body_len, w2.body_len);
    assert(header_byte(w1, 26) == header_byte(w2, 26));
    assert(header_byte(w1, 27) == header_byte(w2, 27));
    lemma_u16_from_bytes(w1.auth_len, w2.auth_len);
    assert(header_byte(w1, 28) == header_byte(w2, 28));
    assert(header_byte(w1, 29) == header_byte(w2, 29));
    assert(header_byte(w1, 30) == header_byte(w2, 30));
    assert(header_byte(w1, 31) == header_byte(w2, 31));
    lemma_u32_from_bytes(w1.opcode, w2.opcode);
    assert(header_byte(w1, 32) == header_byte(w2, 32));
    assert(header_byte(w1, 33) == header_byte(w2, 33));
    lemma_u16_from_bytes(w1.status, w2.status);
    assert(header_byte(w1, 34) == header_byte(w2, 34));
    assert(header_byte(w1, 35) == header_byte(w2, 35));
}

/// A byte sequence starts with at most one frame: its header, body and
/// authentication bytes are determined by the bytes.
pub proof fn lemma_frames_unique(
    s: Seq<u8>,
    w1: WireFields,
    body1: Seq<u8>,
    auth1: Seq<u8>,
    w2: WireFields,
    body2: Seq<u8>,
    auth2: Seq<u8>,
)
    requires
        frames(s, w1, body1, auth1),
        frames(s, w2, body2, auth2),
    ensures
        w1 == w2,
        body1 == body2,
        auth1 == auth2,
{
    let f1 = raw_frame(w1, body1, auth1);
    let f2 = raw_frame(w2, body2, auth2);
    assert forall|i: int| 0 <= i < f1.len() implies f1[i] == s[i] by {
        assert(f1[i] == s.subrange(0, f1.len() as int)[i]);
    }
    assert forall|i: int| 0 <= i < f2.len() implies f2[i] == s[i] by {
        assert(f2[i] == s.subrange(0, f2.len() as int)[i]);
    }
    assert forall|i: int| 0 <= i < 36 implies header_bytes(w1)[i] == header_bytes(w2)[i] by {
        assert(f1[i] == header_bytes(w1)[i]);
        assert(f2[i] == header_bytes(w2)[i]);
    }
    assert(header_bytes(w1) =~= header_bytes(w2));
    lemma_header_bytes_injective(w1, w2);
    assert forall|j: int| 0 <= j < body1.len() implies body1[j] == body2[j] by {
        assert(f1[36 + j] == body1[j]);
        assert(f2[36 + j] == body2[j]);
    }
    assert(body1 =~= body2);
    assert forall|j: int| 0 <= j < auth1.len() implies auth1[j] == auth2[j] by {
        assert(f1[36 + body1.len() + j] == auth1[j]);
        assert(f2[36 + body2.len() + j] == auth2[j]);
    }
    assert(auth1 =~= auth2);
}

/// A byte sequence reads as at most one request.
pub proof fn lemma_reads_as_unique(
    s: Seq<u8>,
    limit: usize,
    h1: ReqHeader,
    body1: Seq<u8>,
    auth1: Seq<u8>,
    h2: ReqHeader,
    body2: Seq<u8>,
    auth2: Seq<u8>,
)
    requires
        reads_as(s, limit, h1, body1, auth1),
        reads_as(s, limit, h2, body2, auth2),
    ensures
        h1 == h2,
        body1 == body2,
        auth1 == auth2,
{
    let w1 = choose|w: WireFields| #[trigger] frames(s, w, body1, auth1) && accepted(w, limit) && header_of(w) == h1;
    let w2 = choose|w: WireFields| #[trigger] frames(s, w, body2, auth2) && accepted(w, limit) && header_of(w) == h2;
    lemma_frames_unique(s, w1, body1, auth1, w2, body2, auth2);
}

/// The frame that a client writes for a request with a valid header reads
/// back, whatever follows it, as that header, body and authentication bytes.
pub proof fn lemma_request_frame_reads_back(s: Seq<u8>, limit: usize, h: ReqHeader, body: Seq<u8>, auth: Seq<u8>)
    requires
        h.is_valid(),
        body.len() <= limit,
        body.len() <= u32::MAX,
        auth.len() <= u16::MAX,
        request_frame(h, body, auth).is_prefix_of(s),
    ensures
        reads_as(s, limit, h, body, auth),
        has_request(s, limit),
{
    let w = request_fields(h, body.len() as u32, auth.len() as u16);
    assert(frames(s, w, body, auth));
    assert(accepted(w, limit));
    assert(header_of(w) == h);
}

} // verus!
