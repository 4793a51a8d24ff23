//! The frame codec: building checksummed request frames, checking them, and
//! decoding a device's reply into a reading.

use vstd::prelude::*;
use vstd::slice::slice_subrange;
use byteorder::ByteOrder;
use crate::checksum::{
    append_checksum, checksum, checksum_bytes, crc32_ieee, is_checksum_of,
    lemma_checksum_bytes_injective,
};
use crate::error::PollError;

verus! {

/// Bytes of a request frame that the checksum covers.
pub const PAYLOAD_LEN: usize = 4;

/// Length of a request frame: payload and checksum.
pub const FRAME_LEN: usize = 8;

/// Offset in a request of the byte that selects the operation when the
/// reply is decoded. In a frame it is the high byte of the parameter.
pub const DISPATCH_CODE_OFFSET: usize = 2;

/// Offset in a request of the byte that qualifies the operation when the
/// reply is decoded. In a frame it is the low byte of the parameter.
pub const DISPATCH_PARAM_OFFSET: usize = 3;

/// Offset in a request of the byte that decoding takes as the tariff index.
/// In a frame it is the byte that follows the payload.
pub const TARIFF_OFFSET: usize = 4;

/// Operation code of "read consumption".
pub const READ_CONSUMPTION_CODE: u8 = 5;

/// Operation qualifier of "read consumption".
pub const READ_CONSUMPTION_PARAM: u8 = 0;

/// Shortest reply that answers "read consumption".
pub const CONSUMPTION_REPLY_MIN_LEN: usize = 6;

/// Offset in a consumption reply of the most significant register byte. The
/// device family sends the two halves of the register swapped, so the four
/// register bytes stand at offsets 4, 5, 2 and 3 in the order of their
/// significance.
pub const REGISTER_BYTE_0: usize = 4;

/// Offset in a consumption reply of the second register byte.
pub const REGISTER_BYTE_1: usize = 5;

/// Offset in a consumption reply of the third register byte.
pub const REGISTER_BYTE_2: usize = 2;

/// Offset in a consumption reply of the least significant register byte.
pub const REGISTER_BYTE_3: usize = 3;

/// The raw register counts thousandths of a kilowatt-hour.
pub const RAW_UNITS_PER_KWH: u32 = 1000;

/// One decoded consumption value.
#[derive(Clone, Copy, Debug, PartialEq, Eq, Structural)]
pub struct Reading {
    /// Which accumulated register the request asked for.
    pub tariff_index: u8,
    /// IEEE 754 binary64 bit pattern of the raw register value. The
    /// consumption in kWh is that number divided by `RAW_UNITS_PER_KWH`.
    pub raw_bits: u64,
}

/// What decoding one exchange produced.
#[derive(Clone, Copy, Debug, PartialEq, Eq, Structural)]
pub enum Decoded {
    /// The request asked for consumption and the reply carried it.
    Reading(Reading),
    /// The request is none that this codec interprets: nothing to update.
    NoUpdate,
}

/// High byte of a request parameter.
pub open spec fn param_high(param: u16) -> u8 {
    (param / 0x100) as u8
}

/// Low byte of a request parameter.
pub open spec fn param_low(param: u16) -> u8 {
    (param % 0x100) as u8
}

/// The four bytes of a request that precede its checksum.
pub open spec fn request_payload(address: u8, function_code: u8, param: u16) -> Seq<u8> {
    seq![address, function_code, param_high(param), param_low(param)]
}

/// The request frame for `(address, function_code, param)`: the payload
/// followed by the checksum of the payload.
pub open spec fn request_frame(address: u8, function_code: u8, param: u16) -> Seq<u8> {
    let payload = request_payload(address, function_code, param);
    payload + checksum_bytes(crc32_ieee(payload))
}

/// A frame is valid when it has the length of a frame and its last four bytes
/// are the checksum of the bytes before them.
pub open spec fn frame_is_valid(frame: Seq<u8>) -> bool {
    &&& frame.len() == FRAME_LEN
    &&& frame.subrange(PAYLOAD_LEN as int, FRAME_LEN as int) == checksum_bytes(
        crc32_ieee(frame.subrange(0, PAYLOAD_LEN as int)),
    )
}

/// Whether a request that is long enough to say so asks for consumption.
pub open spec fn requests_consumption(request: Seq<u8>) -> bool {
    &&& request[DISPATCH_CODE_OFFSET as int] == READ_CONSUMPTION_CODE
    &&& request[DISPATCH_PARAM_OFFSET as int] == READ_CONSUMPTION_PARAM
}

/// The unsigned 64-bit number that eight bytes spell, most significant first.
pub open spec fn be_u64(bytes: Seq<u8>) -> u64 {
    (bytes[0] * 0x100_0000_0000_0000 + bytes[1] * 0x1_0000_0000_0000 + bytes[2] * 0x100_0000_0000
        + bytes[3] * 0x1_0000_0000 + bytes[4] * 0x100_0000 + bytes[5] * 0x1_0000 + bytes[6] * 0x100
        + bytes[7]) as u64
}

/// The eight bytes of the register value in a consumption reply: the four
/// register bytes in their significance order, then four zero bytes.
pub open spec fn register_image(response: Seq<u8>) -> Seq<u8> {
    seq![
        response[REGISTER_BYTE_0 as int],
        response[REGISTER_BYTE_1 as int],
        response[REGISTER_BYTE_2 as int],
        response[REGISTER_BYTE_3 as int],
        0u8,
        0u8,
        0u8,
        0u8,
    ]
}

/// Bit pattern of the register value in a consumption reply.
pub open spec fn register_bits(response: Seq<u8>) -> u64 {
    be_u64(register_image(response))
}

/// What a reply yields for a request that reaches beyond `TARIFF_OFFSET`, its
/// checksum aside.
pub open spec fn reply_spec(request: Seq<u8>, response: Seq<u8>) -> Result<Decoded, PollError> {
    if !requests_consumption(request) {
        Ok(Decoded::NoUpdate)
    } else if response.len() < CONSUMPTION_REPLY_MIN_LEN {
        Err(PollError::MalformedResponse)
    } else {
        Ok(
            Decoded::Reading(
                Reading {
                    tariff_index: request[TARIFF_OFFSET as int],
                    raw_bits: register_bits(response),
                },
            ),
        )
    }
}

/// What decoding `response` as the answer to `request` yields.
pub open spec fn decode_spec(request: Seq<u8>, response: Seq<u8>) -> Result<Decoded, PollError> {
    if !frame_is_valid(request) {
        Err(PollError::ChecksumMismatch)
    } else {
        reply_spec(request, response)
    }
}

/// Calls `byteorder::BigEndian::read_u64` on `bytes`.
///
/// Trusted: the outside function reads the first eight bytes as a big-endian
/// number and panics on fewer than eight, which `requires` rules out.
#[verifier::external_body]
fn read_be_u64(bytes: &[u8]) -> (value: u64)
    requires
        bytes@.len() >= 8,
    ensures
        value == be_u64(bytes@),
{
    byteorder::BigEndian::read_u64(bytes)
}

/// Builds the request frame for `(address, function_code, param)`.
pub fn build_request(address: u8, function_code: u8, param: u16) -> (frame: Vec<u8>)
    ensures
        frame@ == request_frame(address, function_code, param),
        frame_is_valid(frame@),
{
    let mut frame: Vec<u8> = Vec::new();
    frame.push(address);
    frame.push(function_code);
    frame.push((param / 0x100) as u8);
    frame.push((param % 0x100) as u8);
    assert(frame@ =~= request_payload(address, function_code, param));
    append_checksum(&mut frame);
    proof {
        law_built_frame_is_valid(address, function_code, param);
    }
    frame
}

/// Recomputes the checksum of `frame` and compares it with the one it carries.
pub fn verify(frame: &[u8]) -> (ok: bool)
    ensures
        ok == frame_is_valid(frame@),
{
    if frame.len() != FRAME_LEN {
        return false;
    }
    let crc: u32 = checksum(slice_subrange(frame, 0, PAYLOAD_LEN));
    is_checksum_of(slice_subrange(frame, PAYLOAD_LEN, FRAME_LEN), crc)
}

/// Decodes `response` as the answer to a request whose checksum has been
/// judged already. The request must reach beyond `TARIFF_OFFSET`, as every
/// frame does.
pub fn decode_reply(request: &[u8], response: &[u8]) -> (result: Result<Decoded, PollError>)
    requires
        request@.len() > TARIFF_OFFSET,
    ensures
        result == reply_spec(request@, response@),
{
    if request[DISPATCH_CODE_OFFSET] != READ_CONSUMPTION_CODE || request[DISPATCH_PARAM_OFFSET]
        != READ_CONSUMPTION_PARAM {
        return Ok(Decoded::NoUpdate);
    }
    if response.len() < CONSUMPTION_REPLY_MIN_LEN {
        return Err(PollError::MalformedResponse);
    }
    let mut image: Vec<u8> = Vec::new();
    image.push(response[REGISTER_BYTE_0]);
    image.push(response[REGISTER_BYTE_1]);
    image.push(response[REGISTER_BYTE_2]);
    image.push(response[REGISTER_BYTE_3]);
    image.push(0);
    image.push(0);
    image.push(0);
    image.push(0);
    assert(image@ =~= register_image(response@));
    let raw_bits: u64 = read_be_u64(image.as_slice());
    Ok(Decoded::Reading(Reading { tariff_index: request[TARIFF_OFFSET], raw_bits }))
}

/// Decodes `response` as the answer to `request`.
///
/// The request must verify, else the outcome is `ChecksumMismatch`. A request
/// that does not ask for consumption yields `NoUpdate` whatever the response
/// holds. A consumption reply of fewer than `CONSUMPTION_REPLY_MIN_LEN` bytes
/// is a `MalformedResponse`.
pub fn decode_consumption(request: &[u8], response: &[u8]) -> (result: Result<Decoded, PollError>)
    ensures
        result == decode_spec(request@, response@),
{
    if !verify(request) {
        return Err(PollError::ChecksumMismatch);
    }
    decode_reply(request, response)
}

/// `byte` with the bit of weight `2^bit` inverted.
pub open spec fn flip_bit(byte: u8, bit: u8) -> u8 {
    byte ^ (1u8 << bit)
}

/// `frame` with one bit of the byte at `index` inverted.
pub open spec fn with_bit_flipped(frame: Seq<u8>, index: int, bit: u8) -> Seq<u8> {
    frame.update(index, flip_bit(frame[index], bit))
}

/// Every frame that `build_request` can produce verifies.
pub proof fn law_built_frame_is_valid(address: u8, function_code: u8, param: u16)
    ensures
        frame_is_valid(request_frame(address, function_code, param)),
{
    let payload = request_payload(address, function_code, param);
    let frame = request_frame(address, function_code, param);
    assert(frame.subrange(0, PAYLOAD_LEN as int) =~= payload);
    assert(frame.subrange(PAYLOAD_LEN as int, FRAME_LEN as int) =~= checksum_bytes(
        crc32_ieee(payload),
    ));
}

/// Decoding reads the operation from the parameter bytes of a frame: a
/// frame that `build_request` makes asks for consumption exactly when the
/// high byte of its parameter is `READ_CONSUMPTION_CODE` and the low byte is
/// `READ_CONSUMPTION_PARAM`, whatever its function code. The tariff index is
/// then the first byte of its checksum.
pub proof fn law_built_frame_is_dispatched_by_its_parameter(
    address: u8,
    function_code: u8,
    param: u16,
)
    ensures
        requests_consumption(request_frame(address, function_code, param)) <==> param_high(param)
            == READ_CONSUMPTION_CODE && param_low(param) == READ_CONSUMPTION_PARAM,
        request_frame(address, function_code, param)[TARIFF_OFFSET as int] == checksum_bytes(
            crc32_ieee(request_payload(address, function_code, param)),
        )[0],
{
}

/// Inverting a bit changes the byte.
pub proof fn lemma_flip_bit_changes_byte(byte: u8, bit: u8)
    requires
        bit < 8,
    ensures
        flip_bit(byte, bit) != byte,
{
    assert(byte ^ (1u8 << bit) != byte) by (bit_vector)
        requires
            bit < 8,
    ;
}

/// A valid frame whose checksum field is then altered in any way, the
/// payload staying as it was, no longer verifies.
pub proof fn law_altered_checksum_is_detected(frame: Seq<u8>, altered: Seq<u8>)
    requires
        frame_is_valid(frame),
        altered.len() == frame.len(),
        altered.subrange(0, PAYLOAD_LEN as int) == frame.subrange(0, PAYLOAD_LEN as int),
        altered != frame,
    ensures
        !frame_is_valid(altered),
{
    if frame_is_valid(altered) {
        assert(altered.subrange(PAYLOAD_LEN as int, FRAME_LEN as int) == frame.subrange(
            PAYLOAD_LEN as int,
            FRAME_LEN as int,
        ));
        assert forall|i: int| 0 <= i < frame.len() implies altered[i] == frame[i] by {
            if i < PAYLOAD_LEN {
                assert(altered[i] == altered.subrange(0, PAYLOAD_LEN as int)[i]);
                assert(frame[i] == frame.subrange(0, PAYLOAD_LEN as int)[i]);
            } else {
                assert(altered[i] == altered.subrange(PAYLOAD_LEN as int, FRAME_LEN as int)[i
                    - PAYLOAD_LEN]);
                assert(frame[i] == frame.subrange(PAYLOAD_LEN as int, FRAME_LEN as int)[i
                    - PAYLOAD_LEN]);
            }
        }
        assert(altered =~= frame);
    }
}

/// Inverting any single bit of the checksum field of a valid frame makes
/// verification fail.
pub proof fn law_bit_flip_in_checksum_is_detected(frame: Seq<u8>, index: int, bit: u8)
    requires
        frame_is_valid(frame),
        PAYLOAD_LEN <= index < FRAME_LEN,
        bit < 8,
    ensures
        !frame_is_valid(with_bit_flipped(frame, index, bit)),
{
    let altered = with_bit_flipped(frame, index, bit);
    lemma_flip_bit_changes_byte(frame[index], bit);
    assert(altered[index] != frame[index]);
    assert(altered.subrange(0, PAYLOAD_LEN as int) =~= frame.subrange(0, PAYLOAD_LEN as int));
    law_altered_checksum_is_detected(frame, altered);
}

/// Inverting a single bit of the payload of a valid frame makes verification
/// fail exactly when the checksum of the altered payload differs from that of
/// the payload as it was.
pub proof fn law_bit_flip_in_payload_is_detected_by_checksum(frame: Seq<u8>, index: int, bit: u8)
    requires
        frame_is_valid(frame),
        0 <= index < PAYLOAD_LEN,
        bit < 8,
    ensures
        !frame_is_valid(with_bit_flipped(frame, index, bit)) <==> crc32_ieee(
            with_bit_flipped(frame, index, bit).subrange(0, PAYLOAD_LEN as int),
        ) != crc32_ieee(frame.subrange(0, PAYLOAD_LEN as int)),
{
    let altered = with_bit_flipped(frame, index, bit);
    assert(altered.subrange(PAYLOAD_LEN as int, FRAME_LEN as int) =~= frame.subrange(
        PAYLOAD_LEN as int,
        FRAME_LEN as int,
    ));
    let before = crc32_ieee(frame.subrange(0, PAYLOAD_LEN as int));
    let after = crc32_ieee(altered.subrange(0, PAYLOAD_LEN as int));
    if checksum_bytes(after) == checksum_bytes(before) {
        lemma_checksum_bytes_injective(after, before);
    }
}

/// Decoding depends on the bytes of request and response alone: equal bytes
/// give equal results.
pub proof fn law_decoding_is_a_function_of_the_bytes(
    request_a: Seq<u8>,
    response_a: Seq<u8>,
    request_b: Seq<u8>,
    response_b: Seq<u8>,
)
    requires
        request_a =~= request_b,
        response_a =~= response_b,
    ensures
        decode_spec(request_a, response_a) == decode_spec(request_b, response_b),
{
}

/// A reply of fewer than `CONSUMPTION_REPLY_MIN_LEN` bytes to a valid request
/// for consumption is malformed.
pub proof fn law_short_reply_is_malformed(request: Seq<u8>, response: Seq<u8>)
    requires
        frame_is_valid(request),
        requests_consumption(request),
        response.len() < CONSUMPTION_REPLY_MIN_LEN,
    ensures
        decode_spec(request, response) == Err::<Decoded, PollError>(PollError::MalformedResponse),
{
}

/// A valid request that does not ask for consumption decodes to `NoUpdate`,
/// whatever the response.
pub proof fn law_other_request_is_no_update(request: Seq<u8>, response: Seq<u8>)
    requires
        frame_is_valid(request),
        !requests_consumption(request),
    ensures
        decode_spec(request, response) == Ok::<Decoded, PollError>(Decoded::NoUpdate),
{
}

} // verus!
