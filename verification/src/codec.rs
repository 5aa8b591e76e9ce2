//! Wire-protocol codec for the supported plug variants: pure packet
//! construction and response decoding, no I/O.

use vstd::prelude::*;

use crate::errors::DeviceError;

verus! {

/// Plug Mini GATT service UUID, as a 128-bit value.
pub const PLUG_MINI_SVC_UUID: u128 = 0xcba20d00_224d_11e6_9fb8_0002a5d5c51b;
/// Plug Mini command characteristic (written to; RX as seen from the device).
pub const PLUG_MINI_CHR_RX_UUID: u128 = 0xcba20002_224d_11e6_9fb8_0002a5d5c51b;
/// Plug Mini response characteristic (notifies; TX as seen from the device).
pub const PLUG_MINI_CHR_TX_UUID: u128 = 0xcba20003_224d_11e6_9fb8_0002a5d5c51b;
/// Type-C switch GATT service UUID.
pub const TYPE_C_SVC_UUID: u128 = 0xa6302557_c9ae_44b2_b987_73072a0e6d84;
/// Type-C switch state characteristic (written to, one byte).
pub const TYPE_C_CHR_STATE_UUID: u128 = 0xe612f461_7a74_4946_bc25_03968fbdecda;

/// First byte of every Plug Mini request.
pub const REQUEST_MAGIC: u8 = 0x57;
/// Plug Mini command class carrying the on/off/toggle payloads.
pub const CMD_EXPANSION: u8 = 0x0f;

/// The switching operations the Plug Mini protocol can express.
#[derive(Clone, Copy, Debug, PartialEq, Eq, Structural)]
pub enum SetStateOperation {
    TurnOn,
    TurnOff,
    Toggle,
}

/// Payload of the expansion command for each operation.
pub open spec fn spec_operation_payload(op: SetStateOperation) -> Seq<u8> {
    match op {
        SetStateOperation::TurnOn => seq![0x50u8, 0x01u8, 0x01u8, 0x80u8],
        SetStateOperation::TurnOff => seq![0x50u8, 0x01u8, 0x01u8, 0x00u8],
        SetStateOperation::Toggle => seq![0x50u8, 0x01u8, 0x02u8, 0x80u8],
    }
}

/// Header byte of a request: the command in the low four bits, zeroes above.
pub open spec fn spec_header_byte(cmd: u8) -> u8 {
    cmd & 0x0f
}

/// A full Plug Mini request: magic byte, header byte, then the payload.
pub open spec fn spec_request_packet(cmd: u8, payload: Seq<u8>) -> Seq<u8> {
    seq![REQUEST_MAGIC, spec_header_byte(cmd)] + payload
}

/// The request that switches the plug: the expansion command around the
/// operation's payload.
pub open spec fn spec_plug_mini_request(op: SetStateOperation) -> Seq<u8> {
    spec_request_packet(CMD_EXPANSION, spec_operation_payload(op))
}

/// Decoding a Plug Mini response: the first byte must be the `0x01`
/// acknowledgement, and the second names the resulting state, `0x00` for off
/// or `0x80` for on. Everything else is malformed.
pub open spec fn spec_decode_response(payload: Seq<u8>) -> Result<bool, DeviceError> {
    if payload.len() < 2 || payload[0] != 0x01 {
        Err(DeviceError::ProtocolError)
    } else if payload[1] == 0x00 {
        Ok(false)
    } else if payload[1] == 0x80 {
        Ok(true)
    } else {
        Err(DeviceError::ProtocolError)
    }
}

/// The single state byte of the Type-C switch protocol: `1` for on, `0` for
/// off.
pub open spec fn spec_type_c_state_byte(state: bool) -> u8 {
    if state {
        1
    } else {
        0
    }
}

pub fn operation_payload(op: &SetStateOperation) -> (r: Vec<u8>)
    ensures
        r@ == spec_operation_payload(*op),
{
    let mut v: Vec<u8> = Vec::new();
    v.push(0x50);
    v.push(0x01);
    match op {
        SetStateOperation::TurnOn => {
            v.push(0x01);
            v.push(0x80);
        },
        SetStateOperation::TurnOff => {
            v.push(0x01);
            v.push(0x00);
        },
        SetStateOperation::Toggle => {
            v.push(0x02);
            v.push(0x80);
        },
    }
    proof {
        assert(v@ =~= spec_operation_payload(*op));
    }
    v
}

/// Frames a command and its payload as a Plug Mini request packet.
pub fn encode_request(cmd: u8, payload: &Vec<u8>) -> (r: Vec<u8>)
    ensures
        r@ == spec_request_packet(cmd, payload@),
{
    let mut packet: Vec<u8> = Vec::new();
    packet.push(REQUEST_MAGIC);
    packet.push(cmd & 0x0f);
    let mut i: usize = 0;
    while i < payload.len()
        invariant
            i <= payload@.len(),
            packet@ == seq![REQUEST_MAGIC, spec_header_byte(cmd)] + payload@.subrange(0, i as int),
        decreases payload@.len() - i,
    {
        packet.push(payload[i]);
        i += 1;
        proof {
            assert(packet@ =~= seq![REQUEST_MAGIC, spec_header_byte(cmd)] + payload@.subrange(
                0,
                i as int,
            ));
        }
    }
    proof {
        assert(payload@.subrange(0, payload@.len() as int) =~= payload@);
    }
    packet
}

/// The request bytes that ask the plug to perform `op`.
pub fn plug_mini_request(op: &SetStateOperation) -> (r: Vec<u8>)
    ensures
        r@ == spec_plug_mini_request(*op),
{
    let payload = operation_payload(op);
    encode_request(CMD_EXPANSION, &payload)
}

/// Decodes a Plug Mini response payload into the reported on/off state.
pub fn decode_response(payload: &Vec<u8>) -> (r: Result<bool, DeviceError>)
    ensures
        r == spec_decode_response(payload@),
{
    if payload.len() < 2 || payload[0] != 0x01 {
        Err(DeviceError::ProtocolError)
    } else if payload[1] == 0x00 {
        Ok(false)
    } else if payload[1] == 0x80 {
        Ok(true)
    } else {
        Err(DeviceError::ProtocolError)
    }
}

/// The one-byte Type-C switch request for the wanted state.
pub fn type_c_request(state: bool) -> (r: Vec<u8>)
    ensures
        r@ == seq![spec_type_c_state_byte(state)],
{
    let mut v: Vec<u8> = Vec::new();
    if state {
        v.push(1);
    } else {
        v.push(0);
    }
    proof {
        assert(v@ =~= seq![spec_type_c_state_byte(state)]);
    }
    v
}

/// Round trip of the Plug Mini protocol: every request is six bytes under the
/// magic and expansion header, a synthetic acknowledgement `[0x01, 0x80]`
/// decodes to on and `[0x01, 0x00]` to off, and a payload decodes successfully
/// exactly when its first byte is the acknowledgement and its second names a
/// state; every other payload is a protocol error.
pub proof fn lemma_plug_mini_round_trip(op: SetStateOperation, payload: Seq<u8>)
    ensures
        spec_plug_mini_request(op).len() == 6,
        spec_plug_mini_request(op)[0] == REQUEST_MAGIC,
        spec_plug_mini_request(op)[1] == CMD_EXPANSION,
        spec_decode_response(seq![0x01u8, 0x80u8]) == Ok::<bool, DeviceError>(true),
        spec_decode_response(seq![0x01u8, 0x00u8]) == Ok::<bool, DeviceError>(false),
        spec_decode_response(payload) is Ok <==> (payload.len() >= 2 && payload[0] == 0x01 && (
        payload[1] == 0x00 || payload[1] == 0x80)),
        spec_decode_response(payload) is Err ==> spec_decode_response(payload) == Err::<
            bool,
            DeviceError,
        >(DeviceError::ProtocolError),
{
    assert(spec_header_byte(CMD_EXPANSION) == CMD_EXPANSION) by (bit_vector);
}

} // verus!
