//! Frame codec for the APT message format.
//!
//! Two frame shapes exist on the wire:
//! - a short frame of 6 bytes with no payload, whose two middle header bytes
//!   carry per-message parameters;
//! - a long frame of a 6-byte header followed by a payload, whose header
//!   declares the payload length and whose destination byte has its high bit
//!   set to signal that a payload follows. The payload opens with the
//!   two-byte channel identifier pair and continues with the data bytes.
//!
//! All multi-byte integers on the wire are little-endian; signed values are
//! carried in two's complement.
use vstd::prelude::*;
use crate::DeviceError;

verus! {

/// Message code: request the status bit word.
pub const MGMSG_REQ_STATUS_BITS: u8 = 0x29;
/// Message code: start the homing sequence.
pub const MGMSG_MOVE_HOME: u8 = 0x43;
/// Message code: move to an absolute position.
pub const MGMSG_MOVE_ABSOLUTE: u8 = 0x53;
/// Message code: move by a relative distance.
pub const MGMSG_MOVE_RELATIVE: u8 = 0x48;
/// Message code: stop a move in progress (defined by the protocol, not used
/// by any operation in this scope).
pub const MGMSG_MOVE_STOP: u8 = 0x65;
/// Message code: set the velocity parameters.
pub const MGMSG_SET_VELOCITY_PARAMS: u8 = 0x13;

/// High byte of every message code used here.
pub const MSG_ID_HIGH: u8 = 0x04;
/// Protocol address of the controller.
pub const DESTINATION: u8 = 0x50;
/// Protocol address of the host.
pub const SOURCE: u8 = 0x01;
/// Destination byte of a long frame: the controller address with the high
/// bit set to signal that a payload follows.
pub const DESTINATION_WITH_PAYLOAD: u8 = 0xD0;
/// Low byte of the channel identifier pair that opens every payload.
pub const CHANNEL_IDENT_LO: u8 = 0x01;
/// High byte of the channel identifier pair.
pub const CHANNEL_IDENT_HI: u8 = 0x00;

/// Length in bytes of a status-bits reply.
pub const STATUS_REPLY_LEN: usize = 12;

/// Status bit: the stage is moving clockwise.
pub const P_MOT_SB_INMOTIONCW: u32 = 0x00000010;
/// Status bit: the stage is moving counter-clockwise.
pub const P_MOT_SB_INMOTIONCCW: u32 = 0x00000020;
/// Status bit: the stage has settled at its target.
pub const P_MOT_SB_SETTLED: u32 = 0x00002000;
/// Status bit: the homing sequence is in progress.
pub const P_MOT_SB_HOMING: u32 = 0x00000200;
/// Status bit: the stage has been homed.
pub const P_MOT_SB_HOMED: u32 = 0x00000400;

/// The little-endian bytes of a 32-bit word, lowest byte first.
pub open spec fn spec_le_bytes_u32(w: u32) -> Seq<u8> {
    seq![
        (w & 0xff) as u8,
        ((w >> 8) & 0xff) as u8,
        ((w >> 16) & 0xff) as u8,
        ((w >> 24) & 0xff) as u8,
    ]
}

/// The 32-bit word read little-endian from four bytes, lowest byte first.
pub open spec fn spec_word_of_bytes(b0: u8, b1: u8, b2: u8, b3: u8) -> u32 {
    (b0 as u32) | (b1 as u32) << 8 | (b2 as u32) << 16 | (b3 as u32) << 24
}

/// The unsigned two's-complement image of a signed 32-bit count.
pub open spec fn spec_wire_word_of_counts(v: i32) -> u32 {
    if v >= 0 {
        v as u32
    } else {
        (v + 0x1_0000_0000) as u32
    }
}

/// The four little-endian wire bytes of a signed 32-bit count.
pub open spec fn spec_counts_le_bytes(v: i32) -> Seq<u8> {
    spec_le_bytes_u32(spec_wire_word_of_counts(v))
}

/// A short frame: message code, code high byte, two parameter bytes, then
/// the fixed destination and source addresses.
pub open spec fn spec_short_frame(msg_id: u8, param1: u8, param2: u8) -> Seq<u8> {
    seq![msg_id, MSG_ID_HIGH, param1, param2, DESTINATION, SOURCE]
}

/// A long frame: a 6-byte header declaring the payload length, then the
/// channel identifier pair and the data bytes as the payload.
pub open spec fn spec_long_frame(msg_id: u8, data: Seq<u8>) -> Seq<u8> {
    seq![
        msg_id,
        MSG_ID_HIGH,
        ((data.len() + 2) as u8),
        0x00u8,
        DESTINATION_WITH_PAYLOAD,
        SOURCE,
        CHANNEL_IDENT_LO,
        CHANNEL_IDENT_HI,
    ] + data
}

/// A long frame is self-describing: its total length is the 6-byte header
/// plus the declared payload length, and the declared payload length equals
/// the number of bytes that actually follow the header.
pub proof fn lemma_long_frame_length(msg_id: u8, data: Seq<u8>)
    requires
        data.len() + 2 <= 255,
    ensures
        spec_long_frame(msg_id, data).len() == 8 + data.len(),
        spec_long_frame(msg_id, data).len() == 6 + spec_long_frame(msg_id, data)[2],
        spec_long_frame(msg_id, data)[2] == spec_long_frame(msg_id, data).skip(6).len(),
        spec_long_frame(msg_id, data)[3] == 0,
{
    let frame = spec_long_frame(msg_id, data);
    assert(frame.len() == 8 + data.len());
    assert(frame[2] == (data.len() + 2) as u8);
    assert(frame.skip(6).len() == frame.len() - 6);
}

/// The four little-endian bytes of a 32-bit word.
fn le_bytes_u32(w: u32) -> (r: Vec<u8>)
    ensures
        r@ == spec_le_bytes_u32(w),
        r@.len() == 4,
{
    proof {
        assert(w & 0xff < 256 && (w >> 8) & 0xff < 256 && (w >> 16) & 0xff < 256 && (w >> 24)
            & 0xff < 256) by (bit_vector);
    }
    let mut bytes: Vec<u8> = Vec::new();
    bytes.push((w & 0xff) as u8);
    bytes.push(((w >> 8) & 0xff) as u8);
    bytes.push(((w >> 16) & 0xff) as u8);
    bytes.push(((w >> 24) & 0xff) as u8);
    proof {
        assert(bytes@ =~= spec_le_bytes_u32(w));
    }
    bytes
}

/// The four little-endian wire bytes of a signed count, in two's complement.
pub fn counts_le_bytes(v: i32) -> (r: Vec<u8>)
    ensures
        r@ == spec_counts_le_bytes(v),
        r@.len() == 4,
{
    let w: u32 = if v >= 0 {
        v as u32
    } else {
        ((v as i64) + 0x1_0000_0000i64) as u32
    };
    assert(w == spec_wire_word_of_counts(v));
    le_bytes_u32(w)
}

/// Appends the four wire bytes of a signed count to a frame under
/// construction.
fn push_counts(frame: &mut Vec<u8>, v: i32)
    ensures
        final(frame)@ == old(frame)@ + spec_counts_le_bytes(v),
{
    let bytes = counts_le_bytes(v);
    frame.push(bytes[0]);
    frame.push(bytes[1]);
    frame.push(bytes[2]);
    frame.push(bytes[3]);
    proof {
        assert(frame@ =~= old(frame)@ + spec_counts_le_bytes(v));
    }
}

/// Builds the common 8 leading bytes of a long frame: the header declaring
/// `data_len + 2` payload bytes, then the channel identifier pair.
fn long_frame_prefix(msg_id: u8, data_len: u8) -> (r: Vec<u8>)
    requires
        data_len <= 253,
    ensures
        r@ == seq![
            msg_id,
            MSG_ID_HIGH,
            (data_len + 2) as u8,
            0x00u8,
            DESTINATION_WITH_PAYLOAD,
            SOURCE,
            CHANNEL_IDENT_LO,
            CHANNEL_IDENT_HI,
        ],
{
    let mut frame: Vec<u8> = Vec::new();
    frame.push(msg_id);
    frame.push(MSG_ID_HIGH);
    frame.push(data_len + 2);
    frame.push(0x00);
    frame.push(DESTINATION_WITH_PAYLOAD);
    frame.push(SOURCE);
    frame.push(CHANNEL_IDENT_LO);
    frame.push(CHANNEL_IDENT_HI);
    proof {
        assert(frame@ =~= seq![
            msg_id,
            MSG_ID_HIGH,
            (data_len + 2) as u8,
            0x00u8,
            DESTINATION_WITH_PAYLOAD,
            SOURCE,
            CHANNEL_IDENT_LO,
            CHANNEL_IDENT_HI,
        ]);
    }
    frame
}

/// The frame that requests the status bit word from one device.
pub fn status_request_frame(device_id: u8) -> (r: Vec<u8>)
    ensures
        r@ == spec_short_frame(MGMSG_REQ_STATUS_BITS, device_id, 0x00),
{
    let mut frame: Vec<u8> = Vec::new();
    frame.push(MGMSG_REQ_STATUS_BITS);
    frame.push(MSG_ID_HIGH);
    frame.push(device_id);
    frame.push(0x00);
    frame.push(DESTINATION);
    frame.push(SOURCE);
    proof {
        assert(frame@ =~= spec_short_frame(MGMSG_REQ_STATUS_BITS, device_id, 0x00));
    }
    frame
}

/// The frame that starts the homing sequence on one device.
pub fn home_frame(device_id: u8) -> (r: Vec<u8>)
    ensures
        r@ == spec_short_frame(MGMSG_MOVE_HOME, device_id, 0x00),
{
    let mut frame: Vec<u8> = Vec::new();
    frame.push(MGMSG_MOVE_HOME);
    frame.push(MSG_ID_HIGH);
    frame.push(device_id);
    frame.push(0x00);
    frame.push(DESTINATION);
    frame.push(SOURCE);
    proof {
        assert(frame@ =~= spec_short_frame(MGMSG_MOVE_HOME, device_id, 0x00));
    }
    frame
}

/// The long frame that commands a move to an absolute position in counts.
pub fn move_absolute_frame(counts: i32) -> (r: Vec<u8>)
    ensures
        r@ == spec_long_frame(MGMSG_MOVE_ABSOLUTE, spec_counts_le_bytes(counts)),
        r@.len() == 12,
{
    let mut frame = long_frame_prefix(MGMSG_MOVE_ABSOLUTE, 4);
    push_counts(&mut frame, counts);
    proof {
        assert(frame@ =~= spec_long_frame(MGMSG_MOVE_ABSOLUTE, spec_counts_le_bytes(counts)));
    }
    frame
}

/// The long frame that commands a move by a relative distance in counts.
pub fn move_relative_frame(counts: i32) -> (r: Vec<u8>)
    ensures
        r@ == spec_long_frame(MGMSG_MOVE_RELATIVE, spec_counts_le_bytes(counts)),
        r@.len() == 12,
{
    let mut frame = long_frame_prefix(MGMSG_MOVE_RELATIVE, 4);
    push_counts(&mut frame, counts);
    proof {
        assert(frame@ =~= spec_long_frame(MGMSG_MOVE_RELATIVE, spec_counts_le_bytes(counts)));
    }
    frame
}

/// The long frame that sets the velocity parameters, carrying the minimum
/// velocity, the acceleration and the maximum velocity in counts, in that
/// order.
pub fn velocity_params_frame(min_vel: i32, accel: i32, max_vel: i32) -> (r: Vec<u8>)
    ensures
        r@ == spec_long_frame(
            MGMSG_SET_VELOCITY_PARAMS,
            spec_counts_le_bytes(min_vel) + spec_counts_le_bytes(accel) + spec_counts_le_bytes(
                max_vel,
            ),
        ),
        r@.len() == 20,
{
    let mut frame = long_frame_prefix(MGMSG_SET_VELOCITY_PARAMS, 12);
    push_counts(&mut frame, min_vel);
    push_counts(&mut frame, accel);
    push_counts(&mut frame, max_vel);
    proof {
        assert(frame@ =~= spec_long_frame(
            MGMSG_SET_VELOCITY_PARAMS,
            spec_counts_le_bytes(min_vel) + spec_counts_le_bytes(accel) + spec_counts_le_bytes(
                max_vel,
            ),
        ));
    }
    frame
}

/// Extracts the status bit word from a status-bits reply.
///
/// A reply must be exactly 12 bytes; the status word is read little-endian
/// from bytes 8 through 11. Any other reply length is a malformed reply.
pub fn decode_status(reply: &Vec<u8>) -> (r: Result<u32, DeviceError>)
    ensures
        reply@.len() == STATUS_REPLY_LEN ==> r == Ok::<u32, DeviceError>(
            spec_word_of_bytes(reply@[8], reply@[9], reply@[10], reply@[11]),
        ),
        reply@.len() != STATUS_REPLY_LEN ==> r == Err::<u32, DeviceError>(DeviceError::Protocol),
{
    if reply.len() != STATUS_REPLY_LEN {
        return Err(DeviceError::Protocol);
    }
    let status: u32 = (reply[8] as u32) | (reply[9] as u32) << 8 | (reply[10] as u32) << 16 | (
    reply[11] as u32) << 24;
    Ok(status)
}

/// Reading a word back from its little-endian bytes returns the word:
/// encoding and decoding are inverse on every 32-bit status or count word.
pub proof fn lemma_le_bytes_round_trip(w: u32)
    ensures
        spec_word_of_bytes(
            spec_le_bytes_u32(w)[0],
            spec_le_bytes_u32(w)[1],
            spec_le_bytes_u32(w)[2],
            spec_le_bytes_u32(w)[3],
        ) == w,
{
    let b0 = (w & 0xff) as u8;
    let b1 = ((w >> 8) & 0xff) as u8;
    let b2 = ((w >> 16) & 0xff) as u8;
    let b3 = ((w >> 24) & 0xff) as u8;
    assert(((w & 0xff) as u8 as u32) | (((w >> 8) & 0xff) as u8 as u32) << 8 | (((w >> 16)
        & 0xff) as u8 as u32) << 16 | (((w >> 24) & 0xff) as u8 as u32) << 24 == w)
        by (bit_vector);
}

} // verus!
