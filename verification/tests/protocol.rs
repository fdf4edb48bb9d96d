use kinesis::DeviceError;
use kinesis::codec::{
    decode_status, home_frame, move_absolute_frame, move_relative_frame, status_request_frame,
    velocity_params_frame,
};

#[test]
fn status_request_frame_bytes() {
    let frame = status_request_frame(0x01);
    assert_eq!(frame, vec![0x29, 0x04, 0x01, 0x00, 0x50, 0x01]);
}

#[test]
fn home_frame_bytes() {
    let frame = home_frame(0x02);
    assert_eq!(frame, vec![0x43, 0x04, 0x02, 0x00, 0x50, 0x01]);
}

#[test]
fn move_relative_frame_bytes() {
    let frame = move_relative_frame(1000);
    assert_eq!(
        frame,
        vec![0x48, 0x04, 0x06, 0x00, 0xD0, 0x01, 0x01, 0x00, 0xE8, 0x03, 0x00, 0x00]
    );
}

#[test]
fn move_absolute_frame_bytes() {
    let frame = move_absolute_frame(1000);
    assert_eq!(
        frame,
        vec![0x53, 0x04, 0x06, 0x00, 0xD0, 0x01, 0x01, 0x00, 0xE8, 0x03, 0x00, 0x00]
    );
}

#[test]
fn negative_counts_encode_twos_complement() {
    let frame = move_relative_frame(-1);
    assert_eq!(&frame[8..12], &(-1i32).to_le_bytes());
    let frame = move_absolute_frame(-19196);
    assert_eq!(&frame[8..12], &(-19196i32).to_le_bytes());
}

#[test]
fn velocity_params_frame_bytes() {
    let frame = velocity_params_frame(1, 2, 3);
    assert_eq!(
        frame,
        vec![
            0x13, 0x04, 0x0E, 0x00, 0xD0, 0x01, 0x01, 0x00, 0x01, 0x00, 0x00, 0x00, 0x02, 0x00,
            0x00, 0x00, 0x03, 0x00, 0x00, 0x00
        ]
    );
}

#[test]
fn long_frames_declare_their_payload_length() {
    let move_frame = move_absolute_frame(123456);
    assert_eq!(move_frame.len(), 6 + move_frame[2] as usize);
    assert_eq!(move_frame[2] as usize, move_frame[6..].len());
    assert_eq!(move_frame[3], 0);
    let vel_frame = velocity_params_frame(-5, 17, 100000);
    assert_eq!(vel_frame.len(), 6 + vel_frame[2] as usize);
    assert_eq!(vel_frame[2] as usize, vel_frame[6..].len());
    assert_eq!(vel_frame[3], 0);
}

#[test]
fn status_decode_motion_bit() {
    let reply = vec![0, 0, 0, 0, 0, 0, 0, 0, 0x10, 0x00, 0x00, 0x00];
    assert_eq!(decode_status(&reply), Ok(0x10));
}

#[test]
fn status_decode_is_little_endian() {
    let reply = vec![0, 0, 0, 0, 0, 0, 0, 0, 0x78, 0x56, 0x34, 0x12];
    assert_eq!(decode_status(&reply), Ok(0x12345678));
}

#[test]
fn short_reply_is_protocol_error() {
    let reply = vec![0; 11];
    assert_eq!(decode_status(&reply), Err(DeviceError::Protocol));
    let reply = vec![0; 13];
    assert_eq!(decode_status(&reply), Err(DeviceError::Protocol));
    let reply = Vec::new();
    assert_eq!(decode_status(&reply), Err(DeviceError::Protocol));
}

#[test]
fn move_absolute_payload_encodes_rounded_degrees() {
    // ten degrees at the stage's scale of counts per degree
    let counts = (10.0f32 * 1919.64f32).round() as i32;
    assert_eq!(counts, 19196);
    let frame = move_absolute_frame(counts);
    assert_eq!(&frame[8..12], &counts.to_le_bytes());
}

#[test]
fn error_descriptions() {
    assert_eq!(DeviceError::Transport.describe(), "transport failure");
    assert_eq!(DeviceError::Timeout.describe(), "movement timeout");
    assert_eq!(DeviceError::Protocol.describe(), "malformed status reply");
}
