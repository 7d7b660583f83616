use openh264::formats::YUVSource;
use openh264::encoder::{Encoder, EncoderConfig};
use openh264::OpenH264API;
use rtmp_stream_lib::encoder::{encode_frame, encoded_frame_of, CameraFrame, MyEncodedFrame, MyFrame};

#[test]
fn encoded_frame_keeps_bitstream_and_timestamp() {
    let frame = MyEncodedFrame::build(vec![0, 0, 0, 1, 0x67], 42);
    assert_eq!(frame.payload, vec![0, 0, 0, 1, 0x67]);
    assert_eq!(frame.timestamp, 42);
}

#[test]
fn black_picture_converts_to_black_yuv() {
    let camera = CameraFrame { resolution: (2, 2), data: vec![0u8; 12] };
    let frame = MyFrame::build(&camera, 1234);
    assert_eq!(frame.timestamp, 1234);
    assert_eq!(frame.payload.y(), [16u8, 16, 16, 16]);
    assert_eq!(frame.payload.u(), [128u8]);
    assert_eq!(frame.payload.v(), [128u8]);
}

#[test]
fn red_picture_converts_to_red_yuv() {
    let mut data = Vec::new();
    for _ in 0..8 {
        data.extend_from_slice(&[255u8, 0, 0]);
    }
    let camera = CameraFrame { resolution: (4, 2), data };
    let frame = MyFrame::build(&camera, 7);
    assert_eq!(frame.payload.width(), 4);
    assert_eq!(frame.payload.height(), 2);
    assert_eq!(frame.payload.y(), [81u8; 8]);
    assert_eq!(frame.payload.u(), [90u8, 90]);
    assert_eq!(frame.payload.v(), [239u8, 239]);
}

#[test]
fn encoded_frame_keeps_the_picture_timestamp() {
    let mut encoder = Encoder::with_config(OpenH264API::from_source(), EncoderConfig::new(16, 16)).unwrap();
    let camera = CameraFrame { resolution: (16, 16), data: vec![40u8; 16 * 16 * 3] };
    let frame = MyFrame::build(&camera, 99);
    let encoded = encode_frame(&mut encoder, &frame).unwrap();
    assert_eq!(encoded.timestamp, 99);
    assert!(!encoded.payload.is_empty());
}

#[test]
fn a_successful_encoding_becomes_a_frame_with_its_timestamp() {
    let frame = encoded_frame_of(Ok(vec![0, 0, 0, 1, 0x67]), 1234).unwrap();
    assert_eq!(frame.payload, vec![0, 0, 0, 1, 0x67]);
    assert_eq!(frame.timestamp, 1234);
}

#[test]
fn a_failed_encoding_gives_no_frame() {
    assert!(encoded_frame_of(Err(openh264::Error::msg("encoder failed")), 1234).is_none());
}
