//! The frames that travel from the camera to the encoder, and from the
//! encoder to the streaming client.

use vstd::prelude::*;
use openh264::encoder::Encoder;
use openh264::formats::YUVBuffer;

verus! {

#[verifier::external_type_specification]
#[verifier::external_body]
pub struct ExYUVBuffer(YUVBuffer);

#[verifier::external_type_specification]
#[verifier::external_body]
pub struct ExEncoder(Encoder);

#[verifier::external_type_specification]
#[verifier::external_body]
pub struct ExOpenH264Error(openh264::Error);

/// The width and height of a YUV image, as `YUVSource::width` and `height` report them.
pub uninterp spec fn yuv_dims(b: YUVBuffer) -> (i32, i32);

/// The picture width and height an encoder was configured with.
pub uninterp spec fn encoder_dims(e: Encoder) -> (i32, i32);

/// The YUV 4:2:0 image the codec crate converts an RGB image of the given size into.
pub uninterp spec fn yuv_of_rgb(width: usize, height: usize, rgb: Seq<u8>) -> YUVBuffer;

/// Converts a packed RGB image to YUV 4:2:0.
///
/// Trusted: calls `YUVBuffer::with_rgb`, whose source panics unless the image
/// holds three bytes per pixel and both sides are even, and computes the
/// result from its arguments alone; the result is named `yuv_of_rgb`.
#[verifier::external_body]
fn yuv_from_rgb(width: usize, height: usize, rgb: &[u8]) -> (buf: YUVBuffer)
    requires
        rgb@.len() == width * height * 3,
        width % 2 == 0,
        height % 2 == 0,
    ensures
        buf == yuv_of_rgb(width, height, rgb@),
        yuv_dims(buf) == (width as i32, height as i32),
{
    YUVBuffer::with_rgb(width, height, rgb)
}

/// Encodes one YUV picture to an H.264 bitstream.
///
/// Trusted: calls `Encoder::encode` and copies the bitstream out with
/// `EncodedBitStream::to_vec`. The source asserts that the picture has the size
/// the encoder was configured with, left out by `requires`, and leaves that
/// configuration alone; the bitstream depends on the encoder's earlier frames,
/// so nothing is claimed of it.
#[verifier::external_body]
fn encode_yuv(encoder: &mut Encoder, yuv: &YUVBuffer) -> (r: Result<Vec<u8>, openh264::Error>)
    requires
        yuv_dims(*yuv) == encoder_dims(*old(encoder)),
    ensures
        encoder_dims(*final(encoder)) == encoder_dims(*old(encoder)),
{
    encoder.encode(yuv).map(|bitstream| bitstream.to_vec())
}

/// A picture as the camera captured it: its size and packed RGB pixels.
pub struct CameraFrame {
    pub resolution: (u32, u32),
    pub data: Vec<u8>,
}

impl CameraFrame {
    /// Whether the picture can be converted: three bytes per pixel, even sides.
    pub open spec fn convertible(&self) -> bool {
        &&& self.data@.len() == self.resolution.0 * self.resolution.1 * 3
        &&& self.resolution.0 % 2 == 0
        &&& self.resolution.1 % 2 == 0
    }
}

/// A camera picture converted to YUV, with its capture timestamp.
pub struct MyFrame {
    pub payload: YUVBuffer,
    pub timestamp: u64,
}

impl MyFrame {
    /// Converts a camera picture to YUV and stamps it with `ts`.
    pub fn build(frame: &CameraFrame, ts: u64) -> (res: Self)
        requires
            frame.convertible(),
        ensures
            res.payload == yuv_of_rgb(
                frame.resolution.0 as usize,
                frame.resolution.1 as usize,
                frame.data@,
            ),
            yuv_dims(res.payload) == (frame.resolution.0 as usize as i32, frame.resolution.1 as usize as i32),
            res.timestamp == ts,
    {
        let w = frame.resolution.0 as usize;
        let h = frame.resolution.1 as usize;
        Self { payload: yuv_from_rgb(w, h, frame.data.as_slice()), timestamp: ts }
    }
}

/// An encoded video frame together with the capture timestamp it came from.
pub struct MyEncodedFrame {
    pub payload: Vec<u8>,
    pub timestamp: u64,
}

impl MyEncodedFrame {
    /// Pairs an encoded bitstream with its timestamp.
    pub fn build(frame: Vec<u8>, ts: u64) -> (res: Self)
        ensures
            res.payload@ == frame@,
            res.timestamp == ts,
    {
        Self { payload: frame, timestamp: ts }
    }
}

/// The frame to send for what the encoder made of a picture taken at
/// `timestamp`: its bitstream with that timestamp, or `None` where it failed.
pub fn encoded_frame_of(encoded: Result<Vec<u8>, openh264::Error>, timestamp: u64) -> (r: Option<
    MyEncodedFrame,
>)
    ensures
        r is Some <==> encoded is Ok,
        encoded matches Ok(bitstream) ==> r matches Some(f) && f.payload@ == bitstream@
            && f.timestamp == timestamp,
{
    match encoded {
        Ok(bitstream) => Some(MyEncodedFrame::build(bitstream, timestamp)),
        Err(_) => None,
    }
}

/// Encodes a picture with `encoder` and stamps the bitstream with the
/// picture's timestamp; `None` where the encoder fails.
pub fn encode_frame(encoder: &mut Encoder, frame: &MyFrame) -> (r: Option<MyEncodedFrame>)
    requires
        yuv_dims(frame.payload) == encoder_dims(*old(encoder)),
    ensures
        r matches Some(f) ==> f.timestamp == frame.timestamp,
        encoder_dims(*final(encoder)) == encoder_dims(*old(encoder)),
{
    let encoded = encode_yuv(encoder, &frame.payload);
    encoded_frame_of(encoded, frame.timestamp)
}

} // verus!
