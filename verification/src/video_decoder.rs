//! Decoding compressed video into textures.
//!
//! Functions here that answer for a browser call take the browser's reply as
//! an argument (`None` when the browser has no decoder interface); their
//! documentation names the call.

use vstd::prelude::*;
use crate::ffi;
use crate::ffi::{PP_HardwareAcceleration, PP_Resource, PP_Size, PP_VideoPicture, PP_VideoProfile};
use crate::code::{Code, code_of, is_known_code};
use crate::geometry::{Rect, Size};
use crate::gles::{Enum, TexFormat, TextureBuffer};
use crate::resource::{Resource, ResourceType, ToOption, handle_option};

verus! {

/// A video decoder.
#[derive(Clone, Copy, PartialEq, Eq, Structural, Debug, Hash)]
pub struct VideoDecoder(pub PP_Resource);

impl Resource for VideoDecoder {
    open spec fn res(&self) -> PP_Resource { self.0 }
    open spec fn kind(&self) -> ResourceType { ResourceType::VideoDecoderRes }
    fn unwrap(&self) -> (r: PP_Resource) { self.0 }
    fn type_of(&self) -> (t: ResourceType) { ResourceType::VideoDecoderRes }
}

impl ToOption<PP_Resource> for VideoDecoder {
    fn to_option(from: &PP_Resource) -> (r: Option<VideoDecoder>)
        ensures r == handle_option(*from, |h: PP_Resource| VideoDecoder(h)),
    {
        if *from == 0 { None } else { Some(VideoDecoder(*from)) }
    }
}

/// The H.264 profiles.
#[derive(Clone, Copy, PartialEq, Eq, Structural, Debug, Hash)]
pub enum H264Profile {
    BaseLine,
    Main,
    Extended,
    High,
    High10,
    High422,
    High444Predictive,
    ScalableBaseLine,
    ScalableHigh,
    StereoHigh,
    MultiViewHigh,
}

pub open spec fn h264_profile_value(p: H264Profile) -> PP_VideoProfile {
    match p {
        H264Profile::BaseLine => ffi::PP_VIDEOPROFILE_H264BASELINE,
        H264Profile::Main => ffi::PP_VIDEOPROFILE_H264MAIN,
        H264Profile::Extended => ffi::PP_VIDEOPROFILE_H264EXTENDED,
        H264Profile::High => ffi::PP_VIDEOPROFILE_H264HIGH,
        H264Profile::High10 => ffi::PP_VIDEOPROFILE_H264HIGH10PROFILE,
        H264Profile::High422 => ffi::PP_VIDEOPROFILE_H264HIGH422PROFILE,
        H264Profile::High444Predictive => ffi::PP_VIDEOPROFILE_H264HIGH444PREDICTIVEPROFILE,
        H264Profile::ScalableBaseLine => ffi::PP_VIDEOPROFILE_H264SCALABLEBASELINE,
        H264Profile::ScalableHigh => ffi::PP_VIDEOPROFILE_H264SCALABLEHIGH,
        H264Profile::StereoHigh => ffi::PP_VIDEOPROFILE_H264STEREOHIGH,
        H264Profile::MultiViewHigh => ffi::PP_VIDEOPROFILE_H264MULTIVIEWHIGH,
    }
}

impl H264Profile {
    pub fn to_ffi(self) -> (v: PP_VideoProfile)
        ensures v == h264_profile_value(self),
    {
        match self {
            H264Profile::BaseLine => ffi::PP_VIDEOPROFILE_H264BASELINE,
            H264Profile::Main => ffi::PP_VIDEOPROFILE_H264MAIN,
            H264Profile::Extended => ffi::PP_VIDEOPROFILE_H264EXTENDED,
            H264Profile::High => ffi::PP_VIDEOPROFILE_H264HIGH,
            H264Profile::High10 => ffi::PP_VIDEOPROFILE_H264HIGH10PROFILE,
            H264Profile::High422 => ffi::PP_VIDEOPROFILE_H264HIGH422PROFILE,
            H264Profile::High444Predictive => ffi::PP_VIDEOPROFILE_H264HIGH444PREDICTIVEPROFILE,
            H264Profile::ScalableBaseLine => ffi::PP_VIDEOPROFILE_H264SCALABLEBASELINE,
            H264Profile::ScalableHigh => ffi::PP_VIDEOPROFILE_H264SCALABLEHIGH,
            H264Profile::StereoHigh => ffi::PP_VIDEOPROFILE_H264STEREOHIGH,
            H264Profile::MultiViewHigh => ffi::PP_VIDEOPROFILE_H264MULTIVIEWHIGH,
        }
    }
}

/// The video codecs a decoder can be made for.
#[derive(Clone, Copy, PartialEq, Eq, Structural, Debug, Hash)]
pub enum Profile {
    VP9,
    VP8,
    H264(H264Profile),
}

pub open spec fn profile_value(p: Profile) -> PP_VideoProfile {
    match p {
        Profile::H264(v) => h264_profile_value(v),
        Profile::VP9 => ffi::PP_VIDEOPROFILE_VP9_ANY,
        Profile::VP8 => ffi::PP_VIDEOPROFILE_VP8_ANY,
    }
}

impl Profile {
    pub fn to_ffi(self) -> (v: PP_VideoProfile)
        ensures v == profile_value(self),
    {
        match self {
            Profile::H264(v) => v.to_ffi(),
            Profile::VP9 => ffi::PP_VIDEOPROFILE_VP9_ANY,
            Profile::VP8 => ffi::PP_VIDEOPROFILE_VP8_ANY,
        }
    }
}

/// Distinct profiles have distinct browser values.
pub proof fn lemma_profile_values_distinct(p: Profile, q: Profile)
    requires p != q,
    ensures profile_value(p) != profile_value(q),
{
}

/// Where decoding runs: on hardware (falling back to software or not), or
/// in software.
#[derive(Clone, Copy, PartialEq, Eq, Structural, Debug, Hash)]
pub enum Acceleration {
    Hardware { with_fallback: bool },
    Software,
}

pub open spec fn acceleration_value(a: Acceleration) -> PP_HardwareAcceleration {
    match a {
        Acceleration::Hardware { with_fallback } =>
            if with_fallback { ffi::PP_HARDWAREACCELERATION_WITHFALLBACK } else { ffi::PP_HARDWAREACCELERATION_ONLY },
        Acceleration::Software => ffi::PP_HARDWAREACCELERATION_NONE,
    }
}

impl Acceleration {
    pub fn to_ffi(self) -> (v: PP_HardwareAcceleration)
        ensures v == acceleration_value(self),
    {
        match self {
            Acceleration::Hardware { with_fallback } => {
                if with_fallback {
                    ffi::PP_HARDWAREACCELERATION_WITHFALLBACK
                } else {
                    ffi::PP_HARDWAREACCELERATION_ONLY
                }
            },
            Acceleration::Software => ffi::PP_HARDWAREACCELERATION_NONE,
        }
    }
}

impl Default for Acceleration {
    /// Hardware decoding, falling back to software.
    fn default() -> (a: Acceleration)
        ensures a == (Acceleration::Hardware { with_fallback: true }),
    {
        Acceleration::Hardware { with_fallback: true }
    }
}

/// A decoded picture: the tag of the decode it came from, and its texture.
#[derive(Clone, Copy, PartialEq, Eq, Structural, Debug)]
pub struct Frame {
    pub tag: u32,
    pub texture: TextureBuffer,
    pub texture_target: Enum,
    pub texture_size: Size,
    pub visible_rect: Rect,
}

/// The picture a raw decoded picture stands for.
pub open spec fn frame_of(raw: PP_VideoPicture) -> Frame {
    Frame {
        tag: raw.decode_id,
        texture: TextureBuffer(raw.texture_id),
        texture_target: raw.texture_target,
        texture_size: Size { width: raw.texture_size.width as u32, height: raw.texture_size.height as u32 },
        visible_rect: raw.visible_rect,
    }
}

/// The raw picture a picture is handed back as.
pub open spec fn picture_of(f: Frame) -> PP_VideoPicture {
    PP_VideoPicture {
        decode_id: f.tag,
        texture_id: f.texture.0,
        texture_target: f.texture_target,
        texture_size: PP_Size { width: f.texture_size.width as i32, height: f.texture_size.height as i32 },
        visible_rect: f.visible_rect,
    }
}

impl Frame {
    /// Decoded pictures are RGBA textures.
    pub fn format(&self) -> (f: TexFormat)
        ensures f == TexFormat::Rgba,
    {
        TexFormat::Rgba
    }

    /// The picture as the decoder handed it out.
    pub fn from_ffi(raw: PP_VideoPicture) -> (f: Frame)
        ensures f == frame_of(raw),
    {
        Frame {
            tag: raw.decode_id,
            texture: TextureBuffer(raw.texture_id),
            texture_target: raw.texture_target,
            texture_size: Size::from_ffi(raw.texture_size),
            visible_rect: raw.visible_rect,
        }
    }

    /// The picture as the decoder takes it back.
    pub fn to_ffi(self) -> (raw: PP_VideoPicture)
        ensures raw == picture_of(self),
    {
        PP_VideoPicture {
            decode_id: self.tag,
            texture_id: self.texture.0,
            texture_target: self.texture_target,
            texture_size: self.texture_size.to_ffi(),
            visible_rect: self.visible_rect,
        }
    }
}

/// A picture handed back to the decoder and read again is the same
/// picture, and a raw picture read and handed back is the same raw picture.
pub proof fn lemma_frame_roundtrip(f: Frame, raw: PP_VideoPicture)
    ensures
        frame_of(picture_of(f)) == f,
        picture_of(frame_of(raw)) == raw,
{
    crate::geometry::lemma_size_ffi_roundtrip(f.texture_size);
    let w = raw.texture_size.width;
    let h = raw.texture_size.height;
    assert((w as u32) as i32 == w) by (bit_vector);
    assert((h as u32) as i32 == h) by (bit_vector);
}

/// The code of a decoder call: `NoInterface` when the browser has no decoder
/// interface, else the code the call returned.
pub open spec fn decoder_code(reply: Option<i32>) -> Code {
    match reply {
        Some(c) => code_of(c),
        None => Code::NoInterface,
    }
}

pub open spec fn known_reply(reply: Option<i32>) -> bool {
    reply matches Some(c) ==> is_known_code(c)
}

fn reply_code(reply: Option<i32>) -> (c: Code)
    requires known_reply(reply),
    ensures c == decoder_code(reply),
{
    match reply {
        Some(c) => Code::from_i32(c),
        None => Code::NoInterface,
    }
}

impl VideoDecoder {
    /// Readies the decoder to draw into a 3D context: `reply` is the code
    /// of `PPB_VideoDecoder::Initialize(self, g3d, profile, accel, callback)`.
    pub fn initialize(&self, reply: Option<i32>) -> (c: Code)
        requires known_reply(reply),
        ensures c == decoder_code(reply),
    {
        reply_code(reply)
    }

    /// Decodes a tagged buffer, which the browser copies first: `reply` is
    /// the code of `PPB_VideoDecoder::Decode(self, tag, len, data, callback)`.
    pub fn decode(&self, reply: Option<i32>) -> (c: Code)
        requires known_reply(reply),
        ensures c == decoder_code(reply),
    {
        reply_code(reply)
    }

    /// Finishes what was given to decode: `reply` is the code of
    /// `PPB_VideoDecoder::Flush(self, callback)`.
    pub fn flush(&self, reply: Option<i32>) -> (c: Code)
        requires known_reply(reply),
        ensures c == decoder_code(reply),
    {
        reply_code(reply)
    }

    /// Drops what was given to decode: `reply` is the code of
    /// `PPB_VideoDecoder::Reset(self, callback)`.
    pub fn reset(&self, reply: Option<i32>) -> (c: Code)
        requires known_reply(reply),
        ensures c == decoder_code(reply),
    {
        reply_code(reply)
    }

    /// Asks for the next picture: `reply` is the code of
    /// `PPB_VideoDecoder::GetPicture(self, &picture, callback)`; the callback
    /// is handed the picture as `Frame::from_ffi` reads it.
    pub fn get_picture(&self, reply: Option<i32>) -> (c: Code)
        requires known_reply(reply),
        ensures c == decoder_code(reply),
    {
        reply_code(reply)
    }

    /// The picture to hand back to the decoder with
    /// `PPB_VideoDecoder::RecyclePicture(self, &picture)`.
    pub fn recycle(&self, frame: Frame) -> (raw: PP_VideoPicture)
        ensures raw == picture_of(frame),
    {
        frame.to_ffi()
    }
}

/// Each value is given to the browser under the name of its own kind, and
/// no two kinds share a name.
pub proof fn lemma_h264_profile_value_by_name(x: H264Profile)
    ensures
        h264_profile_value(x) == ffi::PP_VIDEOPROFILE_H264BASELINE <==> x is BaseLine,
        h264_profile_value(x) == ffi::PP_VIDEOPROFILE_H264MAIN <==> x is Main,
        h264_profile_value(x) == ffi::PP_VIDEOPROFILE_H264EXTENDED <==> x is Extended,
        h264_profile_value(x) == ffi::PP_VIDEOPROFILE_H264HIGH <==> x is High,
        h264_profile_value(x) == ffi::PP_VIDEOPROFILE_H264HIGH10PROFILE <==> x is High10,
        h264_profile_value(x) == ffi::PP_VIDEOPROFILE_H264HIGH422PROFILE <==> x is High422,
        h264_profile_value(x) == ffi::PP_VIDEOPROFILE_H264HIGH444PREDICTIVEPROFILE <==> x is High444Predictive,
        h264_profile_value(x) == ffi::PP_VIDEOPROFILE_H264SCALABLEBASELINE <==> x is ScalableBaseLine,
        h264_profile_value(x) == ffi::PP_VIDEOPROFILE_H264SCALABLEHIGH <==> x is ScalableHigh,
        h264_profile_value(x) == ffi::PP_VIDEOPROFILE_H264STEREOHIGH <==> x is StereoHigh,
        h264_profile_value(x) == ffi::PP_VIDEOPROFILE_H264MULTIVIEWHIGH <==> x is MultiViewHigh,
{
}

/// Each profile is given under the browser's name for it: VP8 as VP8, VP9 as
/// VP9, and each H.264 profile under its own H.264 name; and hardware
/// acceleration is asked for alone, with a fallback, or not at all, as
/// described.
pub proof fn lemma_profiles_and_acceleration_by_name(p: Profile, a: Acceleration)
    ensures
        profile_value(p) == ffi::PP_VIDEOPROFILE_VP8_ANY <==> p is VP8,
        profile_value(p) == ffi::PP_VIDEOPROFILE_VP9_ANY <==> p is VP9,
        p matches Profile::H264(h) ==> profile_value(p) == h264_profile_value(h),
        acceleration_value(a) == ffi::PP_HARDWAREACCELERATION_NONE <==> a is Software,
        acceleration_value(a) == ffi::PP_HARDWAREACCELERATION_ONLY <==> a == (Acceleration::Hardware { with_fallback: false }),
        acceleration_value(a) == ffi::PP_HARDWAREACCELERATION_WITHFALLBACK <==> a == (Acceleration::Hardware { with_fallback: true }),
{
    match p {
        Profile::H264(h) => { lemma_h264_profile_value_by_name(h); },
        _ => {},
    }
}

} // verus!
