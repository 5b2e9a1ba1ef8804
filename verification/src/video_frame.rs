//! Frames of video and their pixel formats.
//!
//! Functions here that answer for a browser call take the browser's reply as
//! an argument; their documentation names the call.

use vstd::prelude::*;
use crate::ffi;
use crate::ffi::{PP_Bool, PP_Resource, PP_Size, PP_VideoFrame_Format};
use crate::geometry::Size;
use crate::resource::{Resource, ResourceType, ToOption, handle_option};

verus! {

/// A frame of video in browser memory.
#[derive(Clone, Copy, PartialEq, Eq, Structural, Debug, Hash)]
pub struct VideoFrame(pub PP_Resource);

/// The pixel formats of video frames.
#[derive(Clone, Copy, PartialEq, Eq, Structural, Debug, Hash)]
pub enum Format {
    Unknown,
    YV12,
    I420,
    BGRA,
}

pub open spec fn is_known_frame_format(v: PP_VideoFrame_Format) -> bool {
    v <= ffi::PP_VIDEOFRAME_FORMAT_BGRA
}

pub open spec fn frame_format_of(v: PP_VideoFrame_Format) -> Format {
    if v == ffi::PP_VIDEOFRAME_FORMAT_UNKNOWN { Format::Unknown }
    else if v == ffi::PP_VIDEOFRAME_FORMAT_YV12 { Format::YV12 }
    else if v == ffi::PP_VIDEOFRAME_FORMAT_I420 { Format::I420 }
    else { Format::BGRA }
}

pub open spec fn frame_format_value(f: Format) -> PP_VideoFrame_Format {
    match f {
        Format::Unknown => ffi::PP_VIDEOFRAME_FORMAT_UNKNOWN,
        Format::YV12 => ffi::PP_VIDEOFRAME_FORMAT_YV12,
        Format::I420 => ffi::PP_VIDEOFRAME_FORMAT_I420,
        Format::BGRA => ffi::PP_VIDEOFRAME_FORMAT_BGRA,
    }
}

impl Format {
    /// The format a browser value names; other values are not formats.
    pub fn from_ffi(v: PP_VideoFrame_Format) -> (f: Format)
        requires is_known_frame_format(v),
        ensures f == frame_format_of(v),
    {
        if v == ffi::PP_VIDEOFRAME_FORMAT_UNKNOWN {
            Format::Unknown
        } else if v == ffi::PP_VIDEOFRAME_FORMAT_YV12 {
            Format::YV12
        } else if v == ffi::PP_VIDEOFRAME_FORMAT_I420 {
            Format::I420
        } else {
            Format::BGRA
        }
    }

    pub fn to_ffi(self) -> (v: PP_VideoFrame_Format)
        ensures v == frame_format_value(self),
    {
        match self {
            Format::YV12 => ffi::PP_VIDEOFRAME_FORMAT_YV12,
            Format::I420 => ffi::PP_VIDEOFRAME_FORMAT_I420,
            Format::BGRA => ffi::PP_VIDEOFRAME_FORMAT_BGRA,
            Format::Unknown => ffi::PP_VIDEOFRAME_FORMAT_UNKNOWN,
        }
    }
}

/// A frame format given to the browser and read back is the same format,
/// and a known value read and given back is the same value.
pub proof fn lemma_frame_format_roundtrip(f: Format, v: PP_VideoFrame_Format)
    ensures
        is_known_frame_format(frame_format_value(f)),
        frame_format_of(frame_format_value(f)) == f,
        is_known_frame_format(v) ==> frame_format_value(frame_format_of(v)) == v,
{
}

impl VideoFrame {
    pub fn new(res: PP_Resource) -> (f: VideoFrame)
        ensures f.0 == res,
    {
        VideoFrame(res)
    }

    /// The frame's pixel format: `reply` is the answer of
    /// `PPB_VideoFrame::GetFormat(self)`, a known format.
    pub fn format(&self, reply: PP_VideoFrame_Format) -> (f: Format)
        requires is_known_frame_format(reply),
        ensures f == frame_format_of(reply),
    {
        Format::from_ffi(reply)
    }

    /// The frame's size: `found` and `size` are the answer of
    /// `PPB_VideoFrame::GetSize(self, &size)` and what it filled in.
    pub fn size(&self, found: PP_Bool, size: PP_Size) -> (r: Option<Size>)
        ensures
            found == 0 ==> r is None,
            found != 0 ==> (r matches Some(s) && s.width == size.width as u32 && s.height == size.height as u32),
    {
        if found == 0 { None } else { Some(Size::from_ffi(size)) }
    }

    /// The length of the frame's data in bytes: `reply` is the answer of
    /// `PPB_VideoFrame::GetDataBufferSize(self)`.
    pub fn len(&self, reply: u32) -> (n: usize)
        ensures n == reply,
    {
        reply as usize
    }
}

impl Resource for VideoFrame {
    open spec fn res(&self) -> PP_Resource { self.0 }
    open spec fn kind(&self) -> ResourceType { ResourceType::VideoFrameRes }
    fn unwrap(&self) -> (r: PP_Resource) { self.0 }
    fn type_of(&self) -> (t: ResourceType) { ResourceType::VideoFrameRes }
}

impl ToOption<PP_Resource> for VideoFrame {
    fn to_option(from: &PP_Resource) -> (r: Option<VideoFrame>)
        ensures r == handle_option(*from, |h: PP_Resource| VideoFrame(h)),
    {
        if *from == 0 { None } else { Some(VideoFrame(*from)) }
    }
}

/// Each value is given to the browser under the name of its own kind, and
/// no two kinds share a name.
pub proof fn lemma_frame_format_value_by_name(x: Format)
    ensures
        frame_format_value(x) == ffi::PP_VIDEOFRAME_FORMAT_UNKNOWN <==> x is Unknown,
        frame_format_value(x) == ffi::PP_VIDEOFRAME_FORMAT_YV12 <==> x is YV12,
        frame_format_value(x) == ffi::PP_VIDEOFRAME_FORMAT_I420 <==> x is I420,
        frame_format_value(x) == ffi::PP_VIDEOFRAME_FORMAT_BGRA <==> x is BGRA,
{
}

} // verus!
