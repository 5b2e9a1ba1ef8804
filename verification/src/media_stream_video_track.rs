//! Video tracks of media streams: configuring them and reading their
//! frames.
//!
//! Functions here that answer for a browser call take the browser's reply as
//! an argument; their documentation names the call.

use vstd::prelude::*;
use crate::ffi;
use crate::ffi::{PP_Bool, PP_MediaStreamVideoTrack_Attrib, PP_Resource, PP_Var};
use crate::code::{Code, code_of, is_known_code};
use crate::resource::{Resource, ResourceType, ToOption, handle_option};
use crate::var::StringVar;
use crate::video_frame;
use crate::video_frame::{VideoFrame, frame_format_of, frame_format_value, is_known_frame_format};

verus! {

/// A video track, made on the page and sent to the plugin in a message.
#[derive(Clone, Copy, PartialEq, Eq, Structural, Debug, Hash)]
pub struct VideoTrack(pub PP_Resource);

impl Resource for VideoTrack {
    open spec fn res(&self) -> PP_Resource { self.0 }
    open spec fn kind(&self) -> ResourceType { ResourceType::VideoFrameRes }
    fn unwrap(&self) -> (r: PP_Resource) { self.0 }
    fn type_of(&self) -> (t: ResourceType) { ResourceType::VideoFrameRes }
}

impl ToOption<PP_Resource> for VideoTrack {
    fn to_option(from: &PP_Resource) -> (r: Option<VideoTrack>)
        ensures r == handle_option(*from, |h: PP_Resource| VideoTrack(h)),
    {
        if *from == 0 { None } else { Some(VideoTrack(*from)) }
    }
}

/// The largest width or height a track can be asked for.
pub const MAX_TRACK_SIDE: u32 = 4096;

/// The attributes of a video track.
#[derive(Clone, Copy, PartialEq, Eq, Structural, Debug, Hash)]
pub enum Attr {
    /// The number of frames to buffer; 0 for the browser's default.
    Buffers(u32),
    /// The width of frames in pixels, at most 4096; 0 for the source's.
    Width(u32),
    /// The height of frames in pixels, at most 4096; 0 for the source's.
    Height(u32),
    /// The format of frames; `Unknown` for the source's.
    Format(video_frame::Format),
}

pub open spec fn attr_name(a: Attr) -> PP_MediaStreamVideoTrack_Attrib {
    match a {
        Attr::Buffers(..) => ffi::PP_MEDIASTREAMVIDEOTRACK_ATTRIB_BUFFERED_FRAMES,
        Attr::Width(..) => ffi::PP_MEDIASTREAMVIDEOTRACK_ATTRIB_WIDTH,
        Attr::Height(..) => ffi::PP_MEDIASTREAMVIDEOTRACK_ATTRIB_HEIGHT,
        Attr::Format(..) => ffi::PP_MEDIASTREAMVIDEOTRACK_ATTRIB_FORMAT,
    }
}

/// The value an attribute is given as: sides are capped at 4096, and the
/// bits of unsigned values are read as signed.
pub open spec fn attr_value(a: Attr) -> PP_MediaStreamVideoTrack_Attrib {
    match a {
        Attr::Buffers(c) => c as i32,
        Attr::Width(c) => (if c < MAX_TRACK_SIDE { c } else { MAX_TRACK_SIDE }) as i32,
        Attr::Height(c) => (if c < MAX_TRACK_SIDE { c } else { MAX_TRACK_SIDE }) as i32,
        Attr::Format(f) => frame_format_value(f) as i32,
    }
}

/// The attributes as the browser takes them: each one's name and value.
pub open spec fn attr_values(attrs: Seq<Attr>) -> Seq<PP_MediaStreamVideoTrack_Attrib>
    decreases attrs.len(),
{
    if attrs.len() == 0 {
        Seq::empty()
    } else {
        attr_values(attrs.drop_last()) + seq![attr_name(attrs.last()), attr_value(attrs.last())]
    }
}

impl Attr {
    pub fn to_ffi(self) -> (v: PP_MediaStreamVideoTrack_Attrib)
        ensures v == attr_name(self),
    {
        match self {
            Attr::Buffers(..) => ffi::PP_MEDIASTREAMVIDEOTRACK_ATTRIB_BUFFERED_FRAMES,
            Attr::Width(..) => ffi::PP_MEDIASTREAMVIDEOTRACK_ATTRIB_WIDTH,
            Attr::Height(..) => ffi::PP_MEDIASTREAMVIDEOTRACK_ATTRIB_HEIGHT,
            Attr::Format(..) => ffi::PP_MEDIASTREAMVIDEOTRACK_ATTRIB_FORMAT,
        }
    }

    fn value(self) -> (v: PP_MediaStreamVideoTrack_Attrib)
        ensures v == attr_value(self),
    {
        match self {
            Attr::Buffers(c) => #[verifier::truncate] (c as i32),
            Attr::Width(c) | Attr::Height(c) => {
                let c = if c < MAX_TRACK_SIDE { c } else { MAX_TRACK_SIDE };
                c as i32
            },
            Attr::Format(f) => f.to_ffi() as i32,
        }
    }
}

/// The attribute a reading is for, of the same kind as the one asked for.
pub open spec fn attr_reading(asked: Attr, i: i32) -> Attr {
    match asked {
        Attr::Buffers(..) => Attr::Buffers(i as u32),
        Attr::Width(..) => Attr::Width(i as u32),
        Attr::Height(..) => Attr::Height(i as u32),
        Attr::Format(..) => Attr::Format(frame_format_of(i as u32)),
    }
}

impl VideoTrack {
    /// The attribute list that `PPB_MediaStreamVideoTrack::Configure(self,
    /// list, callback)` is given: each attribute's name and value, then
    /// `NONE`.
    pub fn configure(&self, attrs: &[Attr]) -> (l: Vec<PP_MediaStreamVideoTrack_Attrib>)
        ensures l@ == attr_values(attrs@).push(ffi::PP_MEDIASTREAMVIDEOTRACK_ATTRIB_NONE),
    {
        let mut l: Vec<PP_MediaStreamVideoTrack_Attrib> = Vec::new();
        let mut i: usize = 0;
        while i < attrs.len()
            invariant
                i <= attrs@.len(),
                l@ == attr_values(attrs@.subrange(0, i as int)),
            decreases attrs@.len() - i,
        {
            let a = attrs[i];
            l.push(a.to_ffi());
            l.push(a.value());
            proof {
                assert(attrs@.subrange(0, i + 1).drop_last() == attrs@.subrange(0, i as int));
            }
            i = i + 1;
        }
        proof {
            assert(attrs@.subrange(0, attrs@.len() as int) == attrs@);
        }
        l.push(ffi::PP_MEDIASTREAMVIDEOTRACK_ATTRIB_NONE);
        l
    }

    /// The current value of an attribute: `reply` is what
    /// `PPB_MediaStreamVideoTrack::GetAttrib(self, name, &value)` gave, the
    /// value or the failing code; a format read back is a known one.
    pub fn get_attr(&self, attr: Attr, reply: Result<i32, Code>) -> (r: Result<Attr, Code>)
        requires
            attr is Format ==> (reply matches Ok(i) ==> is_known_frame_format(i as u32)),
        ensures
            match reply {
                Ok(i) => r == Ok::<Attr, Code>(attr_reading(attr, i)),
                Err(c) => r == Err::<Attr, Code>(c),
            },
    {
        match reply {
            Ok(i) => {
                let a = match attr {
                    Attr::Buffers(..) => Attr::Buffers(i as u32),
                    Attr::Width(..) => Attr::Width(i as u32),
                    Attr::Height(..) => Attr::Height(i as u32),
                    Attr::Format(..) => Attr::Format(video_frame::Format::from_ffi(i as u32)),
                };
                Ok(a)
            },
            Err(c) => Err(c),
        }
    }

    /// The track's id: `v` is the var that
    /// `PPB_MediaStreamVideoTrack::GetId(self)` returned.
    pub fn get_id(&self, v: PP_Var) -> (s: StringVar)
        ensures s.0 == v.value,
    {
        StringVar::new_from_var(v)
    }

    /// `reply` is the answer of `PPB_MediaStreamVideoTrack::HasEnded(self)`.
    pub fn has_ended(&self, reply: PP_Bool) -> (b: bool)
        ensures b == (reply != ffi::PP_FALSE),
    {
        reply != ffi::PP_FALSE
    }

    /// Asks for the next frame: `reply` is the code of
    /// `PPB_MediaStreamVideoTrack::GetFrame(self, &frame, callback)`; the
    /// callback is handed the frame.
    pub fn get_frame(&self, reply: i32) -> (c: Code)
        requires is_known_code(reply),
        ensures c == code_of(reply),
    {
        Code::from_i32(reply)
    }

    /// Hands a frame back: `reply` is the code of
    /// `PPB_MediaStreamVideoTrack::RecycleFrame(self, frame)`.
    pub fn recycle_frame(&self, frame: VideoFrame, reply: i32) -> (c: Code)
        requires is_known_code(reply),
        ensures c == code_of(reply),
    {
        Code::from_i32(reply)
    }

    /// Closes the track; the handle to pass to
    /// `PPB_MediaStreamVideoTrack::Close`.
    pub fn close(self) -> (r: PP_Resource)
        ensures r == self.0,
    {
        self.0
    }
}

/// Each value is given to the browser under the name of its own kind, and
/// no two kinds share a name.
pub proof fn lemma_attr_names_by_kind(x: Attr)
    ensures
        attr_name(x) == ffi::PP_MEDIASTREAMVIDEOTRACK_ATTRIB_BUFFERED_FRAMES <==> x is Buffers,
        attr_name(x) == ffi::PP_MEDIASTREAMVIDEOTRACK_ATTRIB_WIDTH <==> x is Width,
        attr_name(x) == ffi::PP_MEDIASTREAMVIDEOTRACK_ATTRIB_HEIGHT <==> x is Height,
        attr_name(x) == ffi::PP_MEDIASTREAMVIDEOTRACK_ATTRIB_FORMAT <==> x is Format,
{
}

} // verus!
