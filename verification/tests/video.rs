use ppapi::code::Code;
use ppapi::ffi;
use ppapi::ffi::{PP_Point, PP_Rect, PP_Size, PP_VideoPicture};
use ppapi::gles::{TexFormat, TextureBuffer};
use ppapi::media_stream_video_track::{Attr, VideoTrack};
use ppapi::video_decoder::{Acceleration, Frame, H264Profile, Profile, VideoDecoder};
use ppapi::video_frame::{Format, VideoFrame};

#[test]
fn frame_format_roundtrips() {
    for f in [Format::Unknown, Format::YV12, Format::I420, Format::BGRA].iter() {
        assert_eq!(Format::from_ffi(f.to_ffi()), *f);
    }
    let frame = VideoFrame::new(3);
    assert_eq!(frame.format(ffi::PP_VIDEOFRAME_FORMAT_I420), Format::I420);
    assert_eq!(frame.len(640), 640);
    assert!(frame.size(0, PP_Size { width: 2, height: 2 }).is_none());
    let s = frame.size(1, PP_Size { width: 2, height: 3 }).unwrap();
    assert_eq!((s.width, s.height), (2, 3));
}

#[test]
fn profiles_and_acceleration() {
    assert_eq!(Profile::VP8.to_ffi(), ffi::PP_VIDEOPROFILE_VP8_ANY);
    assert_eq!(Profile::H264(H264Profile::High).to_ffi(), ffi::PP_VIDEOPROFILE_H264HIGH);
    assert_eq!(Acceleration::default(), Acceleration::Hardware { with_fallback: true });
    assert_eq!(Acceleration::default().to_ffi(), ffi::PP_HARDWAREACCELERATION_WITHFALLBACK);
    assert_eq!(Acceleration::Hardware { with_fallback: false }.to_ffi(), ffi::PP_HARDWAREACCELERATION_ONLY);
    assert_eq!(Acceleration::Software.to_ffi(), ffi::PP_HARDWAREACCELERATION_NONE);
}

#[test]
fn decoder_codes() {
    let d = VideoDecoder(5);
    assert_eq!(d.initialize(None), Code::NoInterface);
    assert_eq!(d.decode(Some(ffi::PP_OK_COMPLETIONPENDING)), Code::CompletionPending);
    assert_eq!(d.flush(Some(ffi::PP_ERROR_FAILED)), Code::Failed);
}

#[test]
fn decoded_picture_roundtrip() {
    let raw = PP_VideoPicture {
        decode_id: 8,
        texture_id: 2,
        texture_target: 0x0DE1,
        texture_size: PP_Size { width: 64, height: 32 },
        visible_rect: PP_Rect { point: PP_Point { x: 0, y: 0 }, size: PP_Size { width: 60, height: 30 } },
    };
    let f = Frame::from_ffi(raw);
    assert_eq!(f.tag, 8);
    assert_eq!(f.texture, TextureBuffer(2));
    assert_eq!(f.format(), TexFormat::Rgba);
    assert_eq!(f.to_ffi(), raw);
    assert_eq!(VideoDecoder(5).recycle(f), raw);
}

#[test]
fn track_configuration_caps_sides() {
    let t = VideoTrack(4);
    let l = t.configure(&[Attr::Width(8000), Attr::Height(480), Attr::Buffers(3), Attr::Format(Format::BGRA)]);
    assert_eq!(l, vec![
        ffi::PP_MEDIASTREAMVIDEOTRACK_ATTRIB_WIDTH, 4096,
        ffi::PP_MEDIASTREAMVIDEOTRACK_ATTRIB_HEIGHT, 480,
        ffi::PP_MEDIASTREAMVIDEOTRACK_ATTRIB_BUFFERED_FRAMES, 3,
        ffi::PP_MEDIASTREAMVIDEOTRACK_ATTRIB_FORMAT, ffi::PP_VIDEOFRAME_FORMAT_BGRA as i32,
        ffi::PP_MEDIASTREAMVIDEOTRACK_ATTRIB_NONE,
    ]);
    assert_eq!(t.configure(&[]), vec![ffi::PP_MEDIASTREAMVIDEOTRACK_ATTRIB_NONE]);
}

#[test]
fn track_attribute_readings() {
    let t = VideoTrack(4);
    assert_eq!(t.get_attr(Attr::Width(0), Ok(320)), Ok(Attr::Width(320)));
    assert_eq!(t.get_attr(Attr::Format(Format::Unknown), Ok(2)), Ok(Attr::Format(Format::I420)));
    assert_eq!(t.get_attr(Attr::Buffers(0), Err(Code::Failed)), Err(Code::Failed));
    assert!(t.has_ended(ffi::PP_TRUE));
    assert_eq!(t.get_frame(ffi::PP_OK), Code::Success);
    assert_eq!(t.close(), 4);
}
