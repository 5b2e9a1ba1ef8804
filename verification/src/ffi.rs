//! Plain-value mirror of the Pepper C API types and constants that the
//! library computes with.
//!
//! Handles (`PP_Resource`, `PP_Instance`, `PP_Module`) are the integers the
//! browser hands out. A `PP_Var` is the browser's tagged value: a type tag and
//! an eight byte payload, which here is held as one 64-bit integer.

use vstd::prelude::*;

verus! {

pub type PP_Resource = i32;
pub type PP_Instance = i32;
pub type PP_Module = i32;
pub type PP_Bool = i32;

pub const PP_FALSE: PP_Bool = 0;
pub const PP_TRUE: PP_Bool = 1;

// Result codes (pp_errors.h).
pub const PP_OK: i32 = 0;
pub const PP_OK_COMPLETIONPENDING: i32 = -1;
pub const PP_ERROR_FAILED: i32 = -2;
pub const PP_ERROR_ABORTED: i32 = -3;
pub const PP_ERROR_BADARGUMENT: i32 = -4;
pub const PP_ERROR_BADRESOURCE: i32 = -5;
pub const PP_ERROR_NOINTERFACE: i32 = -6;
pub const PP_ERROR_NOACCESS: i32 = -7;
pub const PP_ERROR_NOMEMORY: i32 = -8;
pub const PP_ERROR_NOSPACE: i32 = -9;
pub const PP_ERROR_NOQUOTA: i32 = -10;
pub const PP_ERROR_INPROGRESS: i32 = -11;
pub const PP_ERROR_NOTSUPPORTED: i32 = -12;
pub const PP_ERROR_BLOCKS_MAIN_THREAD: i32 = -13;
pub const PP_ERROR_FILENOTFOUND: i32 = -20;
pub const PP_ERROR_FILEEXISTS: i32 = -21;
pub const PP_ERROR_FILETOOBIG: i32 = -22;
pub const PP_ERROR_FILECHANGED: i32 = -23;
pub const PP_ERROR_NOTAFILE: i32 = -24;
pub const PP_ERROR_TIMEDOUT: i32 = -30;
pub const PP_ERROR_USERCANCEL: i32 = -40;
pub const PP_ERROR_NO_USER_GESTURE: i32 = -41;
pub const PP_ERROR_CONTEXT_LOST: i32 = -50;
pub const PP_ERROR_NO_MESSAGE_LOOP: i32 = -51;
pub const PP_ERROR_WRONG_THREAD: i32 = -52;
pub const PP_ERROR_CONNECTION_CLOSED: i32 = -100;
pub const PP_ERROR_CONNECTION_RESET: i32 = -101;
pub const PP_ERROR_CONNECTION_REFUSED: i32 = -102;
pub const PP_ERROR_CONNECTION_ABORTED: i32 = -103;
pub const PP_ERROR_CONNECTION_FAILED: i32 = -104;
pub const PP_ERROR_CONNECTION_TIMEDOUT: i32 = -105;

// Var types (pp_var.h).
pub type PP_VarType = u32;
pub const PP_VARTYPE_UNDEFINED: PP_VarType = 0;
pub const PP_VARTYPE_NULL: PP_VarType = 1;
pub const PP_VARTYPE_BOOL: PP_VarType = 2;
pub const PP_VARTYPE_INT32: PP_VarType = 3;
pub const PP_VARTYPE_DOUBLE: PP_VarType = 4;
pub const PP_VARTYPE_STRING: PP_VarType = 5;
pub const PP_VARTYPE_OBJECT: PP_VarType = 6;
pub const PP_VARTYPE_ARRAY: PP_VarType = 7;
pub const PP_VARTYPE_DICTIONARY: PP_VarType = 8;
pub const PP_VARTYPE_ARRAY_BUFFER: PP_VarType = 9;
pub const PP_VARTYPE_RESOURCE: PP_VarType = 10;

// Console log levels.
pub type PP_LogLevel = u32;
pub const PP_LOGLEVEL_TIP: PP_LogLevel = 0;
pub const PP_LOGLEVEL_LOG: PP_LogLevel = 1;
pub const PP_LOGLEVEL_WARNING: PP_LogLevel = 2;
pub const PP_LOGLEVEL_ERROR: PP_LogLevel = 3;

// Input events.
pub type PP_InputEvent_Type = i32;
pub const PP_INPUTEVENT_TYPE_UNDEFINED: PP_InputEvent_Type = -1;
pub const PP_INPUTEVENT_TYPE_MOUSEDOWN: PP_InputEvent_Type = 0;
pub const PP_INPUTEVENT_TYPE_MOUSEUP: PP_InputEvent_Type = 1;
pub const PP_INPUTEVENT_TYPE_MOUSEMOVE: PP_InputEvent_Type = 2;
pub const PP_INPUTEVENT_TYPE_MOUSEENTER: PP_InputEvent_Type = 3;
pub const PP_INPUTEVENT_TYPE_MOUSELEAVE: PP_InputEvent_Type = 4;
pub const PP_INPUTEVENT_TYPE_WHEEL: PP_InputEvent_Type = 5;
pub const PP_INPUTEVENT_TYPE_RAWKEYDOWN: PP_InputEvent_Type = 6;
pub const PP_INPUTEVENT_TYPE_KEYDOWN: PP_InputEvent_Type = 7;
pub const PP_INPUTEVENT_TYPE_KEYUP: PP_InputEvent_Type = 8;
pub const PP_INPUTEVENT_TYPE_CHAR: PP_InputEvent_Type = 9;
pub const PP_INPUTEVENT_TYPE_CONTEXTMENU: PP_InputEvent_Type = 10;

pub type PP_InputEvent_MouseButton = i32;
// Input event modifier bits.
pub type PP_InputEvent_Modifier = u32;
pub const PP_INPUTEVENT_MODIFIER_SHIFTKEY: PP_InputEvent_Modifier = 1;
pub const PP_INPUTEVENT_MODIFIER_CONTROLKEY: PP_InputEvent_Modifier = 2;
pub const PP_INPUTEVENT_MODIFIER_ALTKEY: PP_InputEvent_Modifier = 4;
pub const PP_INPUTEVENT_MODIFIER_METAKEY: PP_InputEvent_Modifier = 8;
pub const PP_INPUTEVENT_MODIFIER_ISKEYPAD: PP_InputEvent_Modifier = 16;
pub const PP_INPUTEVENT_MODIFIER_ISAUTOREPEAT: PP_InputEvent_Modifier = 32;
pub const PP_INPUTEVENT_MODIFIER_LEFTBUTTONDOWN: PP_InputEvent_Modifier = 64;
pub const PP_INPUTEVENT_MODIFIER_MIDDLEBUTTONDOWN: PP_InputEvent_Modifier = 128;
pub const PP_INPUTEVENT_MODIFIER_RIGHTBUTTONDOWN: PP_InputEvent_Modifier = 256;
pub const PP_INPUTEVENT_MODIFIER_CAPSLOCKKEY: PP_InputEvent_Modifier = 512;
pub const PP_INPUTEVENT_MODIFIER_NUMLOCKKEY: PP_InputEvent_Modifier = 1024;
pub const PP_INPUTEVENT_MODIFIER_ISLEFT: PP_InputEvent_Modifier = 2048;
pub const PP_INPUTEVENT_MODIFIER_ISRIGHT: PP_InputEvent_Modifier = 4096;

pub const PP_INPUTEVENT_MOUSEBUTTON_NONE: PP_InputEvent_MouseButton = -1;
pub const PP_INPUTEVENT_MOUSEBUTTON_LEFT: PP_InputEvent_MouseButton = 0;
pub const PP_INPUTEVENT_MOUSEBUTTON_MIDDLE: PP_InputEvent_MouseButton = 1;
pub const PP_INPUTEVENT_MOUSEBUTTON_RIGHT: PP_InputEvent_MouseButton = 2;

pub type PP_InputEvent_Class = u32;
pub const PP_INPUTEVENT_CLASS_MOUSE: PP_InputEvent_Class = 1;
pub const PP_INPUTEVENT_CLASS_KEYBOARD: PP_InputEvent_Class = 2;
pub const PP_INPUTEVENT_CLASS_WHEEL: PP_InputEvent_Class = 4;
pub const PP_INPUTEVENT_CLASS_TOUCH: PP_InputEvent_Class = 8;
pub const PP_INPUTEVENT_CLASS_IME: PP_InputEvent_Class = 16;

pub type PP_TouchListType = u32;
pub const PP_TOUCHLIST_TYPE_TOUCHES: PP_TouchListType = 0;
pub const PP_TOUCHLIST_TYPE_CHANGEDTOUCHES: PP_TouchListType = 1;
pub const PP_TOUCHLIST_TYPE_TARGETTOUCHES: PP_TouchListType = 2;

// Graphics3D attributes.
pub type PP_Graphics3DAttrib = i32;
pub const PP_GRAPHICS3DATTRIB_ALPHA_SIZE: PP_Graphics3DAttrib = 0x3021;
pub const PP_GRAPHICS3DATTRIB_BLUE_SIZE: PP_Graphics3DAttrib = 0x3022;
pub const PP_GRAPHICS3DATTRIB_GREEN_SIZE: PP_Graphics3DAttrib = 0x3023;
pub const PP_GRAPHICS3DATTRIB_RED_SIZE: PP_Graphics3DAttrib = 0x3024;
pub const PP_GRAPHICS3DATTRIB_DEPTH_SIZE: PP_Graphics3DAttrib = 0x3025;
pub const PP_GRAPHICS3DATTRIB_STENCIL_SIZE: PP_Graphics3DAttrib = 0x3026;
pub const PP_GRAPHICS3DATTRIB_SAMPLES: PP_Graphics3DAttrib = 0x3031;
pub const PP_GRAPHICS3DATTRIB_SAMPLE_BUFFERS: PP_Graphics3DAttrib = 0x3032;
pub const PP_GRAPHICS3DATTRIB_NONE: PP_Graphics3DAttrib = 0x3038;
pub const PP_GRAPHICS3DATTRIB_HEIGHT: PP_Graphics3DAttrib = 0x3056;
pub const PP_GRAPHICS3DATTRIB_WIDTH: PP_Graphics3DAttrib = 0x3057;
pub const PP_GRAPHICS3DATTRIB_SWAP_BEHAVIOR: PP_Graphics3DAttrib = 0x3093;
pub const PP_GRAPHICS3DATTRIB_BUFFER_PRESERVED: PP_Graphics3DAttrib = 0x3094;
pub const PP_GRAPHICS3DATTRIB_BUFFER_DESTROYED: PP_Graphics3DAttrib = 0x3095;
pub const PP_GRAPHICS3DATTRIB_GPU_PREFERENCE: PP_Graphics3DAttrib = 0x11000;
pub const PP_GRAPHICS3DATTRIB_GPU_PREFERENCE_LOW_POWER: PP_Graphics3DAttrib = 0x11001;
pub const PP_GRAPHICS3DATTRIB_GPU_PREFERENCE_PERFORMANCE: PP_Graphics3DAttrib = 0x11002;

// Image data.
pub type PP_ImageDataFormat = u32;
pub const PP_IMAGEDATAFORMAT_BGRA_PREMUL: PP_ImageDataFormat = 0;
pub const PP_IMAGEDATAFORMAT_RGBA_PREMUL: PP_ImageDataFormat = 1;

// URL requests and responses.
pub type PP_URLRequestProperty = u32;
pub const PP_URLREQUESTPROPERTY_URL: PP_URLRequestProperty = 0;
pub const PP_URLREQUESTPROPERTY_METHOD: PP_URLRequestProperty = 1;
pub const PP_URLREQUESTPROPERTY_HEADERS: PP_URLRequestProperty = 2;
pub const PP_URLREQUESTPROPERTY_STREAMTOFILE: PP_URLRequestProperty = 3;
pub const PP_URLREQUESTPROPERTY_FOLLOWREDIRECTS: PP_URLRequestProperty = 4;
pub const PP_URLREQUESTPROPERTY_RECORDDOWNLOADPROGRESS: PP_URLRequestProperty = 5;
pub const PP_URLREQUESTPROPERTY_RECORDUPLOADPROGRESS: PP_URLRequestProperty = 6;
pub const PP_URLREQUESTPROPERTY_CUSTOMREFERRERURL: PP_URLRequestProperty = 7;
pub const PP_URLREQUESTPROPERTY_ALLOWCROSSORIGINREQUESTS: PP_URLRequestProperty = 8;
pub const PP_URLREQUESTPROPERTY_ALLOWCREDENTIALS: PP_URLRequestProperty = 9;

pub type PP_URLResponseProperty = u32;
pub const PP_URLRESPONSEPROPERTY_URL: PP_URLResponseProperty = 0;
pub const PP_URLRESPONSEPROPERTY_REDIRECTURL: PP_URLResponseProperty = 1;
pub const PP_URLRESPONSEPROPERTY_REDIRECTMETHOD: PP_URLResponseProperty = 2;
pub const PP_URLRESPONSEPROPERTY_STATUSCODE: PP_URLResponseProperty = 3;
pub const PP_URLRESPONSEPROPERTY_STATUSLINE: PP_URLResponseProperty = 4;
pub const PP_URLRESPONSEPROPERTY_HEADERS: PP_URLResponseProperty = 5;

// Files.
pub type PP_FileType = u32;
pub const PP_FILETYPE_REGULAR: PP_FileType = 0;
pub const PP_FILETYPE_DIRECTORY: PP_FileType = 1;
pub const PP_FILETYPE_OTHER: PP_FileType = 2;

pub type PP_FileSystemType = u32;
pub const PP_FILESYSTEMTYPE_INVALID: PP_FileSystemType = 0;
pub const PP_FILESYSTEMTYPE_EXTERNAL: PP_FileSystemType = 1;
pub const PP_FILESYSTEMTYPE_LOCALPERSISTENT: PP_FileSystemType = 2;
pub const PP_FILESYSTEMTYPE_LOCALTEMPORARY: PP_FileSystemType = 3;
pub const PP_FILESYSTEMTYPE_ISOLATED: PP_FileSystemType = 4;

pub const PP_FILEOPENFLAG_READ: i32 = 1;
pub const PP_FILEOPENFLAG_WRITE: i32 = 2;
pub const PP_FILEOPENFLAG_CREATE: i32 = 4;
pub const PP_FILEOPENFLAG_TRUNCATE: i32 = 8;
pub const PP_FILEOPENFLAG_EXCLUSIVE: i32 = 16;
pub const PP_FILEOPENFLAG_APPEND: i32 = 32;

pub const PP_MAKEDIRECTORYFLAG_NONE: i32 = 0;
pub const PP_MAKEDIRECTORYFLAG_WITH_ANCESTORS: i32 = 1;
pub const PP_MAKEDIRECTORYFLAG_EXCLUSIVE: i32 = 2;

// Fonts.
pub type PP_FontFamily_Dev = u32;
pub const PP_FONTFAMILY_DEFAULT: PP_FontFamily_Dev = 0;
pub const PP_FONTFAMILY_SERIF: PP_FontFamily_Dev = 1;
pub const PP_FONTFAMILY_SANSSERIF: PP_FontFamily_Dev = 2;
pub const PP_FONTFAMILY_MONOSPACE: PP_FontFamily_Dev = 3;

pub type PP_FontWeight_Dev = u32;
pub const PP_FONTWEIGHT_100: PP_FontWeight_Dev = 0;
pub const PP_FONTWEIGHT_200: PP_FontWeight_Dev = 1;
pub const PP_FONTWEIGHT_300: PP_FontWeight_Dev = 2;
pub const PP_FONTWEIGHT_400: PP_FontWeight_Dev = 3;
pub const PP_FONTWEIGHT_500: PP_FontWeight_Dev = 4;
pub const PP_FONTWEIGHT_600: PP_FontWeight_Dev = 5;
pub const PP_FONTWEIGHT_700: PP_FontWeight_Dev = 6;
pub const PP_FONTWEIGHT_800: PP_FontWeight_Dev = 7;
pub const PP_FONTWEIGHT_900: PP_FontWeight_Dev = 8;

// Video.
pub type PP_VideoFrame_Format = u32;
pub const PP_VIDEOFRAME_FORMAT_UNKNOWN: PP_VideoFrame_Format = 0;
pub const PP_VIDEOFRAME_FORMAT_YV12: PP_VideoFrame_Format = 1;
pub const PP_VIDEOFRAME_FORMAT_I420: PP_VideoFrame_Format = 2;
pub const PP_VIDEOFRAME_FORMAT_BGRA: PP_VideoFrame_Format = 3;

pub type PP_VideoProfile = u32;
pub const PP_VIDEOPROFILE_H264BASELINE: PP_VideoProfile = 0;
pub const PP_VIDEOPROFILE_H264MAIN: PP_VideoProfile = 1;
pub const PP_VIDEOPROFILE_H264EXTENDED: PP_VideoProfile = 2;
pub const PP_VIDEOPROFILE_H264HIGH: PP_VideoProfile = 3;
pub const PP_VIDEOPROFILE_H264HIGH10PROFILE: PP_VideoProfile = 4;
pub const PP_VIDEOPROFILE_H264HIGH422PROFILE: PP_VideoProfile = 5;
pub const PP_VIDEOPROFILE_H264HIGH444PREDICTIVEPROFILE: PP_VideoProfile = 6;
pub const PP_VIDEOPROFILE_H264SCALABLEBASELINE: PP_VideoProfile = 7;
pub const PP_VIDEOPROFILE_H264SCALABLEHIGH: PP_VideoProfile = 8;
pub const PP_VIDEOPROFILE_H264STEREOHIGH: PP_VideoProfile = 9;
pub const PP_VIDEOPROFILE_H264MULTIVIEWHIGH: PP_VideoProfile = 10;
pub const PP_VIDEOPROFILE_VP8_ANY: PP_VideoProfile = 11;
pub const PP_VIDEOPROFILE_VP9_ANY: PP_VideoProfile = 12;

pub type PP_HardwareAcceleration = u32;
pub const PP_HARDWAREACCELERATION_ONLY: PP_HardwareAcceleration = 0;
pub const PP_HARDWAREACCELERATION_WITHFALLBACK: PP_HardwareAcceleration = 1;
pub const PP_HARDWAREACCELERATION_NONE: PP_HardwareAcceleration = 2;

pub type PP_MediaStreamVideoTrack_Attrib = i32;
pub const PP_MEDIASTREAMVIDEOTRACK_ATTRIB_NONE: PP_MediaStreamVideoTrack_Attrib = 0;
pub const PP_MEDIASTREAMVIDEOTRACK_ATTRIB_BUFFERED_FRAMES: PP_MediaStreamVideoTrack_Attrib = 1;
pub const PP_MEDIASTREAMVIDEOTRACK_ATTRIB_WIDTH: PP_MediaStreamVideoTrack_Attrib = 2;
pub const PP_MEDIASTREAMVIDEOTRACK_ATTRIB_HEIGHT: PP_MediaStreamVideoTrack_Attrib = 3;
pub const PP_MEDIASTREAMVIDEOTRACK_ATTRIB_FORMAT: PP_MediaStreamVideoTrack_Attrib = 4;

/// An integer point.
#[derive(Clone, Copy, PartialEq, Eq, Structural, Debug)]
pub struct PP_Point {
    pub x: i32,
    pub y: i32,
}

/// An integer size as the C API carries it.
#[derive(Clone, Copy, PartialEq, Eq, Structural, Debug)]
pub struct PP_Size {
    pub width: i32,
    pub height: i32,
}

/// A rectangle: its top left point and its size.
#[derive(Clone, Copy, PartialEq, Eq, Structural, Debug)]
pub struct PP_Rect {
    pub point: PP_Point,
    pub size: PP_Size,
}

/// The browser's tagged value.
#[derive(Clone, Copy, PartialEq, Eq, Structural, Debug)]
pub struct PP_Var {
    pub _type: PP_VarType,
    pub padding: i32,
    pub value: i64,
}

/// An image's pixel format, size and row stride as the browser describes it.
#[derive(Clone, Copy, PartialEq, Eq, Structural, Debug)]
pub struct PP_ImageDataDesc {
    pub format: PP_ImageDataFormat,
    pub size: PP_Size,
    pub stride: i32,
}

/// A decoded picture as the video decoder hands it out: the tag of the
/// decode it came from, its texture, the texture's target and size, and the
/// part of it that is visible.
#[derive(Clone, Copy, PartialEq, Eq, Structural, Debug)]
pub struct PP_VideoPicture {
    pub decode_id: u32,
    pub texture_id: u32,
    pub texture_target: u32,
    pub texture_size: PP_Size,
    pub visible_rect: PP_Rect,
}

/// A font as the font interface describes it.
#[derive(Clone, Copy, PartialEq, Eq, Structural, Debug)]
pub struct PP_FontDescription_Dev {
    pub face: PP_Var,
    pub family: PP_FontFamily_Dev,
    pub size: u32,
    pub weight: PP_FontWeight_Dev,
    pub italic: PP_Bool,
    pub small_caps: PP_Bool,
    pub letter_spacing: i32,
    pub word_spacing: i32,
}

/// The measures of a font.
#[derive(Clone, Copy, PartialEq, Eq, Structural, Debug)]
pub struct PP_FontMetrics_Dev {
    pub height: i32,
    pub ascent: i32,
    pub descent: i32,
    pub line_spacing: i32,
    pub x_height: i32,
}

/// A run of text to measure or draw, and its direction.
#[derive(Clone, Copy, PartialEq, Eq, Structural, Debug)]
pub struct PP_TextRun_Dev {
    pub text: PP_Var,
    pub rtl: PP_Bool,
    pub override_direction: PP_Bool,
}

pub open spec fn var_of(ty: PP_VarType, value: i64) -> PP_Var {
    PP_Var { _type: ty, padding: 0, value }
}

/// The undefined var.
pub fn make_undefined_var() -> (v: PP_Var)
    ensures v == var_of(PP_VARTYPE_UNDEFINED, 0),
{
    PP_Var { _type: PP_VARTYPE_UNDEFINED, padding: 0, value: 0 }
}

/// The null var.
pub fn make_null_var() -> (v: PP_Var)
    ensures v == var_of(PP_VARTYPE_NULL, 0),
{
    PP_Var { _type: PP_VARTYPE_NULL, padding: 0, value: 0 }
}

/// A boolean var; any nonzero `b` is true.
pub fn bool_to_var(b: u8) -> (v: PP_Var)
    ensures v == var_of(PP_VARTYPE_BOOL, if b != 0 { 1 } else { 0 }),
{
    PP_Var { _type: PP_VARTYPE_BOOL, padding: 0, value: if b != 0 { 1 } else { 0 } }
}

/// An integer var.
pub fn i32_to_var(i: i32) -> (v: PP_Var)
    ensures v == var_of(PP_VARTYPE_INT32, i as i64),
{
    PP_Var { _type: PP_VARTYPE_INT32, padding: 0, value: i as i64 }
}

/// A double var, given by the bits of the double.
pub fn f64_bits_to_var(bits: i64) -> (v: PP_Var)
    ensures v == var_of(PP_VARTYPE_DOUBLE, bits),
{
    PP_Var { _type: PP_VARTYPE_DOUBLE, padding: 0, value: bits }
}

pub fn string_id_to_var(id: i64) -> (v: PP_Var)
    ensures v == var_of(PP_VARTYPE_STRING, id),
{
    PP_Var { _type: PP_VARTYPE_STRING, padding: 0, value: id }
}

pub fn object_id_to_var(id: i64) -> (v: PP_Var)
    ensures v == var_of(PP_VARTYPE_OBJECT, id),
{
    PP_Var { _type: PP_VARTYPE_OBJECT, padding: 0, value: id }
}

pub fn array_id_to_var(id: i64) -> (v: PP_Var)
    ensures v == var_of(PP_VARTYPE_ARRAY, id),
{
    PP_Var { _type: PP_VARTYPE_ARRAY, padding: 0, value: id }
}

pub fn dictionary_id_to_var(id: i64) -> (v: PP_Var)
    ensures v == var_of(PP_VARTYPE_DICTIONARY, id),
{
    PP_Var { _type: PP_VARTYPE_DICTIONARY, padding: 0, value: id }
}

pub fn array_buffer_id_to_var(id: i64) -> (v: PP_Var)
    ensures v == var_of(PP_VARTYPE_ARRAY_BUFFER, id),
{
    PP_Var { _type: PP_VARTYPE_ARRAY_BUFFER, padding: 0, value: id }
}

/// The boolean payload of a var: nonzero is true.
pub fn bool_from_var(v: PP_Var) -> (b: bool)
    ensures b == (v.value != 0),
{
    v.value != 0
}

/// The integer payload of a var: the low 32 bits, as the C union reads them.
pub fn i32_from_var(v: PP_Var) -> (i: i32)
    ensures i == v.value as i32,
{
    v.value as i32
}

/// The id of a reference-counted var.
pub fn id_from_var(v: PP_Var) -> (id: i64)
    ensures id == v.value,
{
    v.value
}

/// The browser's boolean for a boolean.
pub open spec fn ffi_bool(b: bool) -> PP_Bool {
    if b { PP_TRUE } else { PP_FALSE }
}

/// Conversion to the browser's boolean.
pub trait ToFFIBool {
    fn to_ffi_bool(&self) -> PP_Bool;
}

impl ToFFIBool for bool {
    fn to_ffi_bool(&self) -> (b: PP_Bool)
        ensures b == ffi_bool(*self),
    {
        if *self { PP_TRUE } else { PP_FALSE }
    }
}

} // verus!
