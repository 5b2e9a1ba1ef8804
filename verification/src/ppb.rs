//! The browser's interface tables: which the library asks for, the table of
//! those the browser gave, and how the answers of their functions are read.
//!
//! Functions here that answer for a browser call take the browser's reply as
//! an argument; their documentation names the call.

use vstd::prelude::*;
use crate::ffi;
use crate::ffi::{PP_Bool, PP_Graphics3DAttrib, PP_Resource, PP_Var};
use crate::code::{Code, code_is_ok, code_of, is_known_code};
use vstd::string::StringSliceAdditionalSpecFns;

verus! {

/// The browser interfaces the library uses.
#[derive(Clone, Copy, PartialEq, Eq, Structural, Debug, Hash)]
pub enum InterfaceId {
    Var,
    Console,
    Core,
    VarArray,
    VarArrayBuffer,
    VarDictionary,
    Graphics3D,
    Messaging,
    MessageLoop,
    Instance,
    Input,
    Keyboard,
    Mouse,
    Wheel,
    Touch,
    Ime,
    Gles2,
    FontDev,
    ImageData,
    UrlLoader,
    UrlRequest,
    UrlResponse,
    View,
    FileSystem,
    FileRef,
    FileIo,
    MediaStreamVideoTrack,
    VideoFrame,
    VideoDecoder,
}

/// How many interfaces the library uses.
pub const INTERFACE_COUNT: usize = 29;

/// The position of each interface in the table.
pub open spec fn interface_index(id: InterfaceId) -> int {
    match id {
        InterfaceId::Var => 0,
        InterfaceId::Console => 1,
        InterfaceId::Core => 2,
        InterfaceId::VarArray => 3,
        InterfaceId::VarArrayBuffer => 4,
        InterfaceId::VarDictionary => 5,
        InterfaceId::Graphics3D => 6,
        InterfaceId::Messaging => 7,
        InterfaceId::MessageLoop => 8,
        InterfaceId::Instance => 9,
        InterfaceId::Input => 10,
        InterfaceId::Keyboard => 11,
        InterfaceId::Mouse => 12,
        InterfaceId::Wheel => 13,
        InterfaceId::Touch => 14,
        InterfaceId::Ime => 15,
        InterfaceId::Gles2 => 16,
        InterfaceId::FontDev => 17,
        InterfaceId::ImageData => 18,
        InterfaceId::UrlLoader => 19,
        InterfaceId::UrlRequest => 20,
        InterfaceId::UrlResponse => 21,
        InterfaceId::View => 22,
        InterfaceId::FileSystem => 23,
        InterfaceId::FileRef => 24,
        InterfaceId::FileIo => 25,
        InterfaceId::MediaStreamVideoTrack => 26,
        InterfaceId::VideoFrame => 27,
        InterfaceId::VideoDecoder => 28,
    }
}

/// The name, with its version and a closing NUL, that the browser knows an
/// interface by.
pub open spec fn interface_name(id: InterfaceId) -> Seq<char> {
    match id {
        InterfaceId::Var => "PPB_Var;1.1\0"@,
        InterfaceId::Console => "PPB_Console;1.0\0"@,
        InterfaceId::Core => "PPB_Core;1.0\0"@,
        InterfaceId::VarArray => "PPB_VarArray;1.0\0"@,
        InterfaceId::VarArrayBuffer => "PPB_VarArrayBuffer;1.0\0"@,
        InterfaceId::VarDictionary => "PPB_VarDictionary;1.0\0"@,
        InterfaceId::Graphics3D => "PPB_Graphics3D;1.0\0"@,
        InterfaceId::Messaging => "PPB_Messaging;1.2\0"@,
        InterfaceId::MessageLoop => "PPB_MessageLoop;1.0\0"@,
        InterfaceId::Instance => "PPB_Instance;1.0\0"@,
        InterfaceId::Input => "PPB_InputEvent;1.0\0"@,
        InterfaceId::Keyboard => "PPB_KeyboardInputEvent;1.2\0"@,
        InterfaceId::Mouse => "PPB_MouseInputEvent;1.1\0"@,
        InterfaceId::Wheel => "PPB_WheelInputEvent;1.0\0"@,
        InterfaceId::Touch => "PPB_TouchInputEvent;1.0\0"@,
        InterfaceId::Ime => "PPB_IMEInputEvent;1.0\0"@,
        InterfaceId::Gles2 => "PPB_OpenGLES2;1.0\0"@,
        InterfaceId::FontDev => "PPB_Font(Dev);0.6\0"@,
        InterfaceId::ImageData => "PPB_ImageData;1.0\0"@,
        InterfaceId::UrlLoader => "PPB_URLLoader;1.0\0"@,
        InterfaceId::UrlRequest => "PPB_URLRequestInfo;1.0\0"@,
        InterfaceId::UrlResponse => "PPB_URLResponseInfo;1.0\0"@,
        InterfaceId::View => "PPB_View;1.2\0"@,
        InterfaceId::FileSystem => "PPB_FileSystem;1.0\0"@,
        InterfaceId::FileRef => "PPB_FileRef;1.2\0"@,
        InterfaceId::FileIo => "PPB_FileIo;1.1\0"@,
        InterfaceId::MediaStreamVideoTrack => "PPB_MediaStreamVideoTrack;0.1\0"@,
        InterfaceId::VideoFrame => "PPB_VideoFrame;0.1\0"@,
        InterfaceId::VideoDecoder => "PPB_VideoDecoder;1.0\0"@,
    }
}

impl InterfaceId {
    pub fn index(&self) -> (i: usize)
        ensures i == interface_index(*self), i < INTERFACE_COUNT,
    {
        match self {
            InterfaceId::Var => 0,
            InterfaceId::Console => 1,
            InterfaceId::Core => 2,
            InterfaceId::VarArray => 3,
            InterfaceId::VarArrayBuffer => 4,
            InterfaceId::VarDictionary => 5,
            InterfaceId::Graphics3D => 6,
            InterfaceId::Messaging => 7,
            InterfaceId::MessageLoop => 8,
            InterfaceId::Instance => 9,
            InterfaceId::Input => 10,
            InterfaceId::Keyboard => 11,
            InterfaceId::Mouse => 12,
            InterfaceId::Wheel => 13,
            InterfaceId::Touch => 14,
            InterfaceId::Ime => 15,
            InterfaceId::Gles2 => 16,
            InterfaceId::FontDev => 17,
            InterfaceId::ImageData => 18,
            InterfaceId::UrlLoader => 19,
            InterfaceId::UrlRequest => 20,
            InterfaceId::UrlResponse => 21,
            InterfaceId::View => 22,
            InterfaceId::FileSystem => 23,
            InterfaceId::FileRef => 24,
            InterfaceId::FileIo => 25,
            InterfaceId::MediaStreamVideoTrack => 26,
            InterfaceId::VideoFrame => 27,
            InterfaceId::VideoDecoder => 28,
        }
    }

    /// The name, with its version and a closing NUL, that the browser knows
    /// the interface by.
    pub fn name(&self) -> (n: &'static str)
        ensures n@ == interface_name(*self),
    {
        match self {
            InterfaceId::Var => "PPB_Var;1.1\0",
            InterfaceId::Console => "PPB_Console;1.0\0",
            InterfaceId::Core => "PPB_Core;1.0\0",
            InterfaceId::VarArray => "PPB_VarArray;1.0\0",
            InterfaceId::VarArrayBuffer => "PPB_VarArrayBuffer;1.0\0",
            InterfaceId::VarDictionary => "PPB_VarDictionary;1.0\0",
            InterfaceId::Graphics3D => "PPB_Graphics3D;1.0\0",
            InterfaceId::Messaging => "PPB_Messaging;1.2\0",
            InterfaceId::MessageLoop => "PPB_MessageLoop;1.0\0",
            InterfaceId::Instance => "PPB_Instance;1.0\0",
            InterfaceId::Input => "PPB_InputEvent;1.0\0",
            InterfaceId::Keyboard => "PPB_KeyboardInputEvent;1.2\0",
            InterfaceId::Mouse => "PPB_MouseInputEvent;1.1\0",
            InterfaceId::Wheel => "PPB_WheelInputEvent;1.0\0",
            InterfaceId::Touch => "PPB_TouchInputEvent;1.0\0",
            InterfaceId::Ime => "PPB_IMEInputEvent;1.0\0",
            InterfaceId::Gles2 => "PPB_OpenGLES2;1.0\0",
            InterfaceId::FontDev => "PPB_Font(Dev);0.6\0",
            InterfaceId::ImageData => "PPB_ImageData;1.0\0",
            InterfaceId::UrlLoader => "PPB_URLLoader;1.0\0",
            InterfaceId::UrlRequest => "PPB_URLRequestInfo;1.0\0",
            InterfaceId::UrlResponse => "PPB_URLResponseInfo;1.0\0",
            InterfaceId::View => "PPB_View;1.2\0",
            InterfaceId::FileSystem => "PPB_FileSystem;1.0\0",
            InterfaceId::FileRef => "PPB_FileRef;1.2\0",
            InterfaceId::FileIo => "PPB_FileIo;1.1\0",
            InterfaceId::MediaStreamVideoTrack => "PPB_MediaStreamVideoTrack;0.1\0",
            InterfaceId::VideoFrame => "PPB_VideoFrame;0.1\0",
            InterfaceId::VideoDecoder => "PPB_VideoDecoder;1.0\0",
        }
    }
}

/// Distinct interfaces have distinct places in the table.
pub proof fn lemma_interface_index_distinct(a: InterfaceId, b: InterfaceId)
    requires a != b,
    ensures interface_index(a) != interface_index(b),
{
}

/// The interfaces to ask the browser for, in table order.
pub fn interface_ids() -> (ids: Vec<InterfaceId>)
    ensures
        ids@.len() == INTERFACE_COUNT,
        forall|i: int| 0 <= i < ids@.len() ==> interface_index(#[trigger] ids@[i]) == i,
{
    let ids = vec![
        InterfaceId::Var, InterfaceId::Console, InterfaceId::Core, InterfaceId::VarArray,
        InterfaceId::VarArrayBuffer, InterfaceId::VarDictionary, InterfaceId::Graphics3D,
        InterfaceId::Messaging, InterfaceId::MessageLoop, InterfaceId::Instance, InterfaceId::Input,
        InterfaceId::Keyboard, InterfaceId::Mouse, InterfaceId::Wheel, InterfaceId::Touch,
        InterfaceId::Ime, InterfaceId::Gles2, InterfaceId::FontDev, InterfaceId::ImageData,
        InterfaceId::UrlLoader, InterfaceId::UrlRequest, InterfaceId::UrlResponse, InterfaceId::View,
        InterfaceId::FileSystem, InterfaceId::FileRef, InterfaceId::FileIo,
        InterfaceId::MediaStreamVideoTrack, InterfaceId::VideoFrame, InterfaceId::VideoDecoder,
    ];
    ids
}

/// The interface tables the browser gave, by address; zero for one it
/// does not have.
pub struct Interfaces {
    pub table: Vec<u64>,
}

impl Interfaces {
    pub open spec fn wf(&self) -> bool {
        self.table@.len() == INTERFACE_COUNT
    }

    /// Whether the browser gave an interface.
    pub open spec fn has(&self, id: InterfaceId) -> bool {
        self.table@[interface_index(id)] != 0
    }

    /// The table of interfaces: `found` holds, in the order of
    /// `interface_ids`, what the browser's `GetInterface(name)` returned for
    /// each, zero for none.
    pub fn initialize_globals(found: Vec<u64>) -> (r: Interfaces)
        requires found@.len() == INTERFACE_COUNT,
        ensures r.wf(), r.table@ == found@,
    {
        Interfaces { table: found }
    }

    /// An interface the library cannot do without.
    pub fn get(&self, id: InterfaceId) -> (a: u64)
        requires self.wf(), self.has(id),
        ensures a == self.table@[interface_index(id)], a != 0,
    {
        self.table[id.index()]
    }

    /// An interface, if the browser gave it.
    pub fn get_opt(&self, id: InterfaceId) -> (a: Option<u64>)
        requires self.wf(),
        ensures
            self.has(id) ==> a == Some(self.table@[interface_index(id)]),
            !self.has(id) ==> a is None,
    {
        let v = self.table[id.index()];
        if v == 0 { None } else { Some(v) }
    }
}

/// A handle the browser returned, if it is not the null handle.
pub open spec fn created(res: PP_Resource) -> Option<PP_Resource> {
    if res == 0 { None } else { Some(res) }
}

fn created_handle(res: PP_Resource) -> (r: Option<PP_Resource>)
    ensures r == created(res),
{
    if res == 0 { None } else { Some(res) }
}

/// The Graphics3D interface.
pub struct Struct_PPB_Graphics3D_1_0;

/// The values a filled-in attribute list holds: the entries at odd
/// positions, read as unsigned.
pub open spec fn odd_entries(filled: Seq<i32>) -> Seq<u32> {
    Seq::new(filled.len() / 2, |i: int| filled[2 * i + 1] as u32)
}

/// The list that asks for attributes: each attribute followed by a place
/// for its value, then `NONE`.
pub open spec fn attrib_query(attribs: Seq<PP_Graphics3DAttrib>) -> Seq<i32> {
    Seq::new(2 * attribs.len(), |i: int| if i % 2 == 0 { attribs[i / 2] } else { 0i32 })
        .push(ffi::PP_GRAPHICS3DATTRIB_NONE)
}

impl Struct_PPB_Graphics3D_1_0 {
    /// The greatest value an attribute can take: `reply` and `value` are
    /// the code of `GetAttribMaxValue(instance, attribute, &value)` and what
    /// it filled in.
    pub fn attrib_max_value(&self, reply: i32, value: i32) -> (r: Result<i32, Code>)
        requires is_known_code(reply),
        ensures
            code_is_ok(code_of(reply)) ==> r == Ok::<i32, Code>(value),
            !code_is_ok(code_of(reply)) ==> r == Err::<i32, Code>(code_of(reply)),
    {
        let c = Code::from_i32(reply);
        if c.is_ok() { Ok(value) } else { Err(c) }
    }

    /// The list that `GetAttribs(context, list)` is given, to fill in.
    pub fn attrib_query(&self, attribs: &[PP_Graphics3DAttrib]) -> (l: Vec<i32>)
        requires 2 * attribs@.len() + 1 <= usize::MAX,
        ensures l@ == attrib_query(attribs@),
    {
        let mut l: Vec<i32> = Vec::new();
        let mut i: usize = 0;
        while i < attribs.len()
            invariant
                i <= attribs@.len(),
                2 * attribs@.len() + 1 <= usize::MAX,
                l@.len() == 2 * i,
                forall|k: int| 0 <= k < 2 * i ==> l@[k] == (if k % 2 == 0 { attribs@[k / 2] } else { 0i32 }),
            decreases attribs@.len() - i,
        {
            l.push(attribs[i]);
            l.push(0);
            proof {
                assert forall|k: int| 0 <= k < 2 * (i + 1) implies l@[k] == (if k % 2 == 0 { attribs@[k / 2] } else { 0i32 }) by {
                    if k == 2 * i {
                        assert(k / 2 == i);
                    } else if k == 2 * i + 1 {
                        assert(k % 2 == 1);
                    }
                }
            }
            i = i + 1;
        }
        l.push(ffi::PP_GRAPHICS3DATTRIB_NONE);
        proof {
            assert(l@ =~= attrib_query(attribs@));
        }
        l
    }

    /// The attributes' values: `filled` is the list as `GetAttribs(context,
    /// list)` filled it in and `reply` the code it returned.
    pub fn attribs(&self, filled: &[i32], reply: i32) -> (r: Result<Vec<u32>, Code>)
        requires is_known_code(reply),
        ensures
            code_is_ok(code_of(reply)) ==> (r matches Ok(v) && v@ == odd_entries(filled@)),
            !code_is_ok(code_of(reply)) ==> (r matches Err(c) && c == code_of(reply)),
    {
        let c = Code::from_i32(reply);
        if !c.is_ok() {
            return Err(c);
        }
        let mut v: Vec<u32> = Vec::new();
        let mut i: usize = 0;
        let n = filled.len();
        let half = n / 2;
        while i < half
            invariant
                n == filled@.len(),
                half == filled@.len() / 2,
                i <= half,
                v@.len() == i,
                forall|k: int| 0 <= k < i ==> v@[k] == filled@[2 * k + 1] as u32,
            decreases half - i,
        {
            proof {
                assert(2 * i + 1 < filled@.len()) by (nonlinear_arith)
                    requires i < half, half == filled@.len() / 2;
            }
            let at = i + i + 1;
            v.push(#[verifier::truncate] (filled[at] as u32));
            i = i + 1;
        }
        proof {
            assert(v@ =~= odd_entries(filled@));
        }
        Ok(v)
    }

    /// The list that `SetAttribs(context, list)` is given: the attributes,
    /// then `NONE`.
    pub fn set_attribs(&self, attribs: Vec<PP_Graphics3DAttrib>) -> (l: Vec<PP_Graphics3DAttrib>)
        ensures l@ == attribs@.push(ffi::PP_GRAPHICS3DATTRIB_NONE),
    {
        let mut attribs = attribs;
        attribs.push(ffi::PP_GRAPHICS3DATTRIB_NONE);
        attribs
    }

    /// The context's state: `reply` is the code of `GetError(context)`.
    pub fn status(&self, reply: i32) -> (c: Code)
        requires is_known_code(reply),
        ensures c == code_of(reply),
    {
        Code::from_i32(reply)
    }

    /// `reply` is the answer of `IsGraphics3D(res)`.
    pub fn is(&self, reply: PP_Bool) -> (b: bool)
        ensures b == (reply != 0),
    {
        reply != 0
    }

    /// `reply` is the code of `ResizeBuffers(context, width, height)`.
    pub fn resize_buffers(&self, reply: i32) -> (c: Code)
        requires is_known_code(reply),
        ensures c == code_of(reply),
    {
        Code::from_i32(reply)
    }

    /// `reply` is the code of `SwapBuffers(context, callback)`.
    pub fn swap_buffers(&self, reply: i32) -> (c: Code)
        requires is_known_code(reply),
        ensures c == code_of(reply),
    {
        Code::from_i32(reply)
    }
}

/// The ImageData interface.
pub struct Struct_PPB_ImageData_1_0;

impl Struct_PPB_ImageData_1_0 {
    /// `reply` is the answer of `IsImageDataFormatSupported(format)`.
    pub fn is_image_data_format_supported(&self, reply: PP_Bool) -> (b: bool)
        ensures b == (reply != 0),
    {
        reply != 0
    }

    /// `reply` is the handle `Create(instance, format, &size, init)`
    /// returned.
    pub fn create(&self, reply: PP_Resource) -> (r: Option<PP_Resource>)
        ensures r == created(reply),
    {
        created_handle(reply)
    }
}

/// The URLLoader interface.
pub struct Struct_PPB_URLLoader_1_0;

impl Struct_PPB_URLLoader_1_0 {
    /// `reply` is the handle `Create(instance)` returned.
    pub fn create(&self, reply: PP_Resource) -> (r: Option<PP_Resource>)
        ensures r == created(reply),
    {
        created_handle(reply)
    }

    /// `reply` is the answer of `IsURLLoader(res)`.
    pub fn is(&self, reply: PP_Bool) -> (b: bool)
        ensures b == (reply != 0),
    {
        reply != 0
    }

    /// `reply` is the code of `Open(loader, request, callback)`: `Ok` on
    /// success (possibly still pending), the code otherwise.
    pub fn open(&self, reply: i32) -> (r: Result<(), Code>)
        requires is_known_code(reply),
        ensures
            code_is_ok(code_of(reply)) ==> r == Ok::<(), Code>(()),
            !code_is_ok(code_of(reply)) ==> r == Err::<(), Code>(code_of(reply)),
    {
        Code::from_i32(reply).to_empty_result()
    }
}

/// The URLRequestInfo interface.
pub struct Struct_PPB_URLRequestInfo_1_0;

/// The arguments `AppendFileToBody` is given for an optional start, length
/// and change time (by its bits): from the file's start, to its end, with
/// no time.
pub open spec fn file_body_args(start: Option<i64>, bytes: Option<i64>, last_modified: Option<u64>) -> (i64, i64, u64) {
    (match start { Some(s) => s, None => 0i64 },
     match bytes { Some(b) => b, None => -1i64 },
     match last_modified { Some(t) => t, None => 0u64 })
}

impl Struct_PPB_URLRequestInfo_1_0 {
    /// `reply` is the handle `Create(instance)` returned.
    pub fn create(&self, reply: PP_Resource) -> (r: Option<PP_Resource>)
        ensures r == created(reply),
    {
        created_handle(reply)
    }

    /// `reply` is the answer of `IsURLRequestInfo(res)`.
    pub fn is(&self, reply: PP_Bool) -> (b: bool)
        ensures b == (reply != 0),
    {
        reply != 0
    }

    /// `reply` is the answer of `SetProperty(request, property, value)`.
    pub fn property(&self, reply: PP_Bool) -> (b: bool)
        ensures b == (reply != 0),
    {
        reply != 0
    }

    /// The start, length and change time (by its bits) that
    /// `AppendFileToBody(request, file, start, length, time)` is given.
    pub fn append_file_to_body(&self, start: Option<i64>, bytes: Option<i64>, last_modified: Option<u64>)
        -> (args: (i64, i64, u64))
        ensures args == file_body_args(start, bytes, last_modified),
    {
        let s = match start { Some(s) => s, None => 0 };
        let b = match bytes { Some(b) => b, None => -1 };
        let t = match last_modified { Some(t) => t, None => 0 };
        (s, b, t)
    }

    /// The length `AppendDataToBody(request, data, length)` is given.
    pub fn append_blob_to_body(&self, data: &Vec<u8>) -> (len: u32)
        requires data@.len() <= u32::MAX,
        ensures len == data@.len(),
    {
        data.len() as u32
    }
}

/// The URLResponseInfo interface.
pub struct Struct_PPB_URLResponseInfo_1_0;

impl Struct_PPB_URLResponseInfo_1_0 {
    /// `reply` is the answer of `IsURLResponseInfo(res)`.
    pub fn is(&self, reply: PP_Bool) -> (b: bool)
        ensures b == (reply != 0),
    {
        reply != 0
    }
}

/// The InputEvent interface.
pub struct Struct_PPB_InputEvent_1_0;

impl Struct_PPB_InputEvent_1_0 {
    /// `reply` is the code of `RequestInputEvents(instance, classes)`.
    pub fn request(&self, reply: i32) -> (c: Code)
        requires is_known_code(reply),
        ensures c == code_of(reply),
    {
        Code::from_i32(reply)
    }

    /// `reply` is the code of `RequestFilteringInputEvents(instance,
    /// classes)`.
    pub fn request_filtering(&self, reply: i32) -> (c: Code)
        requires is_known_code(reply),
        ensures c == code_of(reply),
    {
        Code::from_i32(reply)
    }

    /// `reply` is the answer of `IsInputEvent(res)`.
    pub fn is(&self, reply: PP_Bool) -> (b: bool)
        ensures b == (reply != 0),
    {
        reply != 0
    }
}

/// The MouseInputEvent interface.
pub struct Struct_PPB_MouseInputEvent_1_1;

impl Struct_PPB_MouseInputEvent_1_1 {
    /// `reply` is the answer of `IsMouseInputEvent(res)`.
    pub fn is(&self, reply: PP_Bool) -> (b: bool)
        ensures b == (reply != 0),
    {
        reply != 0
    }
}

/// The KeyboardInputEvent interface.
pub struct Struct_PPB_KeyboardInputEvent_1_2;

impl Struct_PPB_KeyboardInputEvent_1_2 {
    /// `reply` is the answer of `IsKeyboardInputEvent(res)`.
    pub fn is(&self, reply: PP_Bool) -> (b: bool)
        ensures b == (reply != 0),
    {
        reply != 0
    }
}

/// The TouchInputEvent interface.
pub struct Struct_PPB_TouchInputEvent_1_0;

impl Struct_PPB_TouchInputEvent_1_0 {
    /// `reply` is the answer of `IsTouchInputEvent(res)`.
    pub fn is(&self, reply: PP_Bool) -> (b: bool)
        ensures b == (reply != 0),
    {
        reply != 0
    }
}

/// The WheelInputEvent interface.
pub struct Struct_PPB_WheelInputEvent_1_0;

impl Struct_PPB_WheelInputEvent_1_0 {
    /// `reply` is the answer of `IsWheelInputEvent(res)`.
    pub fn is(&self, reply: PP_Bool) -> (b: bool)
        ensures b == (reply != 0),
    {
        reply != 0
    }

    /// `reply` is the answer of `GetScrollByPage(res)`.
    pub fn scroll_by_page(&self, reply: PP_Bool) -> (b: bool)
        ensures b == (reply != 0),
    {
        reply != 0
    }
}

/// The View interface.
pub struct Struct_PPB_View_1_1;

impl Struct_PPB_View_1_1 {
    /// `reply` is the answer of `IsView(res)`.
    pub fn is(&self, reply: PP_Bool) -> (b: bool)
        ensures b == (reply != 0),
    {
        reply != 0
    }

    /// `reply` is the answer of `IsFullscreen(res)`.
    pub fn is_fullscreen(&self, reply: PP_Bool) -> (b: bool)
        ensures b == (reply != 0),
    {
        reply != 0
    }

    /// `reply` is the answer of `IsVisible(res)`.
    pub fn is_visible(&self, reply: PP_Bool) -> (b: bool)
        ensures b == (reply != 0),
    {
        reply != 0
    }

    /// `reply` is the answer of `IsPageVisible(res)`.
    pub fn is_page_visible(&self, reply: PP_Bool) -> (b: bool)
        ensures b == (reply != 0),
    {
        reply != 0
    }
}

/// The Var interface.
pub struct Struct_PPB_Var_1_1;

impl Struct_PPB_Var_1_1 {
    /// The length `VarFromUtf8(text, length)` is given: the text's length
    /// in bytes.
    pub fn var_from_utf8(&self, text: &str) -> (len: u32)
        requires text.spec_bytes().len() <= u32::MAX,
        ensures len == text.spec_bytes().len(),
    {
        text.len() as u32
    }
}

/// The VarArrayBuffer interface.
pub struct Struct_PPB_VarArrayBuffer_1_0;

impl Struct_PPB_VarArrayBuffer_1_0 {
    /// The length `Create(length)` is given.
    pub fn create(&self, len: usize) -> (l: u32)
        requires len <= u32::MAX,
        ensures l == len,
    {
        len as u32
    }

    /// The length of a buffer: `found` and `len` are the answer of
    /// `ByteLength(var, &len)` and what it filled in.
    pub fn byte_len(&self, found: PP_Bool, len: u32) -> (r: Option<usize>)
        ensures r == if found != 0 { Some(len as usize) } else { None::<usize> },
    {
        if found != 0 { Some(len as usize) } else { None }
    }
}

/// Each interface is asked for under the browser name of its own version,
/// and no two interfaces share a name.
pub proof fn lemma_interface_names_by_id(id: InterfaceId)
    ensures
        interface_name(id) == "PPB_Var;1.1\0"@ <==> id == InterfaceId::Var,
        interface_name(id) == "PPB_Console;1.0\0"@ <==> id == InterfaceId::Console,
        interface_name(id) == "PPB_Core;1.0\0"@ <==> id == InterfaceId::Core,
        interface_name(id) == "PPB_VarArray;1.0\0"@ <==> id == InterfaceId::VarArray,
        interface_name(id) == "PPB_VarArrayBuffer;1.0\0"@ <==> id == InterfaceId::VarArrayBuffer,
        interface_name(id) == "PPB_VarDictionary;1.0\0"@ <==> id == InterfaceId::VarDictionary,
        interface_name(id) == "PPB_Graphics3D;1.0\0"@ <==> id == InterfaceId::Graphics3D,
        interface_name(id) == "PPB_Messaging;1.2\0"@ <==> id == InterfaceId::Messaging,
        interface_name(id) == "PPB_MessageLoop;1.0\0"@ <==> id == InterfaceId::MessageLoop,
        interface_name(id) == "PPB_Instance;1.0\0"@ <==> id == InterfaceId::Instance,
        interface_name(id) == "PPB_InputEvent;1.0\0"@ <==> id == InterfaceId::Input,
        interface_name(id) == "PPB_KeyboardInputEvent;1.2\0"@ <==> id == InterfaceId::Keyboard,
        interface_name(id) == "PPB_MouseInputEvent;1.1\0"@ <==> id == InterfaceId::Mouse,
        interface_name(id) == "PPB_WheelInputEvent;1.0\0"@ <==> id == InterfaceId::Wheel,
        interface_name(id) == "PPB_TouchInputEvent;1.0\0"@ <==> id == InterfaceId::Touch,
        interface_name(id) == "PPB_IMEInputEvent;1.0\0"@ <==> id == InterfaceId::Ime,
        interface_name(id) == "PPB_OpenGLES2;1.0\0"@ <==> id == InterfaceId::Gles2,
        interface_name(id) == "PPB_Font(Dev);0.6\0"@ <==> id == InterfaceId::FontDev,
        interface_name(id) == "PPB_ImageData;1.0\0"@ <==> id == InterfaceId::ImageData,
        interface_name(id) == "PPB_URLLoader;1.0\0"@ <==> id == InterfaceId::UrlLoader,
        interface_name(id) == "PPB_URLRequestInfo;1.0\0"@ <==> id == InterfaceId::UrlRequest,
        interface_name(id) == "PPB_URLResponseInfo;1.0\0"@ <==> id == InterfaceId::UrlResponse,
        interface_name(id) == "PPB_View;1.2\0"@ <==> id == InterfaceId::View,
        interface_name(id) == "PPB_FileSystem;1.0\0"@ <==> id == InterfaceId::FileSystem,
        interface_name(id) == "PPB_FileRef;1.2\0"@ <==> id == InterfaceId::FileRef,
        interface_name(id) == "PPB_FileIo;1.1\0"@ <==> id == InterfaceId::FileIo,
        interface_name(id) == "PPB_MediaStreamVideoTrack;0.1\0"@ <==> id == InterfaceId::MediaStreamVideoTrack,
        interface_name(id) == "PPB_VideoFrame;0.1\0"@ <==> id == InterfaceId::VideoFrame,
        interface_name(id) == "PPB_VideoDecoder;1.0\0"@ <==> id == InterfaceId::VideoDecoder,
{
    reveal_strlit("PPB_Var;1.1\0");
    reveal_strlit("PPB_Console;1.0\0");
    reveal_strlit("PPB_Core;1.0\0");
    reveal_strlit("PPB_VarArray;1.0\0");
    reveal_strlit("PPB_VarArrayBuffer;1.0\0");
    reveal_strlit("PPB_VarDictionary;1.0\0");
    reveal_strlit("PPB_Graphics3D;1.0\0");
    reveal_strlit("PPB_Messaging;1.2\0");
    reveal_strlit("PPB_MessageLoop;1.0\0");
    reveal_strlit("PPB_Instance;1.0\0");
    reveal_strlit("PPB_InputEvent;1.0\0");
    reveal_strlit("PPB_KeyboardInputEvent;1.2\0");
    reveal_strlit("PPB_MouseInputEvent;1.1\0");
    reveal_strlit("PPB_WheelInputEvent;1.0\0");
    reveal_strlit("PPB_TouchInputEvent;1.0\0");
    reveal_strlit("PPB_IMEInputEvent;1.0\0");
    reveal_strlit("PPB_OpenGLES2;1.0\0");
    reveal_strlit("PPB_Font(Dev);0.6\0");
    reveal_strlit("PPB_ImageData;1.0\0");
    reveal_strlit("PPB_URLLoader;1.0\0");
    reveal_strlit("PPB_URLRequestInfo;1.0\0");
    reveal_strlit("PPB_URLResponseInfo;1.0\0");
    reveal_strlit("PPB_View;1.2\0");
    reveal_strlit("PPB_FileSystem;1.0\0");
    reveal_strlit("PPB_FileRef;1.2\0");
    reveal_strlit("PPB_FileIo;1.1\0");
    reveal_strlit("PPB_MediaStreamVideoTrack;0.1\0");
    reveal_strlit("PPB_VideoFrame;0.1\0");
    reveal_strlit("PPB_VideoDecoder;1.0\0");
    assert("PPB_Var;1.1\0"@.len() == 12);
    assert("PPB_Console;1.0\0"@.len() == 16);
    assert("PPB_Core;1.0\0"@.len() == 13);
    assert("PPB_VarArray;1.0\0"@.len() == 17);
    assert("PPB_VarArrayBuffer;1.0\0"@.len() == 23);
    assert("PPB_VarDictionary;1.0\0"@.len() == 22);
    assert("PPB_Graphics3D;1.0\0"@.len() == 19);
    assert("PPB_Messaging;1.2\0"@.len() == 18);
    assert("PPB_MessageLoop;1.0\0"@.len() == 20);
    assert("PPB_Instance;1.0\0"@.len() == 17);
    assert("PPB_InputEvent;1.0\0"@.len() == 19);
    assert("PPB_KeyboardInputEvent;1.2\0"@.len() == 27);
    assert("PPB_MouseInputEvent;1.1\0"@.len() == 24);
    assert("PPB_WheelInputEvent;1.0\0"@.len() == 24);
    assert("PPB_TouchInputEvent;1.0\0"@.len() == 24);
    assert("PPB_IMEInputEvent;1.0\0"@.len() == 22);
    assert("PPB_OpenGLES2;1.0\0"@.len() == 18);
    assert("PPB_Font(Dev);0.6\0"@.len() == 18);
    assert("PPB_ImageData;1.0\0"@.len() == 18);
    assert("PPB_URLLoader;1.0\0"@.len() == 18);
    assert("PPB_URLRequestInfo;1.0\0"@.len() == 23);
    assert("PPB_URLResponseInfo;1.0\0"@.len() == 24);
    assert("PPB_View;1.2\0"@.len() == 13);
    assert("PPB_FileSystem;1.0\0"@.len() == 19);
    assert("PPB_FileRef;1.2\0"@.len() == 16);
    assert("PPB_FileIo;1.1\0"@.len() == 15);
    assert("PPB_MediaStreamVideoTrack;0.1\0"@.len() == 30);
    assert("PPB_VideoFrame;0.1\0"@.len() == 19);
    assert("PPB_VideoDecoder;1.0\0"@.len() == 21);
    match id {
        InterfaceId::Var => {
        },
        InterfaceId::Console => {
            assert("PPB_Console;1.0\0"@[4] != "PPB_FileRef;1.2\0"@[4]);
        },
        InterfaceId::Core => {
            assert("PPB_Core;1.0\0"@[4] != "PPB_View;1.2\0"@[4]);
        },
        InterfaceId::VarArray => {
            assert("PPB_VarArray;1.0\0"@[4] != "PPB_Instance;1.0\0"@[4]);
        },
        InterfaceId::VarArrayBuffer => {
            assert("PPB_VarArrayBuffer;1.0\0"@[4] != "PPB_URLRequestInfo;1.0\0"@[4]);
        },
        InterfaceId::VarDictionary => {
            assert("PPB_VarDictionary;1.0\0"@[4] != "PPB_IMEInputEvent;1.0\0"@[4]);
        },
        InterfaceId::Graphics3D => {
            assert("PPB_Graphics3D;1.0\0"@[4] != "PPB_InputEvent;1.0\0"@[4]);
            assert("PPB_Graphics3D;1.0\0"@[4] != "PPB_FileSystem;1.0\0"@[4]);
            assert("PPB_Graphics3D;1.0\0"@[4] != "PPB_VideoFrame;0.1\0"@[4]);
        },
        InterfaceId::Messaging => {
            assert("PPB_Messaging;1.2\0"@[4] != "PPB_OpenGLES2;1.0\0"@[4]);
            assert("PPB_Messaging;1.2\0"@[4] != "PPB_Font(Dev);0.6\0"@[4]);
            assert("PPB_Messaging;1.2\0"@[4] != "PPB_ImageData;1.0\0"@[4]);
            assert("PPB_Messaging;1.2\0"@[4] != "PPB_URLLoader;1.0\0"@[4]);
        },
        InterfaceId::MessageLoop => {
        },
        InterfaceId::Instance => {
            assert("PPB_Instance;1.0\0"@[4] != "PPB_VarArray;1.0\0"@[4]);
        },
        InterfaceId::Input => {
            assert("PPB_InputEvent;1.0\0"@[4] != "PPB_Graphics3D;1.0\0"@[4]);
            assert("PPB_InputEvent;1.0\0"@[4] != "PPB_FileSystem;1.0\0"@[4]);
            assert("PPB_InputEvent;1.0\0"@[4] != "PPB_VideoFrame;0.1\0"@[4]);
        },
        InterfaceId::Keyboard => {
        },
        InterfaceId::Mouse => {
            assert("PPB_MouseInputEvent;1.1\0"@[4] != "PPB_WheelInputEvent;1.0\0"@[4]);
            assert("PPB_MouseInputEvent;1.1\0"@[4] != "PPB_TouchInputEvent;1.0\0"@[4]);
            assert("PPB_MouseInputEvent;1.1\0"@[4] != "PPB_URLResponseInfo;1.0\0"@[4]);
        },
        InterfaceId::Wheel => {
            assert("PPB_WheelInputEvent;1.0\0"@[4] != "PPB_MouseInputEvent;1.1\0"@[4]);
            assert("PPB_WheelInputEvent;1.0\0"@[4] != "PPB_TouchInputEvent;1.0\0"@[4]);
            assert("PPB_WheelInputEvent;1.0\0"@[4] != "PPB_URLResponseInfo;1.0\0"@[4]);
        },
        InterfaceId::Touch => {
            assert("PPB_TouchInputEvent;1.0\0"@[4] != "PPB_MouseInputEvent;1.1\0"@[4]);
            assert("PPB_TouchInputEvent;1.0\0"@[4] != "PPB_WheelInputEvent;1.0\0"@[4]);
            assert("PPB_TouchInputEvent;1.0\0"@[4] != "PPB_URLResponseInfo;1.0\0"@[4]);
        },
        InterfaceId::Ime => {
            assert("PPB_IMEInputEvent;1.0\0"@[4] != "PPB_VarDictionary;1.0\0"@[4]);
        },
        InterfaceId::Gles2 => {
            assert("PPB_OpenGLES2;1.0\0"@[4] != "PPB_Messaging;1.2\0"@[4]);
            assert("PPB_OpenGLES2;1.0\0"@[4] != "PPB_Font(Dev);0.6\0"@[4]);
            assert("PPB_OpenGLES2;1.0\0"@[4] != "PPB_ImageData;1.0\0"@[4]);
            assert("PPB_OpenGLES2;1.0\0"@[4] != "PPB_URLLoader;1.0\0"@[4]);
        },
        InterfaceId::FontDev => {
            assert("PPB_Font(Dev);0.6\0"@[4] != "PPB_Messaging;1.2\0"@[4]);
            assert("PPB_Font(Dev);0.6\0"@[4] != "PPB_OpenGLES2;1.0\0"@[4]);
            assert("PPB_Font(Dev);0.6\0"@[4] != "PPB_ImageData;1.0\0"@[4]);
            assert("PPB_Font(Dev);0.6\0"@[4] != "PPB_URLLoader;1.0\0"@[4]);
        },
        InterfaceId::ImageData => {
            assert("PPB_ImageData;1.0\0"@[4] != "PPB_Messaging;1.2\0"@[4]);
            assert("PPB_ImageData;1.0\0"@[4] != "PPB_OpenGLES2;1.0\0"@[4]);
            assert("PPB_ImageData;1.0\0"@[4] != "PPB_Font(Dev);0.6\0"@[4]);
            assert("PPB_ImageData;1.0\0"@[4] != "PPB_URLLoader;1.0\0"@[4]);
        },
        InterfaceId::UrlLoader => {
            assert("PPB_URLLoader;1.0\0"@[4] != "PPB_Messaging;1.2\0"@[4]);
            assert("PPB_URLLoader;1.0\0"@[4] != "PPB_OpenGLES2;1.0\0"@[4]);
            assert("PPB_URLLoader;1.0\0"@[4] != "PPB_Font(Dev);0.6\0"@[4]);
            assert("PPB_URLLoader;1.0\0"@[4] != "PPB_ImageData;1.0\0"@[4]);
        },
        InterfaceId::UrlRequest => {
            assert("PPB_URLRequestInfo;1.0\0"@[4] != "PPB_VarArrayBuffer;1.0\0"@[4]);
        },
        InterfaceId::UrlResponse => {
            assert("PPB_URLResponseInfo;1.0\0"@[4] != "PPB_MouseInputEvent;1.1\0"@[4]);
            assert("PPB_URLResponseInfo;1.0\0"@[4] != "PPB_WheelInputEvent;1.0\0"@[4]);
            assert("PPB_URLResponseInfo;1.0\0"@[4] != "PPB_TouchInputEvent;1.0\0"@[4]);
        },
        InterfaceId::View => {
            assert("PPB_View;1.2\0"@[4] != "PPB_Core;1.0\0"@[4]);
        },
        InterfaceId::FileSystem => {
            assert("PPB_FileSystem;1.0\0"@[4] != "PPB_Graphics3D;1.0\0"@[4]);
            assert("PPB_FileSystem;1.0\0"@[4] != "PPB_InputEvent;1.0\0"@[4]);
            assert("PPB_FileSystem;1.0\0"@[4] != "PPB_VideoFrame;0.1\0"@[4]);
        },
        InterfaceId::FileRef => {
            assert("PPB_FileRef;1.2\0"@[4] != "PPB_Console;1.0\0"@[4]);
        },
        InterfaceId::FileIo => {
        },
        InterfaceId::MediaStreamVideoTrack => {
        },
        InterfaceId::VideoFrame => {
            assert("PPB_VideoFrame;0.1\0"@[4] != "PPB_Graphics3D;1.0\0"@[4]);
            assert("PPB_VideoFrame;0.1\0"@[4] != "PPB_InputEvent;1.0\0"@[4]);
            assert("PPB_VideoFrame;0.1\0"@[4] != "PPB_FileSystem;1.0\0"@[4]);
        },
        InterfaceId::VideoDecoder => {
        },
    }
}

} // verus!
