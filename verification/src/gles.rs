//! OpenGL ES 2.0 through the browser's 3D graphics context.
//!
//! Drawing is a sequence of GL calls on a context. The functions here decide
//! which calls to make, with which arguments, and return them as `GlCall`
//! values; the caller issues them through the browser's `PPB_OpenGLES2`
//! interface in order. Floating-point arguments are carried by their bits.

use vstd::prelude::*;
use crate::ffi;
use crate::ffi::{PP_Resource, PP_Rect};
use crate::resource::{Resource, ResourceType, ContextResource, ToOption, handle_option};
use crate::code::{Code, code_of, is_known_code};
use crate::instance::Instance;
use vstd::string::StringSliceAdditionalSpecFns;

verus! {

pub type Enum = u32;
pub type UInt = u32;
pub type Int = i32;

// GL constants that the library uses.
pub const POINTS: Enum = 0x0000;
pub const LINES: Enum = 0x0001;
pub const LINE_LOOP: Enum = 0x0002;
pub const LINE_STRIP: Enum = 0x0003;
pub const TRIANGLES: Enum = 0x0004;
pub const TRIANGLE_STRIP: Enum = 0x0005;
pub const TRIANGLE_FAN: Enum = 0x0006;
pub const BYTE: Enum = 0x1400;
pub const UNSIGNED_BYTE: Enum = 0x1401;
pub const SHORT: Enum = 0x1402;
pub const UNSIGNED_SHORT: Enum = 0x1403;
pub const FLOAT: Enum = 0x1406;
pub const TEXTURE_2D: Enum = 0x0DE1;
pub const ALPHA: Enum = 0x1906;
pub const RGB: Enum = 0x1907;
pub const RGBA: Enum = 0x1908;
pub const TRUE: u8 = 1;
pub const FALSE: u8 = 0;
pub const FRAGMENT_SHADER: Enum = 0x8B30;
pub const VERTEX_SHADER: Enum = 0x8B31;
pub const MAX_VERTEX_ATTRIBS: Enum = 0x8869;
pub const MAX_VERTEX_UNIFORM_VECTORS: Enum = 0x8DFB;
pub const MAX_VARYING_VECTORS: Enum = 0x8DFC;
pub const MAX_COMBINED_TEXTURE_IMAGE_UNITS: Enum = 0x8B4D;
pub const MAX_VERTEX_TEXTURE_IMAGE_UNITS: Enum = 0x8B4C;
pub const MAX_TEXTURE_IMAGE_UNITS: Enum = 0x8872;
pub const MAX_FRAGMENT_UNIFORM_VECTORS: Enum = 0x8DFD;
pub const MAX_RENDER_BUFFER_SIZE: Enum = 0x84E8;
pub const MAX_CUBE_MAP_TEXTURE_SIZE: Enum = 0x851C;
pub const MAX_TEXTURE_SIZE: Enum = 0x0D33;
pub const MAX_COLOR_ATTACHMENTS: Enum = 0x8CDF;
pub const VENDOR: Enum = 0x1F00;
pub const RENDERER: Enum = 0x1F01;
pub const VERSION: Enum = 0x1F02;
pub const EXTENSIONS: Enum = 0x1F03;
pub const SHADING_LANGUAGE_VERSION: Enum = 0x8B8C;
pub const COMPILE_STATUS: Enum = 0x8B81;
pub const LINK_STATUS: Enum = 0x8B82;
pub const ARRAY_BUFFER: Enum = 0x8892;
pub const ELEMENT_ARRAY_BUFFER: Enum = 0x8893;
pub const STREAM_DRAW: Enum = 0x88E0;
pub const STATIC_DRAW: Enum = 0x88E4;
pub const DYNAMIC_DRAW: Enum = 0x88E8;
pub const TEXTURE0: Enum = 0x84C0;
pub const COLOR_ATTACHMENT0: Enum = 0x8CE0;
pub const FRAMEBUFFER: Enum = 0x8D40;
pub const RENDERBUFFER: Enum = 0x8D41;

/// A GL call, with its arguments.
#[derive(Clone, PartialEq, Eq, Debug)]
pub enum GlCall {
    BlendColor(u32, u32, u32, u32),
    BlendFunc(Enum, Enum),
    BlendFuncSeparate(Enum, Enum, Enum, Enum),
    BlendEquation(Enum),
    BlendEquationSeparate(Enum, Enum),
    Viewport(Int, Int, Int, Int),
    Clear(u32),
    ActiveTexture(Enum),
    BindBuffer(Enum, UInt),
    BindTexture(Enum, UInt),
    BindFramebuffer(Enum, UInt),
    BindRenderbuffer(Enum, UInt),
    BufferData(Enum, usize, Enum),
    EnableVertexAttribArray(UInt),
    VertexAttribPointer(UInt, Int, Enum, u8, Int, usize),
    DrawArrays(Enum, Int, Int),
    DrawElements(Enum, Int, Enum, usize),
    PixelStorei(Enum, Int),
    TexImage2D(Enum, Int, Int, Int, Int, Int, Enum, Enum),
    FramebufferTexture2D(Enum, Enum, Enum, UInt, Int),
    CheckFramebufferStatus(Enum),
    UseProgram(UInt),
    AttachShader(UInt, UInt),
    LinkProgram(UInt),
    BindAttribLocation(UInt, UInt, Vec<u8>),
    GetUniformLocation(UInt, Vec<u8>),
    GetAttribLocation(UInt, Vec<u8>),
    Uniform1iv(Int, Int),
    Uniform1fv(Int, Int),
    DeleteProgram(UInt),
    DeleteBuffers(Int, UInt),
    DeleteTextures(Int, UInt),
    DeleteFramebuffers(Int, UInt),
    DeleteRenderbuffers(Int, UInt),
}

/// A 3D graphics context.
#[derive(Clone, Copy, PartialEq, Eq, Structural, Debug, Hash)]
pub struct Context3d(pub PP_Resource);

impl Resource for Context3d {
    open spec fn res(&self) -> PP_Resource { self.0 }
    open spec fn kind(&self) -> ResourceType { ResourceType::Graphics3DRes }
    fn unwrap(&self) -> (r: PP_Resource) { self.0 }
    fn type_of(&self) -> (t: ResourceType) { ResourceType::Graphics3DRes }
}

impl ToOption<PP_Resource> for Context3d {
    fn to_option(from: &PP_Resource) -> (r: Option<Context3d>)
        ensures r == handle_option(*from, |h: PP_Resource| Context3d(h)),
    {
        if *from == 0 { None } else { Some(Context3d(*from)) }
    }
}

impl ContextResource for Context3d {
    open spec fn device(&self) -> PP_Resource { self.0 }
    fn get_device(&self) -> (r: PP_Resource) { self.unwrap() }
}

/// How new pixels blend with what is drawn: an optional constant color (by
/// the bits of its four components), blend functions and equations.
#[derive(Clone, Copy, PartialEq, Eq, Structural, Debug)]
pub enum BlendingFun_ {
    BlendingFun(Enum, Enum),
    BlendingFunSep(Enum, Enum, Enum, Enum),
}

#[derive(Clone, Copy, PartialEq, Eq, Structural, Debug)]
pub enum BlendingEq_ {
    BlendingEq(Enum),
    BlendingEqSep(Enum, Enum),
}

#[derive(Clone, Copy, Debug)]
pub struct Blending {
    pub color: Option<(u32, u32, u32, u32)>,
    pub fun: Option<BlendingFun_>,
    pub eq: Option<BlendingEq_>,
}

/// The calls that set up blending: the color if given, then the functions if
/// given, then the equations if given.
pub open spec fn blend_calls(b: Blending) -> Seq<GlCall> {
    let color = match b.color {
        Some((r, g, bl, a)) => seq![GlCall::BlendColor(r, g, bl, a)],
        None => Seq::<GlCall>::empty(),
    };
    let fun = match b.fun {
        Some(BlendingFun_::BlendingFun(s, d)) => seq![GlCall::BlendFunc(s, d)],
        Some(BlendingFun_::BlendingFunSep(sr, dr, sa, da)) => seq![GlCall::BlendFuncSeparate(sr, dr, sa, da)],
        None => Seq::<GlCall>::empty(),
    };
    let eq = match b.eq {
        Some(BlendingEq_::BlendingEq(m)) => seq![GlCall::BlendEquation(m)],
        Some(BlendingEq_::BlendingEqSep(mr, ma)) => seq![GlCall::BlendEquationSeparate(mr, ma)],
        None => Seq::<GlCall>::empty(),
    };
    color + fun + eq
}

/// An attribute asked of a new 3D context.
#[derive(Clone, Copy, PartialEq, Eq, Structural, Debug, Hash)]
pub enum Context3dAttrib {
    Width(u32),
    Height(u32),
    AlphaSize(u32),
    RedSize(u32),
    BlueSize(u32),
    GreenSize(u32),
    DepthSize(u32),
    StencilSize(u32),
    Samples(u32),
    SampleBuffers(u32),
    SwapBehaviour(u32),
}

/// The attribute name and value pair that stands for an attribute.
pub open spec fn attrib_pair(a: Context3dAttrib) -> (i32, i32) {
    match a {
        Context3dAttrib::Width(v) => (ffi::PP_GRAPHICS3DATTRIB_WIDTH, v as i32),
        Context3dAttrib::Height(v) => (ffi::PP_GRAPHICS3DATTRIB_HEIGHT, v as i32),
        Context3dAttrib::AlphaSize(v) => (ffi::PP_GRAPHICS3DATTRIB_ALPHA_SIZE, v as i32),
        Context3dAttrib::RedSize(v) => (ffi::PP_GRAPHICS3DATTRIB_RED_SIZE, v as i32),
        Context3dAttrib::BlueSize(v) => (ffi::PP_GRAPHICS3DATTRIB_BLUE_SIZE, v as i32),
        Context3dAttrib::GreenSize(v) => (ffi::PP_GRAPHICS3DATTRIB_GREEN_SIZE, v as i32),
        Context3dAttrib::DepthSize(v) => (ffi::PP_GRAPHICS3DATTRIB_DEPTH_SIZE, v as i32),
        Context3dAttrib::StencilSize(v) => (ffi::PP_GRAPHICS3DATTRIB_STENCIL_SIZE, v as i32),
        Context3dAttrib::Samples(v) => (ffi::PP_GRAPHICS3DATTRIB_SAMPLES, v as i32),
        Context3dAttrib::SampleBuffers(v) => (ffi::PP_GRAPHICS3DATTRIB_SAMPLE_BUFFERS, v as i32),
        Context3dAttrib::SwapBehaviour(v) => (ffi::PP_GRAPHICS3DATTRIB_SWAP_BEHAVIOR, v as i32),
    }
}

impl Context3dAttrib {
    /// The attribute as a name and value pair; the value's bits are taken as
    /// signed.
    pub fn to_ffi(&self) -> (p: (i32, i32))
        ensures p == attrib_pair(*self),
    {
        match self {
            Context3dAttrib::Width(v) => (ffi::PP_GRAPHICS3DATTRIB_WIDTH, *v as i32),
            Context3dAttrib::Height(v) => (ffi::PP_GRAPHICS3DATTRIB_HEIGHT, *v as i32),
            Context3dAttrib::AlphaSize(v) => (ffi::PP_GRAPHICS3DATTRIB_ALPHA_SIZE, *v as i32),
            Context3dAttrib::RedSize(v) => (ffi::PP_GRAPHICS3DATTRIB_RED_SIZE, *v as i32),
            Context3dAttrib::BlueSize(v) => (ffi::PP_GRAPHICS3DATTRIB_BLUE_SIZE, *v as i32),
            Context3dAttrib::GreenSize(v) => (ffi::PP_GRAPHICS3DATTRIB_GREEN_SIZE, *v as i32),
            Context3dAttrib::DepthSize(v) => (ffi::PP_GRAPHICS3DATTRIB_DEPTH_SIZE, *v as i32),
            Context3dAttrib::StencilSize(v) => (ffi::PP_GRAPHICS3DATTRIB_STENCIL_SIZE, *v as i32),
            Context3dAttrib::Samples(v) => (ffi::PP_GRAPHICS3DATTRIB_SAMPLES, *v as i32),
            Context3dAttrib::SampleBuffers(v) => (ffi::PP_GRAPHICS3DATTRIB_SAMPLE_BUFFERS, *v as i32),
            Context3dAttrib::SwapBehaviour(v) => (ffi::PP_GRAPHICS3DATTRIB_SWAP_BEHAVIOR, *v as i32),
        }
    }
}

/// The attribute list a context is created with: each attribute as a name
/// and value pair, then a closing pair of `NONE`s.
pub open spec fn attrib_list(attribs: Seq<Context3dAttrib>) -> Seq<(i32, i32)> {
    attribs.map_values(|a: Context3dAttrib| attrib_pair(a))
        .push((ffi::PP_GRAPHICS3DATTRIB_NONE, ffi::PP_GRAPHICS3DATTRIB_NONE))
}

/// Builds the attribute list for creating a context.
pub fn context_attrib_list(attribs: &[Context3dAttrib]) -> (l: Vec<(i32, i32)>)
    ensures l@ == attrib_list(attribs@),
{
    let mut a: Vec<(i32, i32)> = Vec::new();
    let mut i: usize = 0;
    while i < attribs.len()
        invariant
            i <= attribs@.len(),
            a@ == attribs@.subrange(0, i as int).map_values(|x: Context3dAttrib| attrib_pair(x)),
        decreases attribs@.len() - i,
    {
        a.push(attribs[i].to_ffi());
        proof {
            assert(attribs@.subrange(0, i + 1) == attribs@.subrange(0, i as int).push(attribs@[i as int]));
        }
        i = i + 1;
    }
    proof {
        assert(attribs@.subrange(0, attribs@.len() as int) == attribs@);
    }
    a.push((ffi::PP_GRAPHICS3DATTRIB_NONE, ffi::PP_GRAPHICS3DATTRIB_NONE));
    a
}

impl Context3d {
    pub fn new(res: PP_Resource) -> (c: Context3d)
        ensures c.0 == res,
    {
        Context3d(res)
    }

    /// The calls that set up blending as described.
    pub fn blend(&self, blending: &Blending) -> (calls: Vec<GlCall>)
        ensures calls@ == blend_calls(*blending),
    {
        let mut calls: Vec<GlCall> = Vec::new();
        match blending.color {
            Some((r, g, b, a)) => calls.push(GlCall::BlendColor(r, g, b, a)),
            None => {},
        }
        match blending.fun {
            Some(BlendingFun_::BlendingFun(sfactor, dfactor)) => calls.push(GlCall::BlendFunc(sfactor, dfactor)),
            Some(BlendingFun_::BlendingFunSep(src_rgb, dst_rgb, src_alpha, dst_alpha)) =>
                calls.push(GlCall::BlendFuncSeparate(src_rgb, dst_rgb, src_alpha, dst_alpha)),
            None => {},
        }
        match blending.eq {
            Some(BlendingEq_::BlendingEq(mode)) => calls.push(GlCall::BlendEquation(mode)),
            Some(BlendingEq_::BlendingEqSep(mode_rgb, mode_alpha)) =>
                calls.push(GlCall::BlendEquationSeparate(mode_rgb, mode_alpha)),
            None => {},
        }
        proof {
            assert(calls@ =~= blend_calls(*blending));
        }
        calls
    }

    /// The call that sets the viewport to a rectangle.
    pub fn viewport(&self, rect: PP_Rect) -> (c: GlCall)
        ensures c == GlCall::Viewport(rect.point.x, rect.point.y, rect.size.width, rect.size.height),
    {
        GlCall::Viewport(rect.point.x, rect.point.y, rect.size.width, rect.size.height)
    }

    pub fn clear(&self, mask: u32) -> (c: GlCall)
        ensures c == GlCall::Clear(mask),
    {
        GlCall::Clear(mask)
    }

    /// The call that activates texture unit `slot`, counted from `TEXTURE0`.
    pub fn activate_tex_slot(&self, slot: Enum) -> (c: GlCall)
        requires slot + TEXTURE0 <= u32::MAX,
        ensures c == GlCall::ActiveTexture((slot + TEXTURE0) as Enum),
    {
        GlCall::ActiveTexture(slot + TEXTURE0)
    }

    /// The call that lets the GL delete a program once it is unused.
    pub fn mark_program_for_drop(&self, program: &ShaderProgram) -> (c: GlCall)
        ensures c == GlCall::DeleteProgram(program.0),
    {
        GlCall::DeleteProgram(program.unwrap())
    }
}

/// The kinds of GL buffers.
#[derive(Clone, Copy, PartialEq, Eq, Structural, Debug, Hash)]
pub enum BufferType {
    Vertex,
    Index,
    Texture,
    Frame,
    Render,
}

#[derive(Clone, Copy, PartialEq, Eq, Structural, Debug, Hash, Default)]
pub struct VertexBuffer(pub UInt);
#[derive(Clone, Copy, PartialEq, Eq, Structural, Debug, Hash, Default)]
pub struct IndexBuffer(pub UInt);
#[derive(Clone, Copy, PartialEq, Eq, Structural, Debug, Hash, Default)]
pub struct TextureBuffer(pub UInt);
#[derive(Clone, Copy, PartialEq, Eq, Structural, Debug, Hash, Default)]
pub struct FrameBuffer(pub UInt);
#[derive(Clone, Copy, PartialEq, Eq, Structural, Debug, Hash, Default)]
pub struct RenderBuffer(pub UInt);

/// Any GL buffer, by kind.
#[derive(Clone, Copy, PartialEq, Eq, Structural, Debug, Hash)]
pub enum BufferObject {
    Vertex(VertexBuffer),
    Index(IndexBuffer),
    Texture(TextureBuffer),
    Frame(FrameBuffer),
    Render(RenderBuffer),
}

/// A GL buffer.
pub trait Buffer {
    spec fn id_spec(&self) -> UInt;
    spec fn type_spec(&self) -> BufferType;
    /// The buffer as a buffer of any kind.
    spec fn object_spec(&self) -> BufferObject;

    fn unwrap(&self) -> (id: UInt)
        ensures id == self.id_spec(),
    ;
    fn get_type(&self) -> (t: BufferType)
        ensures t == self.type_spec(),
    ;
    /// The default buffer has the id 0.
    fn is_default(&self) -> (b: bool)
        ensures b == (self.id_spec() == 0),
    {
        self.unwrap() == 0
    }
    fn to_object(&self) -> (o: BufferObject)
        ensures o == self.object_spec(),
    ;
}

impl Buffer for VertexBuffer {
    open spec fn id_spec(&self) -> UInt { self.0 }
    open spec fn type_spec(&self) -> BufferType { BufferType::Vertex }
    fn unwrap(&self) -> (id: UInt) { self.0 }
    fn get_type(&self) -> (t: BufferType) { BufferType::Vertex }
    open spec fn object_spec(&self) -> BufferObject { BufferObject::Vertex(*self) }
    fn to_object(&self) -> (o: BufferObject) { BufferObject::Vertex(*self) }
}
impl Buffer for IndexBuffer {
    open spec fn id_spec(&self) -> UInt { self.0 }
    open spec fn type_spec(&self) -> BufferType { BufferType::Index }
    fn unwrap(&self) -> (id: UInt) { self.0 }
    fn get_type(&self) -> (t: BufferType) { BufferType::Index }
    open spec fn object_spec(&self) -> BufferObject { BufferObject::Index(*self) }
    fn to_object(&self) -> (o: BufferObject) { BufferObject::Index(*self) }
}
impl Buffer for TextureBuffer {
    open spec fn id_spec(&self) -> UInt { self.0 }
    open spec fn type_spec(&self) -> BufferType { BufferType::Texture }
    fn unwrap(&self) -> (id: UInt) { self.0 }
    fn get_type(&self) -> (t: BufferType) { BufferType::Texture }
    open spec fn object_spec(&self) -> BufferObject { BufferObject::Texture(*self) }
    fn to_object(&self) -> (o: BufferObject) { BufferObject::Texture(*self) }
}
impl Buffer for FrameBuffer {
    open spec fn id_spec(&self) -> UInt { self.0 }
    open spec fn type_spec(&self) -> BufferType { BufferType::Frame }
    fn unwrap(&self) -> (id: UInt) { self.0 }
    fn get_type(&self) -> (t: BufferType) { BufferType::Frame }
    open spec fn object_spec(&self) -> BufferObject { BufferObject::Frame(*self) }
    fn to_object(&self) -> (o: BufferObject) { BufferObject::Frame(*self) }
}
impl Buffer for RenderBuffer {
    open spec fn id_spec(&self) -> UInt { self.0 }
    open spec fn type_spec(&self) -> BufferType { BufferType::Render }
    fn unwrap(&self) -> (id: UInt) { self.0 }
    fn get_type(&self) -> (t: BufferType) { BufferType::Render }
    open spec fn object_spec(&self) -> BufferObject { BufferObject::Render(*self) }
    fn to_object(&self) -> (o: BufferObject) { BufferObject::Render(*self) }
}

impl Buffer for BufferObject {
    open spec fn id_spec(&self) -> UInt {
        match self {
            BufferObject::Vertex(b) => b.0,
            BufferObject::Index(b) => b.0,
            BufferObject::Texture(b) => b.0,
            BufferObject::Frame(b) => b.0,
            BufferObject::Render(b) => b.0,
        }
    }
    open spec fn type_spec(&self) -> BufferType {
        match self {
            BufferObject::Vertex(_) => BufferType::Vertex,
            BufferObject::Index(_) => BufferType::Index,
            BufferObject::Texture(_) => BufferType::Texture,
            BufferObject::Frame(_) => BufferType::Frame,
            BufferObject::Render(_) => BufferType::Render,
        }
    }
    fn unwrap(&self) -> (id: UInt) {
        match self {
            BufferObject::Vertex(b) => b.unwrap(),
            BufferObject::Index(b) => b.unwrap(),
            BufferObject::Texture(b) => b.unwrap(),
            BufferObject::Frame(b) => b.unwrap(),
            BufferObject::Render(b) => b.unwrap(),
        }
    }
    fn get_type(&self) -> (t: BufferType) {
        match self {
            BufferObject::Vertex(_) => BufferType::Vertex,
            BufferObject::Index(_) => BufferType::Index,
            BufferObject::Texture(_) => BufferType::Texture,
            BufferObject::Frame(_) => BufferType::Frame,
            BufferObject::Render(_) => BufferType::Render,
        }
    }
    open spec fn object_spec(&self) -> BufferObject { *self }
    fn to_object(&self) -> (o: BufferObject) { *self }
}

/// A buffer bound to its target on a context.
#[derive(Clone, Copy, PartialEq, Eq, Structural, Debug, Hash)]
pub struct BoundBuffer<T>(pub T);

impl<T: Buffer> Buffer for BoundBuffer<T> {
    open spec fn id_spec(&self) -> UInt { self.0.id_spec() }
    open spec fn type_spec(&self) -> BufferType { self.0.type_spec() }
    fn unwrap(&self) -> (id: UInt) { self.0.unwrap() }
    fn get_type(&self) -> (t: BufferType) { self.0.get_type() }
    open spec fn object_spec(&self) -> BufferObject { self.0.object_spec() }
    fn to_object(&self) -> (o: BufferObject) { self.0.to_object() }
}

/// The binding target of each kind of buffer.
pub open spec fn bind_target(t: BufferType) -> Enum {
    match t {
        BufferType::Vertex => ARRAY_BUFFER,
        BufferType::Index => ELEMENT_ARRAY_BUFFER,
        BufferType::Texture => TEXTURE_2D,
        BufferType::Frame => FRAMEBUFFER,
        BufferType::Render => RENDERBUFFER,
    }
}

impl VertexBuffer {
    /// Binding the buffer: the call that binds it and the bound buffer.
    pub fn bind(&self) -> (r: (GlCall, BoundBuffer<VertexBuffer>))
        ensures r == (GlCall::BindBuffer(ARRAY_BUFFER, self.0), BoundBuffer(*self)),
    {
        (GlCall::BindBuffer(ARRAY_BUFFER, self.0), BoundBuffer(*self))
    }
}
impl IndexBuffer {
    pub fn bind(&self) -> (r: (GlCall, BoundBuffer<IndexBuffer>))
        ensures r == (GlCall::BindBuffer(ELEMENT_ARRAY_BUFFER, self.0), BoundBuffer(*self)),
    {
        (GlCall::BindBuffer(ELEMENT_ARRAY_BUFFER, self.0), BoundBuffer(*self))
    }
}
impl FrameBuffer {
    pub fn bind(&self) -> (r: (GlCall, BoundBuffer<FrameBuffer>))
        ensures r == (GlCall::BindFramebuffer(FRAMEBUFFER, self.0), BoundBuffer(*self)),
    {
        (GlCall::BindFramebuffer(FRAMEBUFFER, self.0), BoundBuffer(*self))
    }
}
impl RenderBuffer {
    pub fn bind(&self) -> (r: (GlCall, BoundBuffer<RenderBuffer>))
        ensures r == (GlCall::BindRenderbuffer(RENDERBUFFER, self.0), BoundBuffer(*self)),
    {
        (GlCall::BindRenderbuffer(RENDERBUFFER, self.0), BoundBuffer(*self))
    }
}
impl TextureBuffer {
    /// Binding the texture to a target.
    pub fn bind(&self, target: Enum) -> (r: (GlCall, BoundTexBuffer))
        ensures r == (GlCall::BindTexture(target, self.0), BoundTexBuffer { tex: *self, target }),
    {
        let bound = BoundTexBuffer { tex: *self, target };
        (bound.rebind(), bound)
    }
}

/// What a buffer holds when its storage is made: the bytes to fill it with,
/// or a count of elements of a given size to leave empty.
#[derive(Clone, Debug)]
pub enum BufferData {
    Fill(Vec<u8>),
    Empty(usize, usize),
}

impl BufferData {
    pub open spec fn spec_byte_len(&self) -> int {
        match self {
            BufferData::Fill(b) => b@.len() as int,
            BufferData::Empty(count, size) => *count * *size,
        }
    }

    /// The size of the storage in bytes.
    pub fn byte_len(&self) -> (n: usize)
        requires self.spec_byte_len() <= usize::MAX,
        ensures n == self.spec_byte_len(),
    {
        match self {
            BufferData::Fill(b) => b.len(),
            BufferData::Empty(count, size) => *count * *size,
        }
    }
}

/// How often a buffer's contents change.
pub trait Usage {
    spec fn usage_spec(&self) -> Enum;
    fn get_usage_enum(&self) -> (e: Enum)
        ensures e == self.usage_spec(),
    ;
}

#[derive(Clone, Copy, PartialEq, Eq, Structural, Debug)]
pub struct StaticBufferUsage;
#[derive(Clone, Copy, PartialEq, Eq, Structural, Debug)]
pub struct StreamBufferUsage;
#[derive(Clone, Copy, PartialEq, Eq, Structural, Debug)]
pub struct DynamicBufferUsage;

impl Usage for StaticBufferUsage {
    open spec fn usage_spec(&self) -> Enum { STATIC_DRAW }
    fn get_usage_enum(&self) -> (e: Enum) { STATIC_DRAW }
}
impl Usage for StreamBufferUsage {
    open spec fn usage_spec(&self) -> Enum { STREAM_DRAW }
    fn get_usage_enum(&self) -> (e: Enum) { STREAM_DRAW }
}
impl Usage for DynamicBufferUsage {
    open spec fn usage_spec(&self) -> Enum { DYNAMIC_DRAW }
    fn get_usage_enum(&self) -> (e: Enum) { DYNAMIC_DRAW }
}

/// Ways of assembling vertices into shapes.
#[derive(Clone, Copy, PartialEq, Eq, Structural, Debug, Hash)]
pub enum GeometryMode {
    Points,
    LineStrip,
    LineLoop,
    Lines,
    TriangleStrip,
    TriangleFan,
    Triangle,
}

pub open spec fn geometry_enum(m: GeometryMode) -> Enum {
    match m {
        GeometryMode::Points => POINTS,
        GeometryMode::LineStrip => LINE_STRIP,
        GeometryMode::LineLoop => LINE_LOOP,
        GeometryMode::Lines => LINES,
        GeometryMode::TriangleStrip => TRIANGLE_STRIP,
        GeometryMode::TriangleFan => TRIANGLE_FAN,
        GeometryMode::Triangle => TRIANGLES,
    }
}

impl GeometryMode {
    pub fn get_geo_mode_enum(&self) -> (e: Enum)
        ensures e == geometry_enum(*self),
    {
        match self {
            GeometryMode::Points => POINTS,
            GeometryMode::LineStrip => LINE_STRIP,
            GeometryMode::LineLoop => LINE_LOOP,
            GeometryMode::Lines => LINES,
            GeometryMode::TriangleStrip => TRIANGLE_STRIP,
            GeometryMode::TriangleFan => TRIANGLE_FAN,
            GeometryMode::Triangle => TRIANGLES,
        }
    }
}

impl Default for GeometryMode {
    fn default() -> (m: GeometryMode)
        ensures m == GeometryMode::Triangle,
    {
        GeometryMode::Triangle
    }
}

#[derive(Clone, Copy, PartialEq, Eq, Structural, Debug)]
pub struct PointsGeometryMode;
#[derive(Clone, Copy, PartialEq, Eq, Structural, Debug)]
pub struct LineStripGeometryMode;
#[derive(Clone, Copy, PartialEq, Eq, Structural, Debug)]
pub struct LineLoopGeometryMode;
#[derive(Clone, Copy, PartialEq, Eq, Structural, Debug)]
pub struct LinesGeometryMode;
#[derive(Clone, Copy, PartialEq, Eq, Structural, Debug)]
pub struct TriangleStripGeometryMode;
#[derive(Clone, Copy, PartialEq, Eq, Structural, Debug)]
pub struct TriangleFanGeometryMode;
#[derive(Clone, Copy, PartialEq, Eq, Structural, Debug)]
pub struct TrianglesGeometryMode;

/// A fixed geometry mode.
pub trait GeometryModeEnum {
    spec fn mode_spec(&self) -> Enum;
    fn mode_enum(&self) -> (e: Enum)
        ensures e == self.mode_spec(),
    ;
}

impl GeometryModeEnum for GeometryMode {
    open spec fn mode_spec(&self) -> Enum { geometry_enum(*self) }
    fn mode_enum(&self) -> (e: Enum) { self.get_geo_mode_enum() }
}
impl GeometryModeEnum for PointsGeometryMode {
    open spec fn mode_spec(&self) -> Enum { POINTS }
    fn mode_enum(&self) -> (e: Enum) { POINTS }
}
impl GeometryModeEnum for LineStripGeometryMode {
    open spec fn mode_spec(&self) -> Enum { LINE_STRIP }
    fn mode_enum(&self) -> (e: Enum) { LINE_STRIP }
}
impl GeometryModeEnum for LineLoopGeometryMode {
    open spec fn mode_spec(&self) -> Enum { LINE_LOOP }
    fn mode_enum(&self) -> (e: Enum) { LINE_LOOP }
}
impl GeometryModeEnum for LinesGeometryMode {
    open spec fn mode_spec(&self) -> Enum { LINES }
    fn mode_enum(&self) -> (e: Enum) { LINES }
}
impl GeometryModeEnum for TriangleStripGeometryMode {
    open spec fn mode_spec(&self) -> Enum { TRIANGLE_STRIP }
    fn mode_enum(&self) -> (e: Enum) { TRIANGLE_STRIP }
}
impl GeometryModeEnum for TriangleFanGeometryMode {
    open spec fn mode_spec(&self) -> Enum { TRIANGLE_FAN }
    fn mode_enum(&self) -> (e: Enum) { TRIANGLE_FAN }
}
impl GeometryModeEnum for TrianglesGeometryMode {
    open spec fn mode_spec(&self) -> Enum { TRIANGLES }
    fn mode_enum(&self) -> (e: Enum) { TRIANGLES }
}

/// The element types a vertex attribute can have.
#[derive(Clone, Copy, PartialEq, Eq, Structural, Debug, Hash)]
pub enum VertexAttribType {
    Byte,
    UByte,
    Short,
    UShort,
    Float,
}

#[derive(Clone, Copy, PartialEq, Eq, Structural, Debug)]
pub struct ByteType;
#[derive(Clone, Copy, PartialEq, Eq, Structural, Debug)]
pub struct UByteType;
#[derive(Clone, Copy, PartialEq, Eq, Structural, Debug)]
pub struct ShortType;
#[derive(Clone, Copy, PartialEq, Eq, Structural, Debug)]
pub struct UShortType;
#[derive(Clone, Copy, PartialEq, Eq, Structural, Debug)]
pub struct FloatType;

/// A type of buffer element: its GL enum and its size in bytes.
pub trait BufferElementType {
    spec fn type_enum_spec(&self) -> Enum;
    spec fn size_spec(&self) -> usize;

    fn type_enum(&self) -> (e: Enum)
        ensures e == self.type_enum_spec(),
    ;
    fn element_size(&self) -> (n: usize)
        ensures n == self.size_spec(),
    ;
    /// The byte offset of an element in a buffer of such elements.
    fn ptr_offset(&self, offset: usize) -> (o: usize)
        requires offset * self.size_spec() <= usize::MAX,
        ensures o == offset * self.size_spec(),
    {
        offset * self.element_size()
    }
}

impl BufferElementType for ByteType {
    open spec fn type_enum_spec(&self) -> Enum { BYTE }
    open spec fn size_spec(&self) -> usize { 1 }
    fn type_enum(&self) -> (e: Enum) { BYTE }
    fn element_size(&self) -> (n: usize) { 1 }
}
impl BufferElementType for UByteType {
    open spec fn type_enum_spec(&self) -> Enum { UNSIGNED_BYTE }
    open spec fn size_spec(&self) -> usize { 1 }
    fn type_enum(&self) -> (e: Enum) { UNSIGNED_BYTE }
    fn element_size(&self) -> (n: usize) { 1 }
}
impl BufferElementType for ShortType {
    open spec fn type_enum_spec(&self) -> Enum { SHORT }
    open spec fn size_spec(&self) -> usize { 2 }
    fn type_enum(&self) -> (e: Enum) { SHORT }
    fn element_size(&self) -> (n: usize) { 2 }
}
impl BufferElementType for UShortType {
    open spec fn type_enum_spec(&self) -> Enum { UNSIGNED_SHORT }
    open spec fn size_spec(&self) -> usize { 2 }
    fn type_enum(&self) -> (e: Enum) { UNSIGNED_SHORT }
    fn element_size(&self) -> (n: usize) { 2 }
}
impl BufferElementType for FloatType {
    open spec fn type_enum_spec(&self) -> Enum { FLOAT }
    open spec fn size_spec(&self) -> usize { 4 }
    fn type_enum(&self) -> (e: Enum) { FLOAT }
    fn element_size(&self) -> (n: usize) { 4 }
}

pub open spec fn vertex_attrib_enum(t: VertexAttribType) -> Enum {
    match t {
        VertexAttribType::Byte => BYTE,
        VertexAttribType::UByte => UNSIGNED_BYTE,
        VertexAttribType::Short => SHORT,
        VertexAttribType::UShort => UNSIGNED_SHORT,
        VertexAttribType::Float => FLOAT,
    }
}

pub open spec fn vertex_attrib_size(t: VertexAttribType) -> usize {
    match t {
        VertexAttribType::Byte => 1,
        VertexAttribType::UByte => 1,
        VertexAttribType::Short => 2,
        VertexAttribType::UShort => 2,
        VertexAttribType::Float => 4,
    }
}

impl VertexAttribType {
    pub fn get_vertex_attrib_type_enum(&self) -> (e: Enum)
        ensures e == vertex_attrib_enum(*self),
    {
        match self {
            VertexAttribType::Byte => BYTE,
            VertexAttribType::UByte => UNSIGNED_BYTE,
            VertexAttribType::Short => SHORT,
            VertexAttribType::UShort => UNSIGNED_SHORT,
            VertexAttribType::Float => FLOAT,
        }
    }
}

impl BufferElementType for VertexAttribType {
    open spec fn type_enum_spec(&self) -> Enum { vertex_attrib_enum(*self) }
    open spec fn size_spec(&self) -> usize { vertex_attrib_size(*self) }
    fn type_enum(&self) -> (e: Enum) { self.get_vertex_attrib_type_enum() }
    fn element_size(&self) -> (n: usize) {
        match self {
            VertexAttribType::Byte => ByteType.element_size(),
            VertexAttribType::UByte => UByteType.element_size(),
            VertexAttribType::Short => ShortType.element_size(),
            VertexAttribType::UShort => UShortType.element_size(),
            VertexAttribType::Float => FloatType.element_size(),
        }
    }
}

/// Where a vertex attribute lives in a program.
#[derive(Clone, Copy, PartialEq, Eq, Structural, Debug, Hash)]
pub struct AttrLocus(pub UInt);

/// Where a uniform lives in a program.
#[derive(Clone, Copy, PartialEq, Eq, Structural, Debug, Hash)]
pub struct UniformLocus(pub UInt);

impl BoundBuffer<VertexBuffer> {
    /// The call that fills the bound vertex buffer.
    pub fn buffer_vertex_data<U: Usage>(&self, buf: &BufferData, usage: &U) -> (c: GlCall)
        requires buf.spec_byte_len() <= usize::MAX,
        ensures c == GlCall::BufferData(ARRAY_BUFFER, buf.spec_byte_len() as usize, usage.usage_spec()),
    {
        GlCall::BufferData(ARRAY_BUFFER, buf.byte_len(), usage.get_usage_enum())
    }

    pub fn enable_vertex_attrib_array(&self, locus: AttrLocus) -> (c: GlCall)
        ensures c == GlCall::EnableVertexAttribArray(locus.0),
    {
        GlCall::EnableVertexAttribArray(locus.0)
    }

    /// The call that describes a vertex attribute's layout in the bound
    /// buffer; counts and the stride are taken as GL integers.
    pub fn vertex_attribute<T: BufferElementType>(&self, locus: AttrLocus, count: usize, ty: &T,
        normalize: bool, stride: usize, offset: usize) -> (c: GlCall)
        ensures
            c == GlCall::VertexAttribPointer(locus.0, count as Int, ty.type_enum_spec(),
                if normalize { 1u8 } else { 0u8 }, stride as Int, offset),
    {
        GlCall::VertexAttribPointer(locus.0, #[verifier::truncate] (count as Int), ty.type_enum(),
            if normalize { 1u8 } else { 0u8 }, #[verifier::truncate] (stride as Int), offset)
    }

    /// The call that draws vertices `[start, start + len)` of the buffer.
    pub fn draw_slice<M: GeometryModeEnum>(&self, mode: &M, slice_start: usize, slice_len: usize) -> (c: GlCall)
        ensures c == GlCall::DrawArrays(mode.mode_spec(), slice_start as Int, slice_len as Int),
    {
        GlCall::DrawArrays(mode.mode_enum(), #[verifier::truncate] (slice_start as Int),
            #[verifier::truncate] (slice_len as Int))
    }
}

impl BoundBuffer<IndexBuffer> {
    /// The call that fills the bound index buffer.
    pub fn buffer_index_data<U: Usage>(&self, buf: &BufferData, usage: &U) -> (c: GlCall)
        requires buf.spec_byte_len() <= usize::MAX,
        ensures c == GlCall::BufferData(ELEMENT_ARRAY_BUFFER, buf.spec_byte_len() as usize, usage.usage_spec()),
    {
        GlCall::BufferData(ELEMENT_ARRAY_BUFFER, buf.byte_len(), usage.get_usage_enum())
    }

    /// The call that draws `len` vertices by the indices from position
    /// `start` of the bound index buffer.
    pub fn draw_elements<M: GeometryModeEnum, T: BufferElementType>(&self, mode: &M, ty: &T,
        slice_start: usize, slice_len: usize) -> (c: GlCall)
        requires slice_start * ty.size_spec() <= usize::MAX,
        ensures
            c == GlCall::DrawElements(mode.mode_spec(), slice_len as Int, ty.type_enum_spec(),
                (slice_start * ty.size_spec()) as usize),
    {
        GlCall::DrawElements(mode.mode_enum(), #[verifier::truncate] (slice_len as Int), ty.type_enum(),
            ty.ptr_offset(slice_start))
    }
}

/// Pixel formats of textures.
#[derive(Clone, Copy, PartialEq, Eq, Structural, Debug, Hash)]
pub enum TexFormat {
    Alpha,
    Rgb,
    Rgba,
}

pub open spec fn tex_format_enum(f: TexFormat) -> Enum {
    match f {
        TexFormat::Alpha => ALPHA,
        TexFormat::Rgb => RGB,
        TexFormat::Rgba => RGBA,
    }
}

pub open spec fn tex_format_len(f: TexFormat) -> usize {
    match f {
        TexFormat::Alpha => 1,
        TexFormat::Rgb => 3,
        TexFormat::Rgba => 4,
    }
}

impl TexFormat {
    pub fn to_ffi(&self) -> (e: UInt)
        ensures e == tex_format_enum(*self),
    {
        match self {
            TexFormat::Alpha => ALPHA,
            TexFormat::Rgb => RGB,
            TexFormat::Rgba => RGBA,
        }
    }

    /// The number of components per pixel.
    pub fn elements_len(&self) -> (n: usize)
        ensures n == tex_format_len(*self),
    {
        match self {
            TexFormat::Alpha => 1,
            TexFormat::Rgb => 3,
            TexFormat::Rgba => 4,
        }
    }
}

/// A texture bound to a target.
#[derive(Clone, Copy, PartialEq, Eq, Structural, Debug)]
pub struct BoundTexBuffer {
    pub tex: TextureBuffer,
    pub target: Enum,
}

impl BoundTexBuffer {
    pub fn rebind(&self) -> (c: GlCall)
        ensures c == GlCall::BindTexture(self.target, self.tex.0),
    {
        GlCall::BindTexture(self.target, self.tex.unwrap())
    }

    pub fn pixel_store(&self, pname: Enum, param: Int) -> (c: GlCall)
        ensures c == GlCall::PixelStorei(pname, param),
    {
        GlCall::PixelStorei(pname, param)
    }

    /// The call that gives the texture a 2D image of a size and formats.
    pub fn image_2d(&self, mip_lvl: Int, internal_format: TexFormat, format: TexFormat,
        size: crate::geometry::Size, type_: UInt) -> (c: GlCall)
        ensures
            c == GlCall::TexImage2D(self.target, mip_lvl, tex_format_enum(internal_format) as Int,
                size.width as Int, size.height as Int, 0, tex_format_enum(format), type_),
    {
        GlCall::TexImage2D(self.target, mip_lvl, internal_format.to_ffi() as Int,
            #[verifier::truncate] (size.width as Int), #[verifier::truncate] (size.height as Int),
            0, format.to_ffi(), type_)
    }
}

impl Buffer for BoundTexBuffer {
    open spec fn id_spec(&self) -> UInt { self.tex.0 }
    open spec fn type_spec(&self) -> BufferType { BufferType::Texture }
    fn unwrap(&self) -> (id: UInt) { self.tex.unwrap() }
    fn get_type(&self) -> (t: BufferType) { BufferType::Texture }
    open spec fn object_spec(&self) -> BufferObject { BufferObject::Texture(self.tex) }
    fn to_object(&self) -> (o: BufferObject) { BufferObject::Texture(self.tex) }
}

/// A color attachment point of a frame buffer, counted from the first.
#[derive(Clone, Copy, PartialEq, Eq, Structural, Debug)]
pub struct ColorAttachment(pub Enum);

impl ColorAttachment {
    pub fn attachment_enum(&self) -> (e: Enum)
        requires COLOR_ATTACHMENT0 + self.0 <= u32::MAX,
        ensures e == COLOR_ATTACHMENT0 + self.0,
    {
        COLOR_ATTACHMENT0 + self.0
    }
}

impl BoundBuffer<FrameBuffer> {
    /// The call that attaches a texture's level to the bound frame buffer.
    pub fn attach_tex2d(&mut self, attachment: ColorAttachment, tex: TextureBuffer, mip_lvl: Int) -> (c: GlCall)
        requires COLOR_ATTACHMENT0 + attachment.0 <= u32::MAX,
        ensures
            c == GlCall::FramebufferTexture2D(FRAMEBUFFER, (COLOR_ATTACHMENT0 + attachment.0) as Enum,
                TEXTURE_2D, tex.0, mip_lvl),
            *final(self) == *old(self),
    {
        GlCall::FramebufferTexture2D(FRAMEBUFFER, attachment.attachment_enum(), TEXTURE_2D, tex.unwrap(), mip_lvl)
    }

    pub fn check_status(&self) -> (c: GlCall)
        ensures c == GlCall::CheckFramebufferStatus(FRAMEBUFFER),
    {
        GlCall::CheckFramebufferStatus(FRAMEBUFFER)
    }

    /// How many elements reading a rectangle of pixels in a format yields.
    pub fn read_pixels_len(&self, rect: PP_Rect, fmt: TexFormat) -> (n: usize)
        requires
            0 <= rect.size.width,
            0 <= rect.size.height,
            rect.size.width * rect.size.height * tex_format_len(fmt) <= usize::MAX,
        ensures n == rect.size.width * rect.size.height * tex_format_len(fmt),
    {
        let w = rect.size.width as usize;
        let h = rect.size.height as usize;
        proof {
            vstd::arithmetic::mul::lemma_mul_upper_bound(w as int, w as int, h as int, h as int);
            assert(0 <= w * h);
            assert(w * h <= w * h * tex_format_len(fmt)) by (nonlinear_arith)
                requires tex_format_len(fmt) >= 1, w * h >= 0;
        }
        w * h * fmt.elements_len()
    }
}

/// A vertex shader.
#[derive(Clone, Copy, PartialEq, Eq, Structural, Debug, Hash)]
pub struct VertexShader(pub UInt);
/// A fragment shader.
#[derive(Clone, Copy, PartialEq, Eq, Structural, Debug, Hash)]
pub struct FragmentShader(pub UInt);
/// A shader program.
#[derive(Clone, Copy, PartialEq, Eq, Structural, Debug, Hash)]
pub struct ShaderProgram(pub UInt);
/// A shader being compiled.
#[derive(Clone, Copy, PartialEq, Eq, Structural, Debug, Hash)]
pub struct CompilingShader<T>(pub T);
/// A program in use.
#[derive(Clone, Copy, PartialEq, Eq, Structural, Debug, Hash)]
pub struct BoundShaderProgram(pub ShaderProgram);
/// A program that is not linked.
#[derive(Clone, Copy, PartialEq, Eq, Structural, Debug, Hash)]
pub struct UnlinkedShaderProgram(pub ShaderProgram, pub Context3d);
/// A program being linked.
#[derive(Clone, Copy, PartialEq, Eq, Structural, Debug, Hash)]
pub struct LinkingShaderProgram(pub ShaderProgram, pub Context3d);
/// A shader that did not compile.
#[derive(Clone, Copy, PartialEq, Eq, Structural, Debug, Hash)]
pub struct CompileError<T> {
    pub shader: CompilingShader<T>,
    pub ctxt: Context3d,
}
/// A program that did not link.
#[derive(Clone, Copy, PartialEq, Eq, Structural, Debug, Hash)]
pub struct LinkError(pub LinkingShaderProgram);

/// A GL shader handle.
pub trait ShaderUnwrap {
    spec fn shader_spec(&self) -> UInt;
    fn unwrap(&self) -> (id: UInt)
        ensures id == self.shader_spec(),
    ;
}

impl ShaderUnwrap for VertexShader {
    open spec fn shader_spec(&self) -> UInt { self.0 }
    fn unwrap(&self) -> (id: UInt) { self.0 }
}
impl ShaderUnwrap for FragmentShader {
    open spec fn shader_spec(&self) -> UInt { self.0 }
    fn unwrap(&self) -> (id: UInt) { self.0 }
}
impl<T: ShaderUnwrap> ShaderUnwrap for CompilingShader<T> {
    open spec fn shader_spec(&self) -> UInt { self.0.shader_spec() }
    fn unwrap(&self) -> (id: UInt) { self.0.unwrap() }
}

impl VertexShader {
    /// A new vertex shader: `created` is the answer of
    /// `CreateShader(context, VERTEX_SHADER)`.
    pub fn gen_single(created: UInt) -> (s: VertexShader)
        ensures s.0 == created,
    {
        VertexShader(created)
    }
}

impl FragmentShader {
    /// A new fragment shader: `created` is the answer of
    /// `CreateShader(context, FRAGMENT_SHADER)`.
    pub fn gen_single(created: UInt) -> (s: FragmentShader)
        ensures s.0 == created,
    {
        FragmentShader(created)
    }
}

impl<T: ShaderUnwrap + Copy> CompilingShader<T> {
    /// The outcome of compiling: `status` is the shader's `COMPILE_STATUS`.
    pub fn results(&self, ctxt: Context3d, status: Int) -> (r: Result<T, CompileError<T>>)
        ensures
            r == if status == TRUE as Int { Ok::<T, CompileError<T>>(self.0) }
                 else { Err::<T, CompileError<T>>(CompileError { shader: *self, ctxt }) },
    {
        if status == TRUE as Int {
            Ok(self.0)
        } else {
            Err(CompileError { shader: *self, ctxt })
        }
    }
}

impl<T> CompileError<T> {
    pub fn description(&self) -> (s: &'static str)
        ensures s@ == "OpenGL shader compile error"@,
    {
        "OpenGL shader compile error"
    }
}

impl LinkError {
    pub fn description(&self) -> (s: &'static str)
        ensures s@ == "OpenGL shader link error"@,
    {
        "OpenGL shader link error"
    }
}

impl ShaderProgram {
    pub fn unwrap(&self) -> (id: UInt)
        ensures id == self.0,
    {
        self.0
    }

    /// A new unlinked program: `created` is the answer of
    /// `CreateProgram(context)`.
    pub fn new(ctxt: Context3d, created: UInt) -> (p: UnlinkedShaderProgram)
        ensures p == UnlinkedShaderProgram(ShaderProgram(created), ctxt),
    {
        UnlinkedShaderProgram(ShaderProgram(created), ctxt)
    }

    /// The call that asks where a uniform lives: the program and the
    /// uniform's name, null terminated. Its answer is read by
    /// `uniform_locus`.
    pub fn uniform_location_call(&self, name: &str) -> (c: GlCall)
        ensures
            c matches GlCall::GetUniformLocation(p, n) && p == self.0 && n@ == name.spec_bytes().push(0u8),
    {
        GlCall::GetUniformLocation(self.unwrap(), nul_terminated(name.as_bytes()))
    }

    /// The call that asks where an attribute lives: the program and the
    /// attribute's name, null terminated. Its answer is read by
    /// `attr_locus`.
    pub fn attr_location_call(&self, name: &str) -> (c: GlCall)
        ensures
            c matches GlCall::GetAttribLocation(p, n) && p == self.0 && n@ == name.spec_bytes().push(0u8),
    {
        GlCall::GetAttribLocation(self.unwrap(), nul_terminated(name.as_bytes()))
    }

    /// Where a uniform lives: `reply` is the answer of
    /// `GetUniformLocation(program, name)`, -1 when it has none.
    pub fn uniform_locus(&self, reply: Int) -> (l: Option<UniformLocus>)
        ensures l == if reply == -1 { None::<UniformLocus> } else { Some(UniformLocus(reply as UInt)) },
    {
        if reply == -1 { None } else { Some(UniformLocus(#[verifier::truncate] (reply as UInt))) }
    }

    /// Where a uniform lives, by its raw locus: `reply` is the answer of
    /// `GetUniformLocation(program, name)`, -1 when it has none.
    pub fn uniform_locale(&mut self, reply: Int) -> (l: Option<Int>)
        ensures
            *final(self) == *old(self),
            l == if reply == -1 { None::<Int> } else { Some(reply) },
    {
        if reply == -1 { None } else { Some(reply) }
    }

    /// Where an attribute lives: `reply` is the answer of
    /// `GetAttribLocation(program, name)`, -1 when it has none.
    pub fn attr_locus(&self, reply: Int) -> (l: Option<AttrLocus>)
        ensures l == if reply == -1 { None::<AttrLocus> } else { Some(AttrLocus(reply as UInt)) },
    {
        if reply == -1 { None } else { Some(AttrLocus(#[verifier::truncate] (reply as UInt))) }
    }

    /// Using the program: the call and the bound program.
    pub fn use_program(&self) -> (r: (GlCall, BoundShaderProgram))
        ensures r == (GlCall::UseProgram(self.0), BoundShaderProgram(*self)),
    {
        (GlCall::UseProgram(self.unwrap()), BoundShaderProgram(*self))
    }

    pub fn unlink(self, ctxt: Context3d) -> (p: UnlinkedShaderProgram)
        ensures p == UnlinkedShaderProgram(self, ctxt),
    {
        UnlinkedShaderProgram(self, ctxt)
    }
}

/// Values that can be set as uniforms: integers or (by their bits) floats.
#[derive(Clone, Debug)]
pub enum UniformData {
    Ints(Vec<Int>),
    Floats(Vec<u32>),
}

impl BoundShaderProgram {
    /// The call that sets a uniform; an absent locus is passed as -1, which
    /// the GL ignores.
    pub fn uniform(&mut self, index: Option<UniformLocus>, data: &UniformData) -> (c: GlCall)
        ensures
            *final(self) == *old(self),
            c == match data {
                UniformData::Ints(v) => GlCall::Uniform1iv(
                    match index { Some(l) => l.0 as Int, None => -1i32 }, v@.len() as Int),
                UniformData::Floats(v) => GlCall::Uniform1fv(
                    match index { Some(l) => l.0 as Int, None => -1i32 }, v@.len() as Int),
            },
    {
        let index: Int = match index {
            Some(l) => #[verifier::truncate] (l.0 as Int),
            None => -1,
        };
        match data {
            UniformData::Ints(v) => GlCall::Uniform1iv(index, #[verifier::truncate] (v.len() as Int)),
            UniformData::Floats(v) => GlCall::Uniform1fv(index, #[verifier::truncate] (v.len() as Int)),
        }
    }
}

/// A name as the GL takes it: its bytes and a NUL byte.
fn nul_terminated(name: &[u8]) -> (n: Vec<u8>)
    ensures n@ == name@.push(0u8),
{
    let mut n: Vec<u8> = Vec::new();
    let mut i: usize = 0;
    while i < name.len()
        invariant
            i <= name@.len(),
            n@ == name@.subrange(0, i as int),
        decreases name@.len() - i,
    {
        n.push(name[i]);
        proof { assert(name@.subrange(0, i + 1) == name@.subrange(0, i as int).push(name@[i as int])); }
        i = i + 1;
    }
    proof { assert(name@.subrange(0, name@.len() as int) == name@); }
    n.push(0u8);
    n
}

impl UnlinkedShaderProgram {
    /// Binds an attribute name to a position: the call, whose name is null
    /// terminated, and the attribute's locus.
    pub fn bind_attrib_locus(&mut self, index: UInt, name: &[u8]) -> (r: (GlCall, AttrLocus))
        ensures
            *final(self) == *old(self),
            r.1 == AttrLocus(index),
            r.0 matches GlCall::BindAttribLocation(p, i, n) && p == old(self).0.0 && i == index
                && n@ == name@.push(0u8),
    {
        (GlCall::BindAttribLocation(self.0.unwrap(), index, nul_terminated(name)), AttrLocus(index))
    }

    /// Binds an attribute name, given already null terminated, to a
    /// position.
    pub fn bind_attrib_locale(&mut self, index: UInt, name: &[u8]) -> (c: GlCall)
        ensures
            *final(self) == *old(self),
            c matches GlCall::BindAttribLocation(p, i, n) && p == old(self).0.0 && i == index && n@ == name@,
    {
        let mut n: Vec<u8> = Vec::new();
        let mut i: usize = 0;
        while i < name.len()
            invariant
                i <= name@.len(),
                n@ == name@.subrange(0, i as int),
            decreases name@.len() - i,
        {
            n.push(name[i]);
            proof { assert(name@.subrange(0, i + 1) == name@.subrange(0, i as int).push(name@[i as int])); }
            i = i + 1;
        }
        proof { assert(name@.subrange(0, name@.len() as int) == name@); }
        GlCall::BindAttribLocation(self.0.unwrap(), index, n)
    }

    pub fn attach_shader<T: ShaderUnwrap>(&mut self, shader: &T) -> (c: GlCall)
        ensures
            *final(self) == *old(self),
            c == GlCall::AttachShader(old(self).0.0, shader.shader_spec()),
    {
        GlCall::AttachShader(self.0.unwrap(), shader.unwrap())
    }

    /// Linking: the call and the program being linked.
    pub fn link(self) -> (r: (GlCall, LinkingShaderProgram))
        ensures r == (GlCall::LinkProgram(self.0.0), LinkingShaderProgram(self.0, self.1)),
    {
        (GlCall::LinkProgram(self.0.unwrap()), LinkingShaderProgram(self.0, self.1))
    }
}

impl LinkingShaderProgram {
    /// The outcome of linking: `status` is the program's `LINK_STATUS`.
    pub fn results(&self, status: Int) -> (r: Result<ShaderProgram, LinkError>)
        ensures
            r == if status == TRUE as Int { Ok::<ShaderProgram, LinkError>(self.0) }
                 else { Err::<ShaderProgram, LinkError>(LinkError(*self)) },
    {
        if status == TRUE as Int { Ok(self.0) } else { Err(LinkError(*self)) }
    }
}

/// Implementation limits and strings that can be asked of a context.
pub trait GetQuery {
    spec fn pname_spec(&self) -> Enum;
    fn pname(&self) -> (e: Enum)
        ensures e == self.pname_spec(),
    ;
}

#[derive(Clone, Copy)] pub struct MaxVertexAttribs;
#[derive(Clone, Copy)] pub struct MaxVertexUniformVectors;
#[derive(Clone, Copy)] pub struct MaxVaryingVectors;
#[derive(Clone, Copy)] pub struct MaxCombinedTextureImageUnits;
#[derive(Clone, Copy)] pub struct MaxVertexImageUnits;
#[derive(Clone, Copy)] pub struct MaxTextureImageUnits;
#[derive(Clone, Copy)] pub struct MaxFragmentUniformVectors;
#[derive(Clone, Copy)] pub struct MaxCubeMapTextureSize;
#[derive(Clone, Copy)] pub struct MaxRenderBufferSize;
#[derive(Clone, Copy)] pub struct MaxTextureSize;
#[derive(Clone, Copy)] pub struct MaxColorAttachments;
#[derive(Clone, Copy)] pub struct Vendor;
#[derive(Clone, Copy)] pub struct Extensions;
#[derive(Clone, Copy)] pub struct Renderer;
#[derive(Clone, Copy)] pub struct Version;
#[derive(Clone, Copy)] pub struct ShadingLanguageVersion;

impl GetQuery for MaxVertexAttribs {
    open spec fn pname_spec(&self) -> Enum { MAX_VERTEX_ATTRIBS }
    fn pname(&self) -> (e: Enum) { MAX_VERTEX_ATTRIBS }
}
impl GetQuery for MaxVertexUniformVectors {
    open spec fn pname_spec(&self) -> Enum { MAX_VERTEX_UNIFORM_VECTORS }
    fn pname(&self) -> (e: Enum) { MAX_VERTEX_UNIFORM_VECTORS }
}
impl GetQuery for MaxVaryingVectors {
    open spec fn pname_spec(&self) -> Enum { MAX_VARYING_VECTORS }
    fn pname(&self) -> (e: Enum) { MAX_VARYING_VECTORS }
}
impl GetQuery for MaxCombinedTextureImageUnits {
    open spec fn pname_spec(&self) -> Enum { MAX_COMBINED_TEXTURE_IMAGE_UNITS }
    fn pname(&self) -> (e: Enum) { MAX_COMBINED_TEXTURE_IMAGE_UNITS }
}
impl GetQuery for MaxVertexImageUnits {
    open spec fn pname_spec(&self) -> Enum { MAX_VERTEX_TEXTURE_IMAGE_UNITS }
    fn pname(&self) -> (e: Enum) { MAX_VERTEX_TEXTURE_IMAGE_UNITS }
}
impl GetQuery for MaxTextureImageUnits {
    open spec fn pname_spec(&self) -> Enum { MAX_TEXTURE_IMAGE_UNITS }
    fn pname(&self) -> (e: Enum) { MAX_TEXTURE_IMAGE_UNITS }
}
impl GetQuery for MaxFragmentUniformVectors {
    open spec fn pname_spec(&self) -> Enum { MAX_FRAGMENT_UNIFORM_VECTORS }
    fn pname(&self) -> (e: Enum) { MAX_FRAGMENT_UNIFORM_VECTORS }
}
impl GetQuery for MaxCubeMapTextureSize {
    open spec fn pname_spec(&self) -> Enum { MAX_CUBE_MAP_TEXTURE_SIZE }
    fn pname(&self) -> (e: Enum) { MAX_CUBE_MAP_TEXTURE_SIZE }
}
impl GetQuery for MaxRenderBufferSize {
    open spec fn pname_spec(&self) -> Enum { MAX_RENDER_BUFFER_SIZE }
    fn pname(&self) -> (e: Enum) { MAX_RENDER_BUFFER_SIZE }
}
impl GetQuery for MaxTextureSize {
    open spec fn pname_spec(&self) -> Enum { MAX_TEXTURE_SIZE }
    fn pname(&self) -> (e: Enum) { MAX_TEXTURE_SIZE }
}
impl GetQuery for MaxColorAttachments {
    open spec fn pname_spec(&self) -> Enum { MAX_COLOR_ATTACHMENTS }
    fn pname(&self) -> (e: Enum) { MAX_COLOR_ATTACHMENTS }
}
impl GetQuery for Vendor {
    open spec fn pname_spec(&self) -> Enum { VENDOR }
    fn pname(&self) -> (e: Enum) { VENDOR }
}
impl GetQuery for Extensions {
    open spec fn pname_spec(&self) -> Enum { EXTENSIONS }
    fn pname(&self) -> (e: Enum) { EXTENSIONS }
}
impl GetQuery for Renderer {
    open spec fn pname_spec(&self) -> Enum { RENDERER }
    fn pname(&self) -> (e: Enum) { RENDERER }
}
impl GetQuery for Version {
    open spec fn pname_spec(&self) -> Enum { VERSION }
    fn pname(&self) -> (e: Enum) { VERSION }
}
impl GetQuery for ShadingLanguageVersion {
    open spec fn pname_spec(&self) -> Enum { SHADING_LANGUAGE_VERSION }
    fn pname(&self) -> (e: Enum) { SHADING_LANGUAGE_VERSION }
}

/// The extension names of a context: its space separated `EXTENSIONS`
/// string, split at each space.
pub fn split_extensions(all: &[u8]) -> (parts: Vec<Vec<u8>>)
    ensures
        parts@.len() >= 1,
        forall|i: int| 0 <= i < parts@.len() ==> !parts@[i]@.contains(32u8),
        flatten_with_spaces(parts@.map_values(|p: Vec<u8>| p@)) == all@,
{
    let mut parts: Vec<Vec<u8>> = Vec::new();
    let mut cur: Vec<u8> = Vec::new();
    let mut i: usize = 0;
    while i < all.len()
        invariant
            i <= all@.len(),
            !cur@.contains(32u8),
            forall|j: int| 0 <= j < parts@.len() ==> !parts@[j]@.contains(32u8),
            flatten_with_spaces(parts@.map_values(|p: Vec<u8>| p@).push(cur@)) == all@.subrange(0, i as int),
        decreases all@.len() - i,
    {
        let c = all[i];
        if c == 32u8 {
            let ghost before = parts@.map_values(|p: Vec<u8>| p@).push(cur@);
            parts.push(cur);
            cur = Vec::new();
            proof {
                lemma_flatten_push_empty(before);
                assert(parts@.map_values(|p: Vec<u8>| p@) == before);
                assert(all@.subrange(0, i + 1) == all@.subrange(0, i as int).push(32u8));
                assert(cur@ == Seq::<u8>::empty());
            }
        } else {
            let ghost prefix = parts@.map_values(|p: Vec<u8>| p@);
            let ghost old_cur = cur@;
            cur.push(c);
            proof {
                lemma_flatten_extend_last(prefix, old_cur, c);
                assert(all@.subrange(0, i + 1) == all@.subrange(0, i as int).push(c));
                assert forall|k: int| 0 <= k < cur@.len() implies cur@[k] != 32u8 by {
                    if k < old_cur.len() { assert(cur@[k] == old_cur[k]); }
                }
            }
        }
        i = i + 1;
    }
    let ghost prefix = parts@.map_values(|p: Vec<u8>| p@);
    parts.push(cur);
    proof {
        assert(parts@.map_values(|p: Vec<u8>| p@) == prefix.push(cur@));
        assert(all@.subrange(0, all@.len() as int) == all@);
    }
    parts
}

/// Pieces joined with a space between each two.
pub open spec fn flatten_with_spaces(parts: Seq<Seq<u8>>) -> Seq<u8>
    decreases parts.len(),
{
    if parts.len() == 0 {
        Seq::empty()
    } else if parts.len() == 1 {
        parts[0]
    } else {
        flatten_with_spaces(parts.drop_last()) + seq![32u8] + parts.last()
    }
}

proof fn lemma_flatten_push_empty(parts: Seq<Seq<u8>>)
    requires parts.len() >= 1,
    ensures flatten_with_spaces(parts.push(Seq::empty())) == flatten_with_spaces(parts).push(32u8),
{
    let p = parts.push(Seq::<u8>::empty());
    assert(p.drop_last() == parts);
    assert(flatten_with_spaces(parts) + seq![32u8] + Seq::<u8>::empty() == flatten_with_spaces(parts).push(32u8));
}

proof fn lemma_flatten_extend_last(prefix: Seq<Seq<u8>>, last: Seq<u8>, c: u8)
    ensures
        flatten_with_spaces(prefix.push(last.push(c))) == flatten_with_spaces(prefix.push(last)).push(c),
{
    let a = prefix.push(last.push(c));
    let b = prefix.push(last);
    assert(a.drop_last() == prefix);
    assert(b.drop_last() == prefix);
    if prefix.len() == 0 {
        assert(a[0] == last.push(c));
        assert(b[0] == last);
    } else {
        assert(flatten_with_spaces(prefix) + seq![32u8] + last.push(c)
            == (flatten_with_spaces(prefix) + seq![32u8] + last).push(c));
    }
}

impl Context3d {
    /// The name of the value a query asks the GL for.
    pub fn get<T: GetQuery>(&self, query: &T) -> (e: Enum)
        ensures e == query.pname_spec(),
    {
        query.pname()
    }

    /// Shows what was drawn: `reply` is the code of
    /// `PPB_Graphics3D::SwapBuffers(self, callback)`; the callback runs when
    /// the next frame can be drawn.
    pub fn swap_buffers(&self, reply: i32) -> (c: Code)
        requires is_known_code(reply),
        ensures c == code_of(reply),
    {
        Code::from_i32(reply)
    }
}

impl Instance {
    /// The context a new one shares its objects with, by handle: the null
    /// handle for none.
    pub fn share_handle(share_with: Option<Context3d>) -> (h: PP_Resource)
        ensures h == match share_with { Some(c) => c.0, None => 0 },
    {
        match share_with {
            Some(c) => c.unwrap(),
            None => 0,
        }
    }

    /// A new 3D context: `created` is the handle that
    /// `PPB_Graphics3D::Create(self, share, attributes)` returned, null when
    /// it failed. The attributes are `context_attrib_list` of those asked
    /// for.
    pub fn create_3d_context(&self, created: PP_Resource) -> (r: Result<Context3d, Code>)
        ensures
            created == 0 ==> r == Err::<Context3d, Code>(Code::Failed),
            created != 0 ==> r == Ok::<Context3d, Code>(Context3d(created)),
    {
        if created == 0 { Err(Code::Failed) } else { Ok(Context3d::new(created)) }
    }
}

/// The call that deletes a buffer object: one name, by the kind of the
/// object.
pub open spec fn drop_call(b: BufferObject) -> GlCall {
    match b {
        BufferObject::Vertex(v) => GlCall::DeleteBuffers(1, v.0),
        BufferObject::Index(v) => GlCall::DeleteBuffers(1, v.0),
        BufferObject::Texture(v) => GlCall::DeleteTextures(1, v.0),
        BufferObject::Frame(v) => GlCall::DeleteFramebuffers(1, v.0),
        BufferObject::Render(v) => GlCall::DeleteRenderbuffers(1, v.0),
    }
}

impl BufferObject {
    /// The call that deletes the object.
    pub fn drop_buffer(self) -> (c: GlCall)
        ensures c == drop_call(self),
    {
        match self {
            BufferObject::Vertex(v) => GlCall::DeleteBuffers(1, v.0),
            BufferObject::Index(v) => GlCall::DeleteBuffers(1, v.0),
            BufferObject::Texture(v) => GlCall::DeleteTextures(1, v.0),
            BufferObject::Frame(v) => GlCall::DeleteFramebuffers(1, v.0),
            BufferObject::Render(v) => GlCall::DeleteRenderbuffers(1, v.0),
        }
    }
}

/// Blending is set up by exactly the calls its description asks for, each
/// with its values in the order given: the constant color as
/// `BlendColor(red, green, blue, alpha)`, one pair of factors as
/// `BlendFunc(source, destination)`, separate factors as
/// `BlendFuncSeparate(source RGB, destination RGB, source alpha,
/// destination alpha)`, and the equations likewise; nothing else. The color
/// comes first and the equations last.
pub proof fn lemma_blend_calls_follow_the_description(b: Blending, c: GlCall)
    ensures
        blend_calls(b).contains(c) <==> (match c {
            GlCall::BlendColor(r, g, bl, a) => b.color == Some((r, g, bl, a)),
            GlCall::BlendFunc(s, d) => b.fun == Some(BlendingFun_::BlendingFun(s, d)),
            GlCall::BlendFuncSeparate(sr, dr, sa, da) => b.fun == Some(BlendingFun_::BlendingFunSep(sr, dr, sa, da)),
            GlCall::BlendEquation(m) => b.eq == Some(BlendingEq_::BlendingEq(m)),
            GlCall::BlendEquationSeparate(mr, ma) => b.eq == Some(BlendingEq_::BlendingEqSep(mr, ma)),
            _ => false,
        }),
        blend_calls(b).len() == (if b.color is Some { 1int } else { 0int })
            + (if b.fun is Some { 1int } else { 0int }) + (if b.eq is Some { 1int } else { 0int }),
        b.color is Some ==> blend_calls(b)[0] is BlendColor,
        b.eq is Some ==> (blend_calls(b).last() is BlendEquation || blend_calls(b).last() is BlendEquationSeparate),
{
    let s = blend_calls(b);
    if s.contains(c) {
        let k = choose|k: int| 0 <= k < s.len() && s[k] == c;
        assert(s[k] == c);
    }
    match c {
        GlCall::BlendColor(r, g, bl, a) => {
            if b.color == Some((r, g, bl, a)) { assert(s[0] == c); }
        },
        GlCall::BlendFunc(x, y) => {
            if b.fun == Some(BlendingFun_::BlendingFun(x, y)) {
                let k: int = if b.color is Some { 1 } else { 0 };
                assert(s[k] == c);
            }
        },
        GlCall::BlendFuncSeparate(sr, dr, sa, da) => {
            if b.fun == Some(BlendingFun_::BlendingFunSep(sr, dr, sa, da)) {
                let k: int = if b.color is Some { 1 } else { 0 };
                assert(s[k] == c);
            }
        },
        GlCall::BlendEquation(m) => {
            if b.eq == Some(BlendingEq_::BlendingEq(m)) { assert(s[s.len() - 1] == c); }
        },
        GlCall::BlendEquationSeparate(mr, ma) => {
            if b.eq == Some(BlendingEq_::BlendingEqSep(mr, ma)) { assert(s[s.len() - 1] == c); }
        },
        _ => {},
    }
}

/// Each attribute is sent under the browser's name for its own kind, with
/// its value's bits: a pair names, say, the blue channel's size exactly when
/// the attribute is a blue size.
pub proof fn lemma_attrib_names_their_kind(a: Context3dAttrib)
    ensures
        attrib_pair(a).0 == ffi::PP_GRAPHICS3DATTRIB_WIDTH <==> a is Width,
        attrib_pair(a).0 == ffi::PP_GRAPHICS3DATTRIB_HEIGHT <==> a is Height,
        attrib_pair(a).0 == ffi::PP_GRAPHICS3DATTRIB_ALPHA_SIZE <==> a is AlphaSize,
        attrib_pair(a).0 == ffi::PP_GRAPHICS3DATTRIB_RED_SIZE <==> a is RedSize,
        attrib_pair(a).0 == ffi::PP_GRAPHICS3DATTRIB_BLUE_SIZE <==> a is BlueSize,
        attrib_pair(a).0 == ffi::PP_GRAPHICS3DATTRIB_GREEN_SIZE <==> a is GreenSize,
        attrib_pair(a).0 == ffi::PP_GRAPHICS3DATTRIB_DEPTH_SIZE <==> a is DepthSize,
        attrib_pair(a).0 == ffi::PP_GRAPHICS3DATTRIB_STENCIL_SIZE <==> a is StencilSize,
        attrib_pair(a).0 == ffi::PP_GRAPHICS3DATTRIB_SAMPLES <==> a is Samples,
        attrib_pair(a).0 == ffi::PP_GRAPHICS3DATTRIB_SAMPLE_BUFFERS <==> a is SampleBuffers,
        attrib_pair(a).0 == ffi::PP_GRAPHICS3DATTRIB_SWAP_BEHAVIOR <==> a is SwapBehaviour,
        attrib_pair(a).0 != ffi::PP_GRAPHICS3DATTRIB_NONE,
        attrib_pair(a).1 == (match a {
            Context3dAttrib::Width(v) => v,
            Context3dAttrib::Height(v) => v,
            Context3dAttrib::AlphaSize(v) => v,
            Context3dAttrib::RedSize(v) => v,
            Context3dAttrib::BlueSize(v) => v,
            Context3dAttrib::GreenSize(v) => v,
            Context3dAttrib::DepthSize(v) => v,
            Context3dAttrib::StencilSize(v) => v,
            Context3dAttrib::Samples(v) => v,
            Context3dAttrib::SampleBuffers(v) => v,
            Context3dAttrib::SwapBehaviour(v) => v,
        }) as i32,
{
}

/// A context's attribute list holds each attribute, in order, as its pair,
/// and ends with the one closing pair of `NONE`s.
pub proof fn lemma_attrib_list_in_order(attribs: Seq<Context3dAttrib>, k: int)
    ensures
        attrib_list(attribs).len() == attribs.len() + 1,
        0 <= k < attribs.len() ==> attrib_list(attribs)[k] == attrib_pair(attribs[k]),
        attrib_list(attribs)[attribs.len() as int] == (ffi::PP_GRAPHICS3DATTRIB_NONE, ffi::PP_GRAPHICS3DATTRIB_NONE),
{
}

/// Each value is given to the browser under the name of its own kind, and
/// no two kinds share a name.
pub proof fn lemma_bind_target_by_name(x: BufferType)
    ensures
        bind_target(x) == ARRAY_BUFFER <==> x is Vertex,
        bind_target(x) == ELEMENT_ARRAY_BUFFER <==> x is Index,
        bind_target(x) == TEXTURE_2D <==> x is Texture,
        bind_target(x) == FRAMEBUFFER <==> x is Frame,
        bind_target(x) == RENDERBUFFER <==> x is Render,
{
}

/// Each value is given to the browser under the name of its own kind, and
/// no two kinds share a name.
pub proof fn lemma_geometry_enum_by_name(x: GeometryMode)
    ensures
        geometry_enum(x) == POINTS <==> x is Points,
        geometry_enum(x) == LINE_STRIP <==> x is LineStrip,
        geometry_enum(x) == LINE_LOOP <==> x is LineLoop,
        geometry_enum(x) == LINES <==> x is Lines,
        geometry_enum(x) == TRIANGLE_STRIP <==> x is TriangleStrip,
        geometry_enum(x) == TRIANGLE_FAN <==> x is TriangleFan,
        geometry_enum(x) == TRIANGLES <==> x is Triangle,
{
}

/// Each value is given to the browser under the name of its own kind, and
/// no two kinds share a name.
pub proof fn lemma_vertex_attrib_enum_by_name(x: VertexAttribType)
    ensures
        vertex_attrib_enum(x) == BYTE <==> x is Byte,
        vertex_attrib_enum(x) == UNSIGNED_BYTE <==> x is UByte,
        vertex_attrib_enum(x) == SHORT <==> x is Short,
        vertex_attrib_enum(x) == UNSIGNED_SHORT <==> x is UShort,
        vertex_attrib_enum(x) == FLOAT <==> x is Float,
{
}

/// Each value is given to the browser under the name of its own kind, and
/// no two kinds share a name.
pub proof fn lemma_tex_format_enum_by_name(x: TexFormat)
    ensures
        tex_format_enum(x) == ALPHA <==> x is Alpha,
        tex_format_enum(x) == RGB <==> x is Rgb,
        tex_format_enum(x) == RGBA <==> x is Rgba,
{
}

/// A vertex attribute's element takes as many bytes as its type holds:
/// one for bytes, two for shorts, four for floats; a texel takes one byte
/// per channel: one for alpha, three for RGB, four for RGBA.
pub proof fn lemma_element_sizes_by_type(t: VertexAttribType, f: TexFormat)
    ensures
        vertex_attrib_size(t) == 1 <==> (t is Byte || t is UByte),
        vertex_attrib_size(t) == 2 <==> (t is Short || t is UShort),
        vertex_attrib_size(t) == 4 <==> t is Float,
        tex_format_len(f) == 1 <==> f is Alpha,
        tex_format_len(f) == 3 <==> f is Rgb,
        tex_format_len(f) == 4 <==> f is Rgba,
{
}

} // verus!
