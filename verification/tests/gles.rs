use ppapi::gles::{BoundBuffer, Buffer, IndexBuffer};
use ppapi::ffi::{PP_Point, PP_Rect, PP_Size};
use ppapi::gles::{
    context_attrib_list, split_extensions, Blending, BlendingEq_, BlendingFun_, BufferData, BufferObject,
    Context3d, Context3dAttrib, GlCall, MaxTextureSize, ShaderProgram, TextureBuffer, VertexBuffer,
};
use ppapi::instance::Instance;
use ppapi::code::Code;

#[test]
fn blend_calls_in_order() {
    let ctx = Context3d::new(1);
    let b = Blending {
        color: Some((1, 2, 3, 4)),
        fun: Some(BlendingFun_::BlendingFun(5, 6)),
        eq: Some(BlendingEq_::BlendingEqSep(7, 8)),
    };
    assert_eq!(ctx.blend(&b), vec![
        GlCall::BlendColor(1, 2, 3, 4),
        GlCall::BlendFunc(5, 6),
        GlCall::BlendEquationSeparate(7, 8),
    ]);
    let none = Blending { color: None, fun: None, eq: None };
    assert!(ctx.blend(&none).is_empty());
}

#[test]
fn attrib_list_ends_with_none_pair() {
    let l = context_attrib_list(&[Context3dAttrib::Width(640), Context3dAttrib::Height(480)]);
    assert_eq!(l.len(), 3);
    assert_eq!(l[0], Context3dAttrib::Width(640).to_ffi());
    assert_eq!(l[2], (ppapi::ffi::PP_GRAPHICS3DATTRIB_NONE, ppapi::ffi::PP_GRAPHICS3DATTRIB_NONE));
}

#[test]
fn viewport_and_texture_slot() {
    let ctx = Context3d::new(1);
    let r = PP_Rect { point: PP_Point { x: 1, y: 2 }, size: PP_Size { width: 3, height: 4 } };
    assert_eq!(ctx.viewport(r), GlCall::Viewport(1, 2, 3, 4));
    assert_eq!(ctx.activate_tex_slot(2), GlCall::ActiveTexture(ppapi::gles::TEXTURE0 + 2));
}

#[test]
fn extensions_split_on_spaces() {
    let parts = split_extensions(b"GL_A GL_B  GL_C");
    assert_eq!(parts, vec![b"GL_A".to_vec(), b"GL_B".to_vec(), Vec::new(), b"GL_C".to_vec()]);
    assert_eq!(split_extensions(b""), vec![Vec::<u8>::new()]);
}

#[test]
fn buffer_data_length() {
    assert_eq!(BufferData::Fill(vec![0; 10]).byte_len(), 10);
    assert_eq!(BufferData::Empty(4, 3).byte_len(), 12);
}

#[test]
fn create_3d_context_and_queries() {
    let inst = Instance::new(1);
    assert_eq!(inst.create_3d_context(0), Err(Code::Failed));
    assert_eq!(inst.create_3d_context(9), Ok(Context3d(9)));
    assert_eq!(Instance::share_handle(Some(Context3d(4))), 4);
    assert_eq!(Instance::share_handle(None), 0);
    let ctx = Context3d::new(9);
    assert_eq!(ctx.get(&MaxTextureSize), ppapi::gles::MAX_TEXTURE_SIZE);
    assert_eq!(ctx.swap_buffers(ppapi::ffi::PP_OK), Code::Success);
}

#[test]
fn shader_program_lifecycle() {
    let ctx = Context3d::new(1);
    let mut unlinked = ShaderProgram::new(ctx, 12);
    let (call, locus) = unlinked.bind_attrib_locus(3, b"pos");
    assert_eq!(call, GlCall::BindAttribLocation(12, 3, b"pos\0".to_vec()));
    assert_eq!(locus.0, 3);
    assert_eq!(unlinked.bind_attrib_locale(4, b"uv\0"), GlCall::BindAttribLocation(12, 4, b"uv\0".to_vec()));
    let (link, linking) = unlinked.link();
    assert_eq!(link, GlCall::LinkProgram(12));
    assert!(linking.results(0).is_err());
    let mut program = linking.results(1).unwrap();
    assert_eq!(program.uniform_locus(-1), None);
    assert_eq!(program.uniform_locale(5), Some(5));
    assert_eq!(program.uniform_locale(-1), None);
}

#[test]
fn dropping_buffers() {
    assert_eq!(BufferObject::Vertex(VertexBuffer(3)).drop_buffer(), GlCall::DeleteBuffers(1, 3));
    assert_eq!(BufferObject::Texture(TextureBuffer(4)).drop_buffer(), GlCall::DeleteTextures(1, 4));
}

#[test]
fn bound_buffer_keeps_its_kind() {
    assert_eq!(BoundBuffer(IndexBuffer(4)).to_object(), BufferObject::Index(IndexBuffer(4)));
}

#[test]
fn location_queries_hand_over_terminated_names() {
    let prog = ShaderProgram(9);
    assert_eq!(prog.uniform_location_call("tex"), GlCall::GetUniformLocation(9, b"tex\0".to_vec()));
    assert_eq!(prog.attr_location_call("pos"), GlCall::GetAttribLocation(9, b"pos\0".to_vec()));
    assert_eq!(prog.uniform_locus(-1), None);
    assert!(prog.uniform_locus(5).is_some());
}
