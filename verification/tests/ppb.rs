use ppapi::code::Code;
use ppapi::ffi;
use ppapi::ppb::{
    interface_ids, InterfaceId, Interfaces, Struct_PPB_Graphics3D_1_0, Struct_PPB_ImageData_1_0,
    Struct_PPB_URLLoader_1_0, Struct_PPB_URLRequestInfo_1_0, Struct_PPB_Var_1_1, Struct_PPB_VarArrayBuffer_1_0,
    INTERFACE_COUNT,
};

#[test]
fn interface_table_lookup() {
    let ids = interface_ids();
    assert_eq!(ids.len(), INTERFACE_COUNT);
    for (i, id) in ids.iter().enumerate() {
        assert_eq!(id.index(), i);
    }
    let mut found = vec![0u64; INTERFACE_COUNT];
    found[InterfaceId::Var.index()] = 0x1000;
    let t = Interfaces::initialize_globals(found);
    assert_eq!(t.get(InterfaceId::Var), 0x1000);
    assert_eq!(t.get_opt(InterfaceId::Var), Some(0x1000));
    assert_eq!(t.get_opt(InterfaceId::Core), None);
}

#[test]
fn interface_names() {
    assert_eq!(InterfaceId::Var.name(), "PPB_Var;1.1\0");
    assert_eq!(InterfaceId::FontDev.name(), "PPB_Font(Dev);0.6\0");
    assert_eq!(InterfaceId::VideoDecoder.name(), "PPB_VideoDecoder;1.0\0");
}

#[test]
fn graphics3d_attribute_query() {
    let g = Struct_PPB_Graphics3D_1_0;
    let q = g.attrib_query(&[ffi::PP_GRAPHICS3DATTRIB_WIDTH, ffi::PP_GRAPHICS3DATTRIB_HEIGHT]);
    assert_eq!(q, vec![ffi::PP_GRAPHICS3DATTRIB_WIDTH, 0, ffi::PP_GRAPHICS3DATTRIB_HEIGHT, 0, ffi::PP_GRAPHICS3DATTRIB_NONE]);
    let filled = vec![ffi::PP_GRAPHICS3DATTRIB_WIDTH, 640, ffi::PP_GRAPHICS3DATTRIB_HEIGHT, 480, ffi::PP_GRAPHICS3DATTRIB_NONE];
    assert_eq!(g.attribs(&filled, ffi::PP_OK), Ok(vec![640, 480]));
    assert_eq!(g.attribs(&filled, ffi::PP_ERROR_BADRESOURCE), Err(Code::BadResource));
    assert_eq!(g.set_attribs(vec![1, 2]), vec![1, 2, ffi::PP_GRAPHICS3DATTRIB_NONE]);
    assert_eq!(g.attrib_max_value(ffi::PP_OK, 16), Ok(16));
    assert_eq!(g.attrib_max_value(ffi::PP_ERROR_FAILED, 16), Err(Code::Failed));
}

#[test]
fn interface_answers() {
    assert_eq!(Struct_PPB_ImageData_1_0.create(0), None);
    assert_eq!(Struct_PPB_ImageData_1_0.create(4), Some(4));
    assert_eq!(Struct_PPB_URLLoader_1_0.open(ffi::PP_OK_COMPLETIONPENDING), Ok(()));
    assert_eq!(Struct_PPB_URLLoader_1_0.open(ffi::PP_ERROR_NOACCESS), Err(Code::NoAccess));
    let r = Struct_PPB_URLRequestInfo_1_0;
    assert_eq!(r.append_file_to_body(None, None, None), (0, -1, 0));
    assert_eq!(r.append_file_to_body(Some(3), Some(9), Some(77)), (3, 9, 77));
    assert_eq!(r.append_blob_to_body(&vec![1, 2, 3]), 3);
    assert_eq!(Struct_PPB_Var_1_1.var_from_utf8("héllo"), 6);
    assert_eq!(Struct_PPB_VarArrayBuffer_1_0.byte_len(1, 12), Some(12));
    assert_eq!(Struct_PPB_VarArrayBuffer_1_0.byte_len(0, 12), None);
}
