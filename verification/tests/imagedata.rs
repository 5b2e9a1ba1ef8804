use ppapi::ffi;
use ppapi::ffi::{PP_ImageDataDesc, PP_Size};
use ppapi::imagedata::{native_image_data_format, Format, ImageData, MapImpl, MappedSlice};
use ppapi::instance::Instance;

#[test]
fn format_roundtrips() {
    assert_eq!(Format::from_ffi(Format::BGRA.to_ffi()), Format::BGRA);
    assert_eq!(Format::from_ffi(Format::RGBA.to_ffi()), Format::RGBA);
    assert_eq!(Format::RGBA.to_ffi(), ffi::PP_IMAGEDATAFORMAT_RGBA_PREMUL);
    assert_eq!(native_image_data_format(ffi::PP_IMAGEDATAFORMAT_BGRA_PREMUL), Format::BGRA);
    assert!(Format::BGRA.is_supported(1));
    assert!(!Format::BGRA.is_supported(0));
}

#[test]
fn image_format_prefers_the_asked_one() {
    assert_eq!(Instance::image_format(Some(Format::RGBA), ffi::PP_IMAGEDATAFORMAT_BGRA_PREMUL), ffi::PP_IMAGEDATAFORMAT_RGBA_PREMUL);
    assert_eq!(Instance::image_format(None, ffi::PP_IMAGEDATAFORMAT_BGRA_PREMUL), ffi::PP_IMAGEDATAFORMAT_BGRA_PREMUL);
    let inst = Instance::new(3);
    assert_eq!(inst.create_image(0), None);
    assert_eq!(inst.create_image(8), Some(ImageData(8)));
}

#[test]
fn describe_and_map_image() {
    let img = ImageData::new(4);
    let raw = PP_ImageDataDesc { format: ffi::PP_IMAGEDATAFORMAT_RGBA_PREMUL, size: PP_Size { width: 2, height: 3 }, stride: 12 };
    assert!(img.describe(0, raw).is_none());
    let d = img.describe(1, raw).unwrap();
    assert_eq!(d.format, Format::RGBA);
    assert_eq!(d.size.width, 2);
    assert_eq!(d.size.height, 3);
    assert_eq!(d.line_stride, 12);
    assert_eq!(d.byte_len(), 36);
    let bytes: Vec<u8> = (0..40u8).collect();
    let m = img.map(d, bytes);
    let pixels = m.as_imm_slice();
    assert_eq!(pixels.len(), 36);
    assert_eq!(pixels[35], 35);
}

#[test]
fn mapped_pixels_are_handed_to_code() {
    let img = ImageData::new(4);
    let raw = PP_ImageDataDesc { format: ffi::PP_IMAGEDATAFORMAT_BGRA_PREMUL, size: PP_Size { width: 1, height: 2 }, stride: 4 };
    let d = img.describe(1, raw).unwrap();
    let m = img.map(d, vec![9u8; 10]);
    let (len, height) = m.with_imm_vec(|p, desc| (p.len(), desc.size.height));
    assert_eq!((len, height), (8, 2));
}
