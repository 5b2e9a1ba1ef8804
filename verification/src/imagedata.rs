//! Images in browser memory: their formats and descriptions.
//!
//! Functions here that answer for a browser call take the browser's reply as
//! an argument; their documentation names the call.

use vstd::prelude::*;
use crate::ffi;
use crate::ffi::{PP_Bool, PP_ImageDataDesc, PP_ImageDataFormat, PP_Resource};
use crate::geometry::Size;
use crate::instance::Instance;
use crate::resource::{Resource, ResourceType, ToOption, handle_option};

verus! {

/// An image in browser memory.
#[derive(Clone, Copy, PartialEq, Eq, Structural, Debug, Hash)]
pub struct ImageData(pub PP_Resource);

impl ImageData {
    pub fn new(res: PP_Resource) -> (i: ImageData)
        ensures i.0 == res,
    {
        ImageData(res)
    }
}

impl Resource for ImageData {
    open spec fn res(&self) -> PP_Resource { self.0 }
    open spec fn kind(&self) -> ResourceType { ResourceType::ImageDataRes }
    fn unwrap(&self) -> (r: PP_Resource) { self.0 }
    fn type_of(&self) -> (t: ResourceType) { ResourceType::ImageDataRes }
}

impl ToOption<PP_Resource> for ImageData {
    fn to_option(from: &PP_Resource) -> (r: Option<ImageData>)
        ensures r == handle_option(*from, |h: PP_Resource| ImageData(h)),
    {
        if *from == 0 { None } else { Some(ImageData(*from)) }
    }
}

/// The pixel formats: four bytes a pixel, premultiplied alpha, in one of
/// two orders.
#[derive(Clone, Copy, PartialEq, Eq, Structural, Debug, Hash)]
pub enum Format {
    BGRA,
    RGBA,
}

pub open spec fn is_known_format(v: PP_ImageDataFormat) -> bool {
    v == ffi::PP_IMAGEDATAFORMAT_BGRA_PREMUL || v == ffi::PP_IMAGEDATAFORMAT_RGBA_PREMUL
}

pub open spec fn format_of(v: PP_ImageDataFormat) -> Format {
    if v == ffi::PP_IMAGEDATAFORMAT_BGRA_PREMUL { Format::BGRA } else { Format::RGBA }
}

pub open spec fn format_value(f: Format) -> PP_ImageDataFormat {
    match f {
        Format::BGRA => ffi::PP_IMAGEDATAFORMAT_BGRA_PREMUL,
        Format::RGBA => ffi::PP_IMAGEDATAFORMAT_RGBA_PREMUL,
    }
}

impl Format {
    /// The format a browser value names; other values are not formats.
    pub fn from_ffi(v: PP_ImageDataFormat) -> (f: Format)
        requires is_known_format(v),
        ensures f == format_of(v),
    {
        if v == ffi::PP_IMAGEDATAFORMAT_BGRA_PREMUL { Format::BGRA } else { Format::RGBA }
    }

    pub fn to_ffi(&self) -> (v: PP_ImageDataFormat)
        ensures v == format_value(*self),
    {
        match *self {
            Format::BGRA => ffi::PP_IMAGEDATAFORMAT_BGRA_PREMUL,
            Format::RGBA => ffi::PP_IMAGEDATAFORMAT_RGBA_PREMUL,
        }
    }

    /// Whether the browser can hold images in the format: `reply` is the
    /// answer of `PPB_ImageData::IsImageDataFormatSupported(format)`.
    pub fn is_supported(&self, reply: PP_Bool) -> (b: bool)
        ensures b == (reply != 0),
    {
        reply != 0
    }
}

/// A format given to the browser and read back is the same format, and a
/// known value read and given back is the same value.
pub proof fn lemma_format_roundtrip(f: Format, v: PP_ImageDataFormat)
    ensures
        is_known_format(format_value(f)),
        format_of(format_value(f)) == f,
        is_known_format(v) ==> format_value(format_of(v)) == v,
{
}

/// The format the browser prefers: `reply` is the answer of
/// `PPB_ImageData::GetNativeImageDataFormat()`, always a known format.
pub fn native_image_data_format(reply: PP_ImageDataFormat) -> (f: Format)
    requires is_known_format(reply),
    ensures f == format_of(reply),
{
    Format::from_ffi(reply)
}

/// What an image is: its format, its size in pixels and the width of a row
/// in bytes, which may be more than four bytes a pixel.
#[derive(Clone, Copy, PartialEq, Eq, Structural, Debug)]
pub struct Description {
    pub format: Format,
    pub size: Size,
    pub line_stride: u32,
}

impl Description {
    /// A description as the browser filled it in; the bits of its signed
    /// sides and stride are read as unsigned.
    pub fn from_ffi(desc: PP_ImageDataDesc) -> (d: Description)
        requires is_known_format(desc.format),
        ensures
            d.format == format_of(desc.format),
            d.size.width == desc.size.width as u32,
            d.size.height == desc.size.height as u32,
            d.line_stride == desc.stride as u32,
    {
        Description {
            format: Format::from_ffi(desc.format),
            size: Size::from_ffi(desc.size),
            line_stride: desc.stride as u32,
        }
    }

    /// The number of bytes the image's pixels take: a stride for each row.
    pub fn byte_len(&self) -> (n: usize)
        requires self.size.height * self.line_stride <= u32::MAX,
        ensures n == self.size.height * self.line_stride,
    {
        (self.size.height * self.line_stride) as usize
    }
}

impl ImageData {
    /// What the image is: `found` and `desc` are the answer of
    /// `PPB_ImageData::Describe(self, &desc)` and what it filled in, whose
    /// format is a known one.
    pub fn describe(&self, found: PP_Bool, desc: PP_ImageDataDesc) -> (r: Option<Description>)
        requires found != 0 ==> is_known_format(desc.format),
        ensures
            found == 0 ==> r is None,
            found != 0 ==> (r matches Some(d) && d.format == format_of(desc.format)
                && d.size.width == desc.size.width as u32
                && d.size.height == desc.size.height as u32
                && d.line_stride == desc.stride as u32),
    {
        if found == 0 { None } else { Some(Description::from_ffi(desc)) }
    }

    /// The image mapped into memory: `desc` is its description, `bytes`
    /// what the browser's `PPB_ImageData::Map(self)` makes readable, of at
    /// least the image's length.
    pub fn map(&self, desc: Description, bytes: Vec<u8>) -> (m: MappedImage)
        requires
            desc.size.height * desc.line_stride <= u32::MAX,
            bytes.len() >= desc.size.height * desc.line_stride,
        ensures
            m.img == *self,
            m.desc == desc,
            m.bytes@ == bytes@,
    {
        MappedImage { img: *self, desc, bytes }
    }
}

/// The pixels of an image mapped into memory.
pub struct MappedImage {
    pub img: ImageData,
    pub desc: Description,
    pub bytes: Vec<u8>,
}

impl MappedImage {
    /// The image's bytes fit its description.
    pub open spec fn wf(&self) -> bool {
        &&& self.desc.size.height * self.desc.line_stride <= u32::MAX
        &&& self.bytes@.len() >= self.desc.size.height * self.desc.line_stride
    }
}

/// Reading the pixels of a mapped image.
pub trait MappedSlice {
    spec fn wf_mapped(&self) -> bool;
    spec fn pixels(&self) -> Seq<u8>;

    fn as_imm_slice(&self) -> (s: &[u8])
        requires self.wf_mapped(),
        ensures s@ == self.pixels(),
    ;
}

impl MappedSlice for MappedImage {
    open spec fn wf_mapped(&self) -> bool { self.wf() }

    /// The rows of the image, a stride each.
    open spec fn pixels(&self) -> Seq<u8> {
        self.bytes@.subrange(0, self.desc.size.height * self.desc.line_stride)
    }

    fn as_imm_slice(&self) -> (s: &[u8]) {
        let n = self.desc.byte_len();
        &self.bytes.as_slice()[0..n]
    }
}

/// Running code over the pixels of a mapped image.
pub trait MapImpl {
    spec fn wf_map(&self) -> bool;
    spec fn pixels_map(&self) -> Seq<u8>;
    spec fn desc_map(&self) -> Description;

    /// Runs `f` over the image's pixels (a stride for each row) and its
    /// description, and gives back what it gives.
    fn with_imm_vec<U, F: FnOnce(&[u8], &Description) -> U>(&self, f: F) -> (r: U)
        requires
            self.wf_map(),
            forall|p: &[u8], d: &Description| #[trigger] f.requires((p, d)),
        ensures
            exists|p: &[u8]| p@ == self.pixels_map() && #[trigger] f.ensures((p, &self.desc_map()), r),
    ;
}

impl MapImpl for MappedImage {
    open spec fn wf_map(&self) -> bool { self.wf() }
    open spec fn pixels_map(&self) -> Seq<u8> { self.pixels() }
    open spec fn desc_map(&self) -> Description { self.desc }

    fn with_imm_vec<U, F: FnOnce(&[u8], &Description) -> U>(&self, f: F) -> (r: U) {
        let pixels = self.as_imm_slice();
        let r = f(pixels, &self.desc);
        assert(pixels@ == self.pixels_map() && f.ensures((pixels, &self.desc_map()), r));
        r
    }
}

impl Instance {
    /// The format an image is created in: the one asked for, or the
    /// browser's preferred one, `native` (the answer of
    /// `PPB_ImageData::GetNativeImageDataFormat()`).
    pub fn image_format(format: Option<Format>, native: PP_ImageDataFormat) -> (v: PP_ImageDataFormat)
        requires is_known_format(native),
        ensures
            v == match format {
                Some(f) => format_value(f),
                None => native,
            },
            is_known_format(v),
    {
        let f = match format {
            Some(f) => f,
            None => native_image_data_format(native),
        };
        f.to_ffi()
    }

    /// A new image: `created` is the handle that the browser's
    /// `PPB_ImageData::Create(self, format, &size, init_to_zero)` returned,
    /// the null handle when it failed.
    pub fn create_image(&self, created: PP_Resource) -> (r: Option<ImageData>)
        ensures r == handle_option(created, |h: PP_Resource| ImageData(h)),
    {
        ImageData::to_option(&created)
    }
}

/// Each value is given to the browser under the name of its own kind, and
/// no two kinds share a name.
pub proof fn lemma_format_value_by_name(x: Format)
    ensures
        format_value(x) == ffi::PP_IMAGEDATAFORMAT_BGRA_PREMUL <==> x is BGRA,
        format_value(x) == ffi::PP_IMAGEDATAFORMAT_RGBA_PREMUL <==> x is RGBA,
{
}

} // verus!
