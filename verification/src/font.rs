//! Fonts: families, weights, descriptions, and what the font interface
//! answers about text.
//!
//! Functions here that answer for a browser call take the browser's reply as
//! an argument; their documentation names the call.

use vstd::prelude::*;
use crate::ffi;
use crate::ffi::{PP_Bool, PP_FontDescription_Dev, PP_FontFamily_Dev, PP_FontMetrics_Dev,
    PP_FontWeight_Dev, PP_Resource, PP_TextRun_Dev, ToFFIBool, ffi_bool};
use crate::resource::{Resource, ResourceType, ToOption, handle_option};
use crate::ffi::{PP_Point, PP_Rect};
use crate::imagedata::ImageData;
use crate::var::{StringVar, ToVar};
use crate::input::{is_text_slice, text_slice};
use crate::instance::Instance;
use vstd::utf8::{encode_utf8, valid_utf8, is_char_boundary};
use vstd::string::StringSliceAdditionalSpecFns;

verus! {

/// The generic font families.
#[derive(Clone, Copy, PartialEq, Eq, Structural, Debug, Hash)]
pub enum Family {
    DefaultFamily,
    SerifFamily,
    SansSerifFamily,
    MonospaceFamily,
}

/// The family values the browser uses.
pub open spec fn is_known_family(v: PP_FontFamily_Dev) -> bool {
    ||| v == ffi::PP_FONTFAMILY_DEFAULT
    ||| v == ffi::PP_FONTFAMILY_SERIF
    ||| v == ffi::PP_FONTFAMILY_SANSSERIF
    ||| v == ffi::PP_FONTFAMILY_MONOSPACE
}

pub open spec fn family_of(v: PP_FontFamily_Dev) -> Family {
    if v == ffi::PP_FONTFAMILY_DEFAULT { Family::DefaultFamily }
    else if v == ffi::PP_FONTFAMILY_SERIF { Family::SerifFamily }
    else if v == ffi::PP_FONTFAMILY_SANSSERIF { Family::SansSerifFamily }
    else { Family::MonospaceFamily }
}

pub open spec fn family_value(f: Family) -> PP_FontFamily_Dev {
    match f {
        Family::DefaultFamily => ffi::PP_FONTFAMILY_DEFAULT,
        Family::SerifFamily => ffi::PP_FONTFAMILY_SERIF,
        Family::SansSerifFamily => ffi::PP_FONTFAMILY_SANSSERIF,
        Family::MonospaceFamily => ffi::PP_FONTFAMILY_MONOSPACE,
    }
}

impl Family {
    /// The family a browser value names; other values are not families.
    pub fn new_from_ffi(v: PP_FontFamily_Dev) -> (f: Family)
        requires is_known_family(v),
        ensures f == family_of(v),
    {
        if v == ffi::PP_FONTFAMILY_DEFAULT {
            Family::DefaultFamily
        } else if v == ffi::PP_FONTFAMILY_SERIF {
            Family::SerifFamily
        } else if v == ffi::PP_FONTFAMILY_SANSSERIF {
            Family::SansSerifFamily
        } else {
            Family::MonospaceFamily
        }
    }

    pub fn to_ffi(&self) -> (v: PP_FontFamily_Dev)
        ensures v == family_value(*self),
    {
        match self {
            Family::DefaultFamily => ffi::PP_FONTFAMILY_DEFAULT,
            Family::SerifFamily => ffi::PP_FONTFAMILY_SERIF,
            Family::SansSerifFamily => ffi::PP_FONTFAMILY_SANSSERIF,
            Family::MonospaceFamily => ffi::PP_FONTFAMILY_MONOSPACE,
        }
    }
}

/// A family read back from the value it is given as is the family itself,
/// and a known browser value read as a family gives the same value back.
pub proof fn lemma_family_roundtrip(f: Family, v: PP_FontFamily_Dev)
    ensures
        is_known_family(family_value(f)),
        family_of(family_value(f)) == f,
        is_known_family(v) ==> family_value(family_of(v)) == v,
{
}

/// Font weights: a numeric weight, or the named normal and bold weights.
#[derive(Clone, Copy, PartialEq, Eq, Structural, Debug, Hash)]
pub enum Weight {
    ValueWeight(u16),
    NormalWeight,
    BoldWeight,
}

/// The weight values the browser uses: the nine steps from 100 to 900.
pub open spec fn is_known_weight(v: PP_FontWeight_Dev) -> bool {
    ffi::PP_FONTWEIGHT_100 <= v <= ffi::PP_FONTWEIGHT_900
}

/// How a browser weight value reads: 400 is the normal weight, 700 bold,
/// the other steps their number.
pub open spec fn weight_of(v: PP_FontWeight_Dev) -> Weight {
    if v == ffi::PP_FONTWEIGHT_400 { Weight::NormalWeight }
    else if v == ffi::PP_FONTWEIGHT_700 { Weight::BoldWeight }
    else { Weight::ValueWeight(((v + 1) * 100) as u16) }
}

/// The step a numeric weight falls in: the least multiple of 100 that is at
/// least the weight, from 100 up to 900.
pub open spec fn weight_step(n: u16) -> PP_FontWeight_Dev {
    if n <= 100 { ffi::PP_FONTWEIGHT_100 }
    else if n <= 200 { ffi::PP_FONTWEIGHT_200 }
    else if n <= 300 { ffi::PP_FONTWEIGHT_300 }
    else if n <= 400 { ffi::PP_FONTWEIGHT_400 }
    else if n <= 500 { ffi::PP_FONTWEIGHT_500 }
    else if n <= 600 { ffi::PP_FONTWEIGHT_600 }
    else if n <= 700 { ffi::PP_FONTWEIGHT_700 }
    else if n <= 800 { ffi::PP_FONTWEIGHT_800 }
    else { ffi::PP_FONTWEIGHT_900 }
}

pub open spec fn weight_value(w: Weight) -> PP_FontWeight_Dev {
    match w {
        Weight::ValueWeight(n) => weight_step(n),
        Weight::NormalWeight => ffi::PP_FONTWEIGHT_400,
        Weight::BoldWeight => ffi::PP_FONTWEIGHT_700,
    }
}

impl Weight {
    /// The weight a browser value names; other values are not weights.
    pub fn new_from_ffi(v: PP_FontWeight_Dev) -> (w: Weight)
        requires is_known_weight(v),
        ensures w == weight_of(v),
    {
        if v == ffi::PP_FONTWEIGHT_100 {
            Weight::ValueWeight(100)
        } else if v == ffi::PP_FONTWEIGHT_200 {
            Weight::ValueWeight(200)
        } else if v == ffi::PP_FONTWEIGHT_300 {
            Weight::ValueWeight(300)
        } else if v == ffi::PP_FONTWEIGHT_400 {
            Weight::NormalWeight
        } else if v == ffi::PP_FONTWEIGHT_500 {
            Weight::ValueWeight(500)
        } else if v == ffi::PP_FONTWEIGHT_600 {
            Weight::ValueWeight(600)
        } else if v == ffi::PP_FONTWEIGHT_700 {
            Weight::BoldWeight
        } else if v == ffi::PP_FONTWEIGHT_800 {
            Weight::ValueWeight(800)
        } else {
            Weight::ValueWeight(900)
        }
    }

    /// The browser value of a weight: numeric weights go up to the next
    /// step.
    pub fn to_ffi(&self) -> (v: PP_FontWeight_Dev)
        ensures v == weight_value(*self),
    {
        match *self {
            Weight::ValueWeight(n) => {
                if n <= 100 {
                    ffi::PP_FONTWEIGHT_100
                } else if n <= 200 {
                    ffi::PP_FONTWEIGHT_200
                } else if n <= 300 {
                    ffi::PP_FONTWEIGHT_300
                } else if n <= 400 {
                    ffi::PP_FONTWEIGHT_400
                } else if n <= 500 {
                    ffi::PP_FONTWEIGHT_500
                } else if n <= 600 {
                    ffi::PP_FONTWEIGHT_600
                } else if n <= 700 {
                    ffi::PP_FONTWEIGHT_700
                } else if n <= 800 {
                    ffi::PP_FONTWEIGHT_800
                } else {
                    ffi::PP_FONTWEIGHT_900
                }
            },
            Weight::NormalWeight => ffi::PP_FONTWEIGHT_400,
            Weight::BoldWeight => ffi::PP_FONTWEIGHT_700,
        }
    }
}

/// Reading a known browser weight and giving it back yields the same value;
/// every weight is given as a known value; and giving a weight, reading it
/// and giving it again changes nothing.
pub proof fn lemma_weight_roundtrip(w: Weight, v: PP_FontWeight_Dev)
    ensures
        is_known_weight(weight_value(w)),
        is_known_weight(v) ==> weight_value(weight_of(v)) == v,
        weight_value(weight_of(weight_value(w))) == weight_value(w),
{
}

/// Numeric weights keep their order when given to the browser.
pub proof fn lemma_weight_step_monotone(a: u16, b: u16)
    requires a <= b,
    ensures weight_step(a) <= weight_step(b),
{
}

/// The measures of a font as the browser gives them.
pub type Metrics = PP_FontMetrics_Dev;

/// What a font is: its face name (if any), family, size, weight, style and
/// spacing.
#[derive(Clone, Copy, PartialEq, Eq, Structural, Debug, Hash)]
pub struct Description {
    pub face: Option<StringVar>,
    pub family: Family,
    pub size: u32,
    pub weight: Weight,
    pub italic: bool,
    pub small_caps: bool,
    pub letter_spacing: i32,
    pub word_spacing: i32,
}

impl Description {
    /// A 12 point font of the normal weight in a family, with no face name,
    /// upright, without small caps, with no extra spacing.
    pub fn new_from_family(fam: Family) -> (d: Description)
        ensures
            d == (Description {
                face: None,
                family: fam,
                size: 12,
                weight: Weight::NormalWeight,
                italic: false,
                small_caps: false,
                letter_spacing: 0,
                word_spacing: 0,
            }),
    {
        Description {
            face: None,
            family: fam,
            size: 12,
            weight: Weight::NormalWeight,
            italic: false,
            small_caps: false,
            letter_spacing: 0,
            word_spacing: 0,
        }
    }

    /// A description as the browser filled it in; its family and weight are
    /// known values.
    pub fn new_from_ffi(v: PP_FontDescription_Dev) -> (d: Description)
        requires
            is_known_family(v.family),
            is_known_weight(v.weight),
        ensures
            d == (Description {
                face: Some(StringVar(v.face.value)),
                family: family_of(v.family),
                size: v.size,
                weight: weight_of(v.weight),
                italic: v.italic != 0,
                small_caps: v.small_caps != 0,
                letter_spacing: v.letter_spacing,
                word_spacing: v.word_spacing,
            }),
    {
        Description {
            face: Some(StringVar::new_from_var(v.face)),
            family: Family::new_from_ffi(v.family),
            size: v.size,
            weight: Weight::new_from_ffi(v.weight),
            italic: v.italic != 0,
            small_caps: v.small_caps != 0,
            letter_spacing: v.letter_spacing,
            word_spacing: v.word_spacing,
        }
    }

    /// The description as the browser takes it; an absent face is given as
    /// the undefined var.
    pub fn to_ffi(&self) -> (v: PP_FontDescription_Dev)
        ensures
            v == (PP_FontDescription_Dev {
                face: self.face.var_spec(),
                family: family_value(self.family),
                size: self.size,
                weight: weight_value(self.weight),
                italic: ffi_bool(self.italic),
                small_caps: ffi_bool(self.small_caps),
                letter_spacing: self.letter_spacing,
                word_spacing: self.word_spacing,
            }),
    {
        PP_FontDescription_Dev {
            face: self.face.to_var(),
            family: self.family.to_ffi(),
            size: self.size,
            weight: self.weight.to_ffi(),
            italic: self.italic.to_ffi_bool(),
            small_caps: self.small_caps.to_ffi_bool(),
            letter_spacing: self.letter_spacing,
            word_spacing: self.word_spacing,
        }
    }
}

/// A description given to the browser and read back is the description,
/// with its face (the undefined var when absent) present and its numeric
/// weight moved to its step.
pub proof fn lemma_description_roundtrip(d: Description)
    ensures ({
        let v = PP_FontDescription_Dev {
            face: d.face.var_spec(),
            family: family_value(d.family),
            size: d.size,
            weight: weight_value(d.weight),
            italic: ffi_bool(d.italic),
            small_caps: ffi_bool(d.small_caps),
            letter_spacing: d.letter_spacing,
            word_spacing: d.word_spacing,
        };
        &&& is_known_family(v.family)
        &&& is_known_weight(v.weight)
        &&& family_of(v.family) == d.family
        &&& weight_value(weight_of(v.weight)) == weight_value(d.weight)
        &&& (v.italic != 0) == d.italic
        &&& (v.small_caps != 0) == d.small_caps
    }),
{
    lemma_family_roundtrip(d.family, 0);
    lemma_weight_roundtrip(d.weight, 0);
}

/// A font resource.
#[derive(Clone, Copy, PartialEq, Eq, Structural, Debug, Hash)]
pub struct Font(pub PP_Resource);

impl Resource for Font {
    open spec fn res(&self) -> PP_Resource { self.0 }
    open spec fn kind(&self) -> ResourceType { ResourceType::FontRes }
    fn unwrap(&self) -> (r: PP_Resource) { self.0 }
    fn type_of(&self) -> (t: ResourceType) { ResourceType::FontRes }
}

impl ToOption<PP_Resource> for Font {
    fn to_option(from: &PP_Resource) -> (r: Option<Font>)
        ensures r == handle_option(*from, |h: PP_Resource| Font(h)),
    {
        if *from == 0 { None } else { Some(Font(*from)) }
    }
}

/// What `PPB_Font_Dev::DrawTextAt` is given: the font, the image to draw
/// into, the run of text, the baseline's left end, the color, the clip
/// rectangle (none for the whole image) and whether the image is opaque.
#[derive(Clone, Copy, PartialEq, Eq, Structural, Debug)]
pub struct DrawTextArgs {
    pub font: PP_Resource,
    pub image: PP_Resource,
    pub run: PP_TextRun_Dev,
    pub pos: PP_Point,
    pub color: u32,
    pub clip: Option<PP_Rect>,
    pub image_data_is_opaque: PP_Bool,
}

/// The sentinel with which the font interface says that it has no answer.
pub open spec fn no_offset(reply: i32) -> bool {
    reply == -1
}

impl Font {
    /// The run of text that the font calls are given.
    pub fn text_run<T: ToVar>(text: &T, rtl: bool, override_direction: bool) -> (r: PP_TextRun_Dev)
        ensures
            r == (PP_TextRun_Dev {
                text: text.var_spec(),
                rtl: ffi_bool(rtl),
                override_direction: ffi_bool(override_direction),
            }),
    {
        PP_TextRun_Dev {
            text: text.to_var(),
            rtl: rtl.to_ffi_bool(),
            override_direction: override_direction.to_ffi_bool(),
        }
    }

    /// What the font is: `found`, `desc` and `metrics` are the answer of
    /// `PPB_Font_Dev::Describe(self, &desc, &metrics)` and what it filled
    /// in. A description that the browser fills in has a known family and
    /// weight.
    pub fn describe(&self, found: PP_Bool, desc: PP_FontDescription_Dev, metrics: Metrics)
        -> (r: Option<(Description, Metrics)>)
        requires
            found != 0 ==> is_known_family(desc.family) && is_known_weight(desc.weight),
        ensures
            found == 0 ==> r is None,
            found != 0 ==> r == Some((Description {
                face: Some(StringVar(desc.face.value)),
                family: family_of(desc.family),
                size: desc.size,
                weight: weight_of(desc.weight),
                italic: desc.italic != 0,
                small_caps: desc.small_caps != 0,
                letter_spacing: desc.letter_spacing,
                word_spacing: desc.word_spacing,
            }, metrics)),
    {
        if found == 0 {
            None
        } else {
            Some((Description::new_from_ffi(desc), metrics))
        }
    }

    /// The width of a run of text: `reply` is the answer of
    /// `PPB_Font_Dev::MeasureText(self, &run)`, -1 when it failed.
    pub fn measure_text(&self, reply: i32) -> (r: Option<i32>)
        ensures r == if no_offset(reply) { None::<i32> } else { Some(reply) },
    {
        if reply == -1 { None } else { Some(reply) }
    }

    /// The arguments for drawing a run of text into an image. The point is
    /// the left end of the baseline whatever the direction; without a clip
    /// the text is clipped to the image; an opaque image allows subpixel
    /// antialiasing.
    pub fn draw_text_args<T: ToVar>(&self, image: &ImageData, text: &T, rtl: bool, override_direction: bool,
        pos: PP_Point, color: u32, clip: Option<PP_Rect>, image_data_is_opaque: bool) -> (a: DrawTextArgs)
        ensures
            a == (DrawTextArgs {
                font: self.0,
                image: image.0,
                run: PP_TextRun_Dev {
                    text: text.var_spec(),
                    rtl: ffi_bool(rtl),
                    override_direction: ffi_bool(override_direction),
                },
                pos,
                color,
                clip,
                image_data_is_opaque: ffi_bool(image_data_is_opaque),
            }),
    {
        DrawTextArgs {
            font: self.unwrap(),
            image: image.unwrap(),
            run: Font::text_run(text, rtl, override_direction),
            pos,
            color,
            clip,
            image_data_is_opaque: image_data_is_opaque.to_ffi_bool(),
        }
    }

    /// Drawing a run of text into an image: `reply` is the answer of
    /// `PPB_Font_Dev::DrawTextAt` on `draw_text_args`.
    pub fn draw_text(&self, reply: PP_Bool) -> (b: bool)
        ensures b == (reply != ffi::PP_FALSE),
    {
        reply != ffi::PP_FALSE
    }

    /// The character at a horizontal position in a run: `reply` is the
    /// answer of `PPB_Font_Dev::CharacterOffsetForPixel(self, &run, x)`,
    /// which is all ones when there is none.
    pub fn char_offset_for_pixel(&self, reply: u32) -> (r: Option<u32>)
        ensures r == if reply == u32::MAX { None::<u32> } else { Some(reply) },
    {
        if reply == u32::MAX { None } else { Some(reply) }
    }

    /// The horizontal position of a character in a run: `reply` is the
    /// answer of `PPB_Font_Dev::PixelOffsetForCharacter(self, &run, i)`, -1
    /// when there is none.
    pub fn pixel_offset_for_character(&self, reply: i32) -> (r: Option<i32>)
        ensures r == if no_offset(reply) { None::<i32> } else { Some(reply) },
    {
        if reply == -1 { None } else { Some(reply) }
    }
}

/// Whether the bytes `[start, end)` of a list are one of its entries: a
/// run with no NUL byte, begun by the list's start or a NUL and ended by the
/// list's end or a NUL.
pub open spec fn is_nul_run(list: Seq<u8>, start: int, end: int) -> bool {
    &&& 0 <= start <= end <= list.len()
    &&& (start == 0 || list[start - 1] == 0)
    &&& (end == list.len() || list[end] == 0)
    &&& forall|k: int| start <= k < end ==> list[k] != 0
}

/// Whether a name is one of the NUL-separated entries of a list.
pub open spec fn names_entry(list: Seq<u8>, name: Seq<char>) -> bool {
    exists|s: int, e: int| #[trigger] is_nul_run(list, s, e) && encode_utf8(name) == list.subrange(s, e)
}

/// A NUL byte in UTF-8 text is a whole character: the text may be cut on
/// either side of it.
proof fn lemma_nul_boundaries(b: Seq<u8>, j: int)
    requires
        valid_utf8(b),
        0 <= j < b.len(),
        b[j] == 0,
    ensures
        is_char_boundary(b, j),
        is_char_boundary(b, j + 1),
{
    vstd::utf8::is_char_boundary_iff_not_is_continuation_byte(b, j);
    if j + 1 == b.len() {
        vstd::utf8::is_char_boundary_start_end_of_seq(b);
    } else {
        vstd::utf8::valid_utf8_split(b, j);
        let rest = b.subrange(j, b.len() as int);
        assert(rest[0] == 0);
        assert(vstd::utf8::length_of_first_scalar(rest) == 1);
        let pop = vstd::utf8::pop_first_scalar(rest);
        assert(valid_utf8(pop));
        assert(pop.len() > 0);
        assert(is_char_boundary(pop, 0));
        vstd::utf8::is_char_boundary_iff_not_is_continuation_byte(pop, 0);
        assert(pop[0] == b[j + 1]);
        vstd::utf8::is_char_boundary_iff_not_is_continuation_byte(b, j + 1);
    }
}

/// Adds a name to a list of distinct names unless it is there already.
fn push_new_name(names: &mut Vec<String>, name: String)
    requires
        forall|a: int, c: int| 0 <= a < c < old(names).len() ==> old(names)[a]@ != old(names)[c]@,
    ensures
        forall|a: int, c: int| 0 <= a < c < final(names).len() ==> final(names)[a]@ != final(names)[c]@,
        final(names).len() >= old(names).len(),
        forall|k: int| 0 <= k < old(names).len() ==> final(names)[k] == old(names)[k],
        forall|k: int| 0 <= k < final(names).len() ==> final(names)[k]@ == name@
            || (k < old(names).len() && final(names)[k] == old(names)[k]),
        exists|k: int| 0 <= k < final(names).len() && (#[trigger] final(names)[k])@ == name@,
{
    let mut k: usize = 0;
    while k < names.len()
        invariant
            k <= names.len(),
            names@ == old(names)@,
            forall|a: int, c: int| 0 <= a < c < names.len() ==> names[a]@ != names[c]@,
            forall|a: int| 0 <= a < k ==> (#[trigger] names[a])@ != name@,
        decreases names.len() - k,
    {
        if names[k] == name {
            assert(names[k as int]@ == name@);
            return;
        }
        k = k + 1;
    }
    names.push(name);
    assert(names[names.len() - 1]@ == name@);
}

/// The distinct entries of a list of names separated by NUL characters,
/// each once, in the order of their first appearance. Empty entries count.
pub fn split_nul_list(list: &str) -> (r: Vec<String>)
    ensures
        forall|k: int| 0 <= k < r.len() ==> names_entry(list.spec_bytes(), (#[trigger] r[k])@),
        forall|s: int, e: int| #[trigger] is_nul_run(list.spec_bytes(), s, e) ==>
            exists|k: int| 0 <= k < r.len() && encode_utf8((#[trigger] r[k])@) == list.spec_bytes().subrange(s, e),
        forall|a: int, c: int| 0 <= a < c < r.len() ==> r[a]@ != r[c]@,
{
    let bytes = list.as_bytes();
    let ghost b = list.spec_bytes();
    proof { vstd::utf8::encode_utf8_valid_utf8(list@); }
    let n = bytes.len();
    let mut r: Vec<String> = Vec::new();
    let mut start: usize = 0;
    let mut i: usize = 0;
    while i < n
        invariant
            b == list.spec_bytes(),
            bytes@ == b,
            n == b.len(),
            valid_utf8(b),
            start <= i <= n,
            start == 0 || b[start - 1] == 0,
            start == 0 || is_char_boundary(b, start as int),
            forall|k: int| start <= k < i ==> b[k] != 0,
            forall|k: int| 0 <= k < r.len() ==> names_entry(b, (#[trigger] r[k])@),
            forall|a: int, c: int| 0 <= a < c < r.len() ==> r[a]@ != r[c]@,
            forall|s: int, e: int| #[trigger] is_nul_run(b, s, e) && s < start ==>
                exists|k: int| 0 <= k < r.len() && encode_utf8((#[trigger] r[k])@) == b.subrange(s, e),
        decreases n - i,
    {
        if bytes[i] == 0 {
            proof {
                lemma_nul_boundaries(b, i as int);
                vstd::utf8::is_char_boundary_start_end_of_seq(b);
                assert(is_text_slice(b, start as int, i as int));
            }
            let piece = text_slice(list, start, i);
            let name = piece.to_owned();
            let ghost old_r = r@;
            proof {
                assert(encode_utf8(name@) == b.subrange(start as int, i as int));
                assert(is_nul_run(b, start as int, i as int));
            }
            push_new_name(&mut r, name);
            proof {
                assert forall|k: int| 0 <= k < r.len() implies names_entry(b, (#[trigger] r[k])@) by {
                    if r[k]@ == name@ {
                        assert(is_nul_run(b, start as int, i as int));
                    } else {
                        assert(r[k] == old_r[k]);
                    }
                }
                assert forall|s: int, e: int| #[trigger] is_nul_run(b, s, e) && s < i + 1 implies
                    exists|k: int| 0 <= k < r.len() && encode_utf8((#[trigger] r[k])@) == b.subrange(s, e) by {
                    if s < start {
                        let k0 = choose|k: int| 0 <= k < old_r.len() && encode_utf8((#[trigger] old_r[k])@) == b.subrange(s, e);
                        assert(r[k0] == old_r[k0]);
                    } else {
                        if s > start {
                            assert(b[s - 1] == 0);
                            assert(false);
                        }
                        if e < i {
                            assert(b[e] == 0);
                            assert(false);
                        }
                        if e > i {
                            assert(b[i as int] != 0);
                            assert(false);
                        }
                        let k1 = choose|k: int| 0 <= k < r.len() && (#[trigger] r[k])@ == name@;
                        assert(encode_utf8(r[k1]@) == b.subrange(s, e));
                    }
                }
            }
            start = i + 1;
        }
        i = i + 1;
    }
    proof {
        vstd::utf8::is_char_boundary_start_end_of_seq(b);
        assert(is_text_slice(b, start as int, n as int));
    }
    let piece = text_slice(list, start, n);
    let name = piece.to_owned();
    let ghost old_r = r@;
    proof {
        assert(encode_utf8(name@) == b.subrange(start as int, n as int));
        assert(is_nul_run(b, start as int, n as int));
    }
    push_new_name(&mut r, name);
    proof {
        assert forall|k: int| 0 <= k < r.len() implies names_entry(b, (#[trigger] r[k])@) by {
            if r[k]@ == name@ {
                assert(is_nul_run(b, start as int, n as int));
            } else {
                assert(r[k] == old_r[k]);
            }
        }
        assert forall|s: int, e: int| #[trigger] is_nul_run(b, s, e) implies
            exists|k: int| 0 <= k < r.len() && encode_utf8((#[trigger] r[k])@) == b.subrange(s, e) by {
            if s < start {
                let k0 = choose|k: int| 0 <= k < old_r.len() && encode_utf8((#[trigger] old_r[k])@) == b.subrange(s, e);
                assert(r[k0] == old_r[k0]);
            } else {
                if s > start {
                    assert(b[s - 1] == 0);
                    assert(false);
                }
                if e < n {
                    assert(b[e] == 0);
                    assert(false);
                }
                let k1 = choose|k: int| 0 <= k < r.len() && (#[trigger] r[k])@ == name@;
                assert(encode_utf8(r[k1]@) == b.subrange(s, e));
            }
        }
    }
    r
}

impl Instance {
    /// A new font: `created` is the handle that `PPB_Font_Dev::Create(self,
    /// &desc)` returned for the description's `to_ffi`, null on failure.
    pub fn create_font(&self, created: PP_Resource) -> (r: Option<Font>)
        ensures r == handle_option(created, |h: PP_Resource| Font(h)),
    {
        if created != 0 { Some(Font(created)) } else { None }
    }

    /// The font families the browser knows: `list` is the text of the var
    /// that `PPB_Font_Dev::GetFontFamilies(self)` returned, the family names
    /// separated by NUL characters. Each name comes once.
    pub fn get_font_families(&self, list: &str) -> (r: Vec<String>)
        ensures
            forall|k: int| 0 <= k < r.len() ==> names_entry(list.spec_bytes(), (#[trigger] r[k])@),
            forall|s: int, e: int| #[trigger] is_nul_run(list.spec_bytes(), s, e) ==>
                exists|k: int| 0 <= k < r.len() && encode_utf8((#[trigger] r[k])@) == list.spec_bytes().subrange(s, e),
            forall|a: int, c: int| 0 <= a < c < r.len() ==> r[a]@ != r[c]@,
    {
        split_nul_list(list)
    }
}

/// Each value is given to the browser under the name of its own kind, and
/// no two kinds share a name.
pub proof fn lemma_family_value_by_name(x: Family)
    ensures
        family_value(x) == ffi::PP_FONTFAMILY_DEFAULT <==> x is DefaultFamily,
        family_value(x) == ffi::PP_FONTFAMILY_SERIF <==> x is SerifFamily,
        family_value(x) == ffi::PP_FONTFAMILY_SANSSERIF <==> x is SansSerifFamily,
        family_value(x) == ffi::PP_FONTFAMILY_MONOSPACE <==> x is MonospaceFamily,
{
}

/// A numeric weight is given as the browser's step for the least multiple
/// of 100 at or above it, from 100 to 900: the step's position counts the
/// hundreds below that multiple. Normal is the step of 400 and bold the step
/// of 700.
pub proof fn lemma_weight_steps_by_hundreds(n: u16)
    ensures
        1 <= n <= 900 ==> weight_step(n) == (n + 99) / 100 - 1,
        n == 0 ==> weight_step(n) == ffi::PP_FONTWEIGHT_100,
        n > 900 ==> weight_step(n) == ffi::PP_FONTWEIGHT_900,
        weight_value(Weight::NormalWeight) == weight_step(400),
        weight_value(Weight::BoldWeight) == weight_step(700),
        weight_value(Weight::ValueWeight(n)) == weight_step(n),
{
}

} // verus!
