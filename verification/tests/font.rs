use ppapi::ffi;
use ppapi::ffi::{PP_FontDescription_Dev, PP_FontMetrics_Dev, PP_Var};
use ppapi::font::{Description, Family, Font, Weight};
use ppapi::instance::Instance;
use ppapi::var::StringVar;

#[test]
fn family_roundtrips() {
    for f in [Family::DefaultFamily, Family::SerifFamily, Family::SansSerifFamily, Family::MonospaceFamily].iter() {
        assert_eq!(Family::new_from_ffi(f.to_ffi()), *f);
    }
    assert_eq!(Family::MonospaceFamily.to_ffi(), ffi::PP_FONTFAMILY_MONOSPACE);
}

#[test]
fn weight_reads_named_steps() {
    assert_eq!(Weight::new_from_ffi(ffi::PP_FONTWEIGHT_400), Weight::NormalWeight);
    assert_eq!(Weight::new_from_ffi(ffi::PP_FONTWEIGHT_700), Weight::BoldWeight);
    assert_eq!(Weight::new_from_ffi(ffi::PP_FONTWEIGHT_100), Weight::ValueWeight(100));
    assert_eq!(Weight::new_from_ffi(ffi::PP_FONTWEIGHT_900), Weight::ValueWeight(900));
}

#[test]
fn weight_rounds_up_to_its_step() {
    assert_eq!(Weight::ValueWeight(0).to_ffi(), ffi::PP_FONTWEIGHT_100);
    assert_eq!(Weight::ValueWeight(100).to_ffi(), ffi::PP_FONTWEIGHT_100);
    assert_eq!(Weight::ValueWeight(101).to_ffi(), ffi::PP_FONTWEIGHT_200);
    assert_eq!(Weight::ValueWeight(450).to_ffi(), ffi::PP_FONTWEIGHT_500);
    assert_eq!(Weight::ValueWeight(801).to_ffi(), ffi::PP_FONTWEIGHT_900);
    assert_eq!(Weight::ValueWeight(u16::MAX).to_ffi(), ffi::PP_FONTWEIGHT_900);
    assert_eq!(Weight::NormalWeight.to_ffi(), ffi::PP_FONTWEIGHT_400);
    assert_eq!(Weight::BoldWeight.to_ffi(), ffi::PP_FONTWEIGHT_700);
}

#[test]
fn weight_known_values_roundtrip() {
    for v in 0..9u32 {
        assert_eq!(Weight::new_from_ffi(v).to_ffi(), v);
    }
}

#[test]
fn description_from_family_defaults() {
    let d = Description::new_from_family(Family::SerifFamily);
    assert_eq!(d.face, None);
    assert_eq!(d.size, 12);
    assert_eq!(d.weight, Weight::NormalWeight);
    assert!(!d.italic && !d.small_caps);
    assert_eq!(d.letter_spacing, 0);
    assert_eq!(d.word_spacing, 0);
    let f = d.to_ffi();
    assert_eq!(f.family, ffi::PP_FONTFAMILY_SERIF);
    assert_eq!(f.weight, ffi::PP_FONTWEIGHT_400);
    assert_eq!(f.size, 12);
    assert_eq!(f.face._type, ffi::PP_VARTYPE_UNDEFINED);
}

fn raw_description() -> PP_FontDescription_Dev {
    PP_FontDescription_Dev {
        face: PP_Var { _type: ffi::PP_VARTYPE_STRING, padding: 0, value: 42 },
        family: ffi::PP_FONTFAMILY_SANSSERIF,
        size: 15,
        weight: ffi::PP_FONTWEIGHT_700,
        italic: 1,
        small_caps: 0,
        letter_spacing: -1,
        word_spacing: 3,
    }
}

#[test]
fn description_reads_the_browser_description() {
    let d = Description::new_from_ffi(raw_description());
    assert_eq!(d.face, Some(StringVar(42)));
    assert_eq!(d.family, Family::SansSerifFamily);
    assert_eq!(d.weight, Weight::BoldWeight);
    assert!(d.italic);
    assert!(!d.small_caps);
    assert_eq!(d.word_spacing, 3);
    let back = d.to_ffi();
    assert_eq!(back.word_spacing, 3);
    assert_eq!(back.italic, ffi::PP_TRUE);
}

#[test]
fn font_answers() {
    let font = Font(9);
    let metrics = PP_FontMetrics_Dev { height: 10, ascent: 8, descent: 2, line_spacing: 1, x_height: 5 };
    assert!(font.describe(0, raw_description(), metrics).is_none());
    let (d, m) = font.describe(1, raw_description(), metrics).unwrap();
    assert_eq!(d.size, 15);
    assert_eq!(m, metrics);
    assert_eq!(font.measure_text(-1), None);
    assert_eq!(font.measure_text(120), Some(120));
    assert_eq!(font.char_offset_for_pixel(u32::MAX), None);
    assert_eq!(font.char_offset_for_pixel(3), Some(3));
    assert_eq!(font.pixel_offset_for_character(-1), None);
    assert_eq!(font.pixel_offset_for_character(0), Some(0));
    assert!(font.draw_text(ffi::PP_TRUE));
    assert!(!font.draw_text(ffi::PP_FALSE));
}

#[test]
fn text_run_carries_direction() {
    let run = Font::text_run(&StringVar(5), true, false);
    assert_eq!(run.text.value, 5);
    assert_eq!(run.rtl, ffi::PP_TRUE);
    assert_eq!(run.override_direction, ffi::PP_FALSE);
}

#[test]
fn font_families_split_on_nul_once_each() {
    let inst = Instance::new(1);
    let fams = inst.get_font_families("Arial\0Times\0Arial\0Courier");
    assert_eq!(fams, vec!["Arial".to_string(), "Times".to_string(), "Courier".to_string()]);
}

#[test]
fn font_families_keep_empty_entries() {
    let inst = Instance::new(1);
    assert_eq!(inst.get_font_families(""), vec!["".to_string()]);
    assert_eq!(inst.get_font_families("A\0\0B\0"), vec!["A".to_string(), "".to_string(), "B".to_string()]);
    assert_eq!(inst.get_font_families("Ünïcode\0Ωmega"), vec!["Ünïcode".to_string(), "Ωmega".to_string()]);
}

#[test]
fn create_font_reads_the_handle() {
    let inst = Instance::new(1);
    assert_eq!(inst.create_font(0), None);
    assert_eq!(inst.create_font(12), Some(Font(12)));
}

#[test]
fn draw_text_arguments() {
    use_draw_text_args();
}

fn use_draw_text_args() {
    let font = Font(9);
    let img = ppapi::imagedata::ImageData(3);
    let pos = ffi::PP_Point { x: 4, y: 20 };
    let a = font.draw_text_args(&img, &StringVar(11), false, true, pos, 0xff00_00ff, None, true);
    assert_eq!(a.font, 9);
    assert_eq!(a.image, 3);
    assert_eq!(a.run.text.value, 11);
    assert_eq!(a.run.rtl, ffi::PP_FALSE);
    assert_eq!(a.run.override_direction, ffi::PP_TRUE);
    assert_eq!(a.pos, pos);
    assert_eq!(a.color, 0xff00_00ff);
    assert_eq!(a.clip, None);
    assert_eq!(a.image_data_is_opaque, ffi::PP_TRUE);
}
