use ppapi::ffi;
use ppapi::ffi::PP_Point;
use ppapi::input::{
    modifiers_from_bitset, Class, EventReport, IMEInputEvent, KeyboardEvent, Modifiers, Modifiers_, MouseButton,
    MouseEvent, Press,
};

fn report(t: i32) -> EventReport {
    EventReport {
        event_type: t,
        timestamp: 0,
        modifiers: 1,
        point: PP_Point { x: 3, y: 4 },
        button: ffi::PP_INPUTEVENT_MOUSEBUTTON_LEFT,
        click_count: 2,
        movement: PP_Point { x: 0, y: 0 },
        key_code: 65,
        text: vec!['a'],
    }
}

#[test]
fn modifiers_positions_roundtrip() {
    for i in 0..13usize {
        assert_eq!(Modifiers_::from_uint(i).to_uint(), i);
    }
}

#[test]
fn modifier_sets() {
    let mut m = Modifiers::new();
    assert!(!m.contains(&Modifiers_::ShiftKey));
    m.insert(Modifiers_::AltKey);
    assert!(m.contains(&Modifiers_::AltKey));
    assert!(!m.contains(&Modifiers_::ShiftKey));
    let m = modifiers_from_bitset(0xffff_ffff);
    assert_eq!(m.bits, 0x1fff);
    assert!(m.contains(&Modifiers_::IsRight));
}

#[test]
fn classify_mouse_and_key_reports() {
    match Class::new(7, &report(ffi::PP_INPUTEVENT_TYPE_MOUSEDOWN)) {
        Class::Mouse(e) => match e.event {
            MouseEvent::Press(Press::Down, click) => {
                assert_eq!(click.button, MouseButton::Left);
                assert_eq!(click.click_count, 2);
                assert_eq!(click.point, PP_Point { x: 3, y: 4 });
            },
            _ => panic!("wrong mouse event"),
        },
        _ => panic!("not a mouse event"),
    }
    match Class::new(7, &report(ffi::PP_INPUTEVENT_TYPE_KEYUP)) {
        Class::Keyboard(e) => assert_eq!(e.event, KeyboardEvent::Press(Press::Up, 65)),
        _ => panic!("not a key event"),
    }
    match Class::new(7, &report(ffi::PP_INPUTEVENT_TYPE_CHAR)) {
        Class::Keyboard(e) => assert_eq!(e.event, KeyboardEvent::Char('a')),
        _ => panic!("not a key event"),
    }
}

#[test]
fn ime_segments_walk() {
    let ev = IMEInputEvent::new(9, "ab€c".to_string(), 2);
    let mut it = ev.segment_iter();
    assert_eq!(it.indexable(), 2);
    assert_eq!(it.next(0, 2), Some("ab"));
    assert_eq!(it.next(2, 5), Some("€"));
    assert_eq!(it.next(0, 0), None);
    assert_eq!(it.idx(1, 5, 6), Some("c"));
    assert_eq!(it.idx(2, 0, 0), None);
}

#[test]
fn keyboard_character_text_is_read_from_its_var() {
    let e = ppapi::input::KeyboardInputEvent::new(7);
    let v = ffi::PP_Var { _type: ffi::PP_VARTYPE_STRING, padding: 0, value: 42 };
    assert_eq!(e.get_char_text(v).0, 42);
}
