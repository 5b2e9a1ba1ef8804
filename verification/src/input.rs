//! Input events: keyboard, mouse, wheel, touch and IME.
//!
//! Floating-point values that the browser reports (wheel deltas, touch
//! geometry, time stamps) are carried by their IEEE-754 bits; the library only
//! passes them along.

use vstd::prelude::*;
use crate::ffi;
use crate::ffi::{PP_Resource, PP_Point};
use crate::resource::{Resource, ResourceType, ToOption, handle_option};
use crate::instance::pp_bool;
use crate::var::StringVar;
use vstd::std_specs::cmp::PartialEqSpecImpl;
use vstd::string::StringSliceAdditionalSpecFns;

verus! {

/// A point with floating-point coordinates, by the bits of each coordinate.
#[derive(Clone, Copy, PartialEq, Eq, Structural, Debug)]
pub struct FloatPoint {
    pub x: u32,
    pub y: u32,
}

/// A browser time stamp in seconds, by the bits of the double.
pub type Ticks = u64;

/// One touch point as the browser reports it; the floating-point fields are
/// held by their bits.
#[derive(Clone, Copy, PartialEq, Eq, Structural, Debug)]
pub struct TouchPoint {
    pub id: u32,
    pub position: FloatPoint,
    pub radius: FloatPoint,
    pub rotation_angle: u32,
    pub pressure: u32,
}

#[derive(Clone, Copy, PartialEq, Eq, Structural, Debug, Hash)]
pub struct KeyboardInputEvent(pub PP_Resource);
#[derive(Clone, Copy, PartialEq, Eq, Structural, Debug, Hash)]
pub struct MouseInputEvent(pub PP_Resource);
#[derive(Clone, Copy, PartialEq, Eq, Structural, Debug, Hash)]
pub struct WheelInputEvent(pub PP_Resource);
#[derive(Clone, Copy, PartialEq, Eq, Structural, Debug, Hash)]
pub struct TouchInputEvent(pub PP_Resource);

impl KeyboardInputEvent {
    pub fn new(res: PP_Resource) -> (e: Self) ensures e.0 == res, { KeyboardInputEvent(res) }
}
impl MouseInputEvent {
    pub fn new(res: PP_Resource) -> (e: Self) ensures e.0 == res, { MouseInputEvent(res) }
}
impl WheelInputEvent {
    pub fn new(res: PP_Resource) -> (e: Self) ensures e.0 == res, { WheelInputEvent(res) }
}
impl TouchInputEvent {
    pub fn new(res: PP_Resource) -> (e: Self) ensures e.0 == res, { TouchInputEvent(res) }
}

impl Resource for KeyboardInputEvent {
    open spec fn res(&self) -> PP_Resource { self.0 }
    open spec fn kind(&self) -> ResourceType { ResourceType::KeyboardInputEventRes }
    fn unwrap(&self) -> (r: PP_Resource) { self.0 }
    fn type_of(&self) -> (t: ResourceType) { ResourceType::KeyboardInputEventRes }
}
impl Resource for MouseInputEvent {
    open spec fn res(&self) -> PP_Resource { self.0 }
    open spec fn kind(&self) -> ResourceType { ResourceType::MouseInputEventRes }
    fn unwrap(&self) -> (r: PP_Resource) { self.0 }
    fn type_of(&self) -> (t: ResourceType) { ResourceType::MouseInputEventRes }
}
impl Resource for WheelInputEvent {
    open spec fn res(&self) -> PP_Resource { self.0 }
    open spec fn kind(&self) -> ResourceType { ResourceType::WheelInputEventRes }
    fn unwrap(&self) -> (r: PP_Resource) { self.0 }
    fn type_of(&self) -> (t: ResourceType) { ResourceType::WheelInputEventRes }
}
impl Resource for TouchInputEvent {
    open spec fn res(&self) -> PP_Resource { self.0 }
    open spec fn kind(&self) -> ResourceType { ResourceType::TouchInputEventRes }
    fn unwrap(&self) -> (r: PP_Resource) { self.0 }
    fn type_of(&self) -> (t: ResourceType) { ResourceType::TouchInputEventRes }
}

impl ToOption<PP_Resource> for KeyboardInputEvent {
    fn to_option(from: &PP_Resource) -> (r: Option<Self>)
        ensures r == handle_option(*from, |h: PP_Resource| KeyboardInputEvent(h)),
    { if *from == 0 { None } else { Some(KeyboardInputEvent(*from)) } }
}
impl ToOption<PP_Resource> for MouseInputEvent {
    fn to_option(from: &PP_Resource) -> (r: Option<Self>)
        ensures r == handle_option(*from, |h: PP_Resource| MouseInputEvent(h)),
    { if *from == 0 { None } else { Some(MouseInputEvent(*from)) } }
}
impl ToOption<PP_Resource> for WheelInputEvent {
    fn to_option(from: &PP_Resource) -> (r: Option<Self>)
        ensures r == handle_option(*from, |h: PP_Resource| WheelInputEvent(h)),
    { if *from == 0 { None } else { Some(WheelInputEvent(*from)) } }
}
impl ToOption<PP_Resource> for TouchInputEvent {
    fn to_option(from: &PP_Resource) -> (r: Option<Self>)
        ensures r == handle_option(*from, |h: PP_Resource| TouchInputEvent(h)),
    { if *from == 0 { None } else { Some(TouchInputEvent(*from)) } }
}

/// The modifier keys and buttons that can accompany an input event.
#[derive(Clone, Copy, PartialEq, Eq, Structural, Debug, Hash)]
pub enum Modifiers_ {
    ShiftKey,
    ControlKey,
    AltKey,
    MetaKey,
    IsKeyPad,
    IsAutoRepeat,
    LeftButtonDown,
    MiddleButtonDown,
    RightButtonDown,
    CapsLockKey,
    NumLockKey,
    IsLeft,
    IsRight,
}

/// The position of each modifier in a modifier set.
pub open spec fn modifier_index(m: Modifiers_) -> nat {
    match m {
        Modifiers_::ShiftKey => 0,
        Modifiers_::ControlKey => 1,
        Modifiers_::AltKey => 2,
        Modifiers_::MetaKey => 3,
        Modifiers_::IsKeyPad => 4,
        Modifiers_::IsAutoRepeat => 5,
        Modifiers_::LeftButtonDown => 6,
        Modifiers_::MiddleButtonDown => 7,
        Modifiers_::RightButtonDown => 8,
        Modifiers_::CapsLockKey => 9,
        Modifiers_::NumLockKey => 10,
        Modifiers_::IsLeft => 11,
        Modifiers_::IsRight => 12,
    }
}

/// The modifier at each position.
pub open spec fn modifier_at(v: nat) -> Modifiers_ {
    if v == 0 { Modifiers_::ShiftKey }
    else if v == 1 { Modifiers_::ControlKey }
    else if v == 2 { Modifiers_::AltKey }
    else if v == 3 { Modifiers_::MetaKey }
    else if v == 4 { Modifiers_::IsKeyPad }
    else if v == 5 { Modifiers_::IsAutoRepeat }
    else if v == 6 { Modifiers_::LeftButtonDown }
    else if v == 7 { Modifiers_::MiddleButtonDown }
    else if v == 8 { Modifiers_::RightButtonDown }
    else if v == 9 { Modifiers_::CapsLockKey }
    else if v == 10 { Modifiers_::NumLockKey }
    else if v == 11 { Modifiers_::IsLeft }
    else { Modifiers_::IsRight }
}

impl Modifiers_ {
    pub fn to_uint(&self) -> (v: usize)
        ensures v == modifier_index(*self),
    {
        match self {
            Modifiers_::ShiftKey => 0,
            Modifiers_::ControlKey => 1,
            Modifiers_::AltKey => 2,
            Modifiers_::MetaKey => 3,
            Modifiers_::IsKeyPad => 4,
            Modifiers_::IsAutoRepeat => 5,
            Modifiers_::LeftButtonDown => 6,
            Modifiers_::MiddleButtonDown => 7,
            Modifiers_::RightButtonDown => 8,
            Modifiers_::CapsLockKey => 9,
            Modifiers_::NumLockKey => 10,
            Modifiers_::IsLeft => 11,
            Modifiers_::IsRight => 12,
        }
    }

    /// The modifier at a position; positions past the last are a
    /// programming error.
    pub fn from_uint(v: usize) -> (m: Modifiers_)
        requires v <= 12,
        ensures m == modifier_at(v as nat),
    {
        if v == 0 { Modifiers_::ShiftKey }
        else if v == 1 { Modifiers_::ControlKey }
        else if v == 2 { Modifiers_::AltKey }
        else if v == 3 { Modifiers_::MetaKey }
        else if v == 4 { Modifiers_::IsKeyPad }
        else if v == 5 { Modifiers_::IsAutoRepeat }
        else if v == 6 { Modifiers_::LeftButtonDown }
        else if v == 7 { Modifiers_::MiddleButtonDown }
        else if v == 8 { Modifiers_::RightButtonDown }
        else if v == 9 { Modifiers_::CapsLockKey }
        else if v == 10 { Modifiers_::NumLockKey }
        else if v == 11 { Modifiers_::IsLeft }
        else { Modifiers_::IsRight }
    }
}

/// The position of a modifier and the modifier at that position undo each
/// other.
pub proof fn lemma_modifier_index_roundtrip(m: Modifiers_, v: nat)
    ensures
        modifier_index(m) <= 12,
        modifier_at(modifier_index(m)) == m,
        v <= 12 ==> modifier_index(modifier_at(v)) == v,
{
}

/// A set of modifiers, held as a bit set by position.
#[derive(Clone, Copy, PartialEq, Eq, Structural, Debug, Hash)]
pub struct Modifiers {
    pub bits: u32,
}

pub open spec fn bit_set(bits: u32, i: nat) -> bool {
    i < 32 && (bits >> (i as u32)) & 1 == 1
}

impl Modifiers {
    /// Whether the set holds a modifier.
    pub open spec fn has(self, m: Modifiers_) -> bool {
        bit_set(self.bits, modifier_index(m))
    }

    /// The set holds only modifiers.
    pub open spec fn wf(self) -> bool {
        self.bits < 0x2000
    }

    pub fn new() -> (s: Modifiers)
        ensures
            s.wf(),
            forall|m: Modifiers_| !s.has(m),
    {
        let s = Modifiers { bits: 0 };
        assert forall|m: Modifiers_| !s.has(m) by {
            let i = modifier_index(m) as u32;
            assert((0u32 >> i) & 1 == 0) by (bit_vector);
        }
        s
    }

    pub fn contains(&self, m: &Modifiers_) -> (b: bool)
        ensures b == self.has(*m),
    {
        let i = m.to_uint() as u32;
        (self.bits >> i) & 1 == 1
    }

    pub fn insert(&mut self, m: Modifiers_)
        requires old(self).wf(),
        ensures
            final(self).wf(),
            final(self).has(m),
            forall|n: Modifiers_| n != m ==> (final(self).has(n) == old(self).has(n)),
    {
        let i = m.to_uint() as u32;
        let old_bits = self.bits;
        let new_bits = old_bits | (1u32 << i);
        assert(new_bits < 0x2000) by (bit_vector)
            requires old_bits < 0x2000, i <= 12, new_bits == old_bits | (1u32 << i);
        assert((new_bits >> i) & 1 == 1) by (bit_vector)
            requires i <= 12, new_bits == old_bits | (1u32 << i);
        assert forall|n: Modifiers_| n != m implies
            (bit_set(new_bits, modifier_index(n)) == bit_set(old_bits, modifier_index(n))) by {
            let j = modifier_index(n) as u32;
            lemma_modifier_index_roundtrip(n, 0);
            lemma_modifier_index_roundtrip(m, 0);
            assert(j != i);
            assert((new_bits >> j) & 1 == (old_bits >> j) & 1) by (bit_vector)
                requires i <= 12, j <= 12, j != i, new_bits == old_bits | (1u32 << i);
        }
        self.bits = new_bits;
    }
}

/// Reads the modifier bit set that the browser reports. Bits beyond the
/// known modifiers are ignored.
pub fn modifiers_from_bitset(set: u32) -> (e: Modifiers)
    ensures
        e.wf(),
        e.bits == set & 0x1fff,
        forall|m: Modifiers_| e.has(m) == bit_set(set, modifier_index(m)),
{
    let bits = set & 0x1fff;
    assert(bits < 0x2000) by (bit_vector) requires bits == set & 0x1fff;
    let e = Modifiers { bits };
    assert forall|m: Modifiers_| e.has(m) == bit_set(set, modifier_index(m)) by {
        let i = modifier_index(m) as u32;
        assert((bits >> i) & 1 == (set >> i) & 1) by (bit_vector)
            requires i <= 12, bits == set & 0x1fff;
    }
    e
}

#[derive(Clone, Copy, PartialEq, Eq, Structural, Debug, Hash)]
pub enum Move {
    Enter,
    Leave,
    Move,
}

#[derive(Clone, Copy, PartialEq, Eq, Structural, Debug, Hash)]
pub enum Press {
    Down,
    Up,
}

#[derive(Clone, Copy, PartialEq, Eq, Structural, Debug)]
pub enum MouseButton {
    Left,
    Middle,
    Right,
}

pub open spec fn mouse_button_of(v: i32) -> MouseButton {
    if v == ffi::PP_INPUTEVENT_MOUSEBUTTON_LEFT { MouseButton::Left }
    else if v == ffi::PP_INPUTEVENT_MOUSEBUTTON_MIDDLE { MouseButton::Middle }
    else { MouseButton::Right }
}

pub open spec fn is_mouse_button(v: i32) -> bool {
    v == ffi::PP_INPUTEVENT_MOUSEBUTTON_LEFT || v == ffi::PP_INPUTEVENT_MOUSEBUTTON_MIDDLE
        || v == ffi::PP_INPUTEVENT_MOUSEBUTTON_RIGHT
}

impl MouseButton {
    /// Reads a button the browser reports; "no button" is a programming
    /// error here.
    pub fn from_ffi(v: i32) -> (b: MouseButton)
        requires is_mouse_button(v),
        ensures b == mouse_button_of(v),
    {
        if v == ffi::PP_INPUTEVENT_MOUSEBUTTON_LEFT {
            MouseButton::Left
        } else if v == ffi::PP_INPUTEVENT_MOUSEBUTTON_MIDDLE {
            MouseButton::Middle
        } else {
            MouseButton::Right
        }
    }
}

#[derive(Clone, Copy, PartialEq, Eq, Structural, Debug)]
pub struct MouseClickEvent {
    pub point: PP_Point,
    pub button: MouseButton,
    pub click_count: i32,
}

#[derive(Clone, Copy, PartialEq, Eq, Structural, Debug)]
pub struct MouseMoveEvent {
    pub point: PP_Point,
    pub delta: PP_Point,
    pub click_count: i32,
}

#[derive(Clone, Copy, PartialEq, Eq, Structural, Debug)]
pub enum MouseEvent {
    Press(Press, MouseClickEvent),
    ContextMenu(MouseClickEvent),
    Move(Move, MouseMoveEvent),
}

impl MouseEvent {
    /// Where the mouse was.
    pub fn point(&self) -> (p: PP_Point)
        ensures
            p == match self {
                MouseEvent::Press(_, c) => c.point,
                MouseEvent::ContextMenu(c) => c.point,
                MouseEvent::Move(_, m) => m.point,
            },
    {
        match self {
            MouseEvent::Press(_, c) => c.point,
            MouseEvent::ContextMenu(c) => c.point,
            MouseEvent::Move(_, m) => m.point,
        }
    }
}

#[derive(Clone, Copy, PartialEq, Eq, Structural, Debug)]
pub enum KeyboardEvent {
    Press(Press, i32),
    Char(char),
}

#[derive(Clone, Copy, PartialEq, Eq, Structural, Debug)]
pub struct WheelEvent {
    pub delta: FloatPoint,
    pub ticks: FloatPoint,
    pub by_page: bool,
}

/// What every input event carries.
pub trait InputEvent {
    spec fn mods_spec(&self) -> Modifiers;
    spec fn timestamp_spec(&self) -> Ticks;

    fn modifiers(&self) -> (m: Modifiers)
        ensures m == self.mods_spec(),
    ;
    fn timestamp(&self) -> (t: Ticks)
        ensures t == self.timestamp_spec(),
    ;
}

/// An input event: the resource, what it carries, and what happened.
#[derive(Clone, Copy, PartialEq, Eq, Structural, Debug)]
pub struct Event<Res, Class> {
    pub res: Res,
    pub timestamp: Ticks,
    pub mods: Modifiers,
    pub event: Class,
}

impl<Res: Resource, C> Resource for Event<Res, C> {
    open spec fn res(&self) -> PP_Resource { self.res.res() }
    open spec fn kind(&self) -> ResourceType { self.res.kind() }
    fn unwrap(&self) -> (r: PP_Resource) { self.res.unwrap() }
    fn type_of(&self) -> (t: ResourceType) { self.res.type_of() }
}

impl<Res: Resource, C> InputEvent for Event<Res, C> {
    open spec fn mods_spec(&self) -> Modifiers { self.mods }
    open spec fn timestamp_spec(&self) -> Ticks { self.timestamp }
    fn modifiers(&self) -> (m: Modifiers) { self.mods }
    fn timestamp(&self) -> (t: Ticks) { self.timestamp }
}

/// The classes of input events, each with what happened.
#[derive(Clone, PartialEq, Eq, Debug)]
pub enum Class {
    Keyboard(Event<KeyboardInputEvent, KeyboardEvent>),
    Mouse(Event<MouseInputEvent, MouseEvent>),
    Wheel(Event<WheelInputEvent, WheelEvent>),
    Touch(Event<TouchInputEvent, TouchInputEvent>),
    IME(Event<IMEInputEvent, IMEInputEvent>),
}

/// Everything the browser answers about one input event, as the library asks
/// for it: its type (`PPB_InputEvent::GetType`), time stamp bits, modifier
/// bits, and, for mouse events, position, button, click count and movement;
/// for key events, the key code; for character events, the character text.
#[derive(Clone, Debug)]
pub struct EventReport {
    pub event_type: i32,
    pub timestamp: Ticks,
    pub modifiers: u32,
    pub point: PP_Point,
    pub button: i32,
    pub click_count: i32,
    pub movement: PP_Point,
    pub key_code: u32,
    pub text: Vec<char>,
}

/// The event types that the library turns into classes.
pub open spec fn is_classified_type(t: i32) -> bool {
    ||| t == ffi::PP_INPUTEVENT_TYPE_MOUSEDOWN
    ||| t == ffi::PP_INPUTEVENT_TYPE_MOUSEUP
    ||| t == ffi::PP_INPUTEVENT_TYPE_MOUSEMOVE
    ||| t == ffi::PP_INPUTEVENT_TYPE_MOUSEENTER
    ||| t == ffi::PP_INPUTEVENT_TYPE_MOUSELEAVE
    ||| t == ffi::PP_INPUTEVENT_TYPE_KEYDOWN
    ||| t == ffi::PP_INPUTEVENT_TYPE_KEYUP
    ||| t == ffi::PP_INPUTEVENT_TYPE_CHAR
    ||| t == ffi::PP_INPUTEVENT_TYPE_CONTEXTMENU
}

/// What a report must hold for the library to classify it.
pub open spec fn report_ok(r: EventReport) -> bool {
    &&& is_classified_type(r.event_type)
    &&& (r.event_type == ffi::PP_INPUTEVENT_TYPE_MOUSEDOWN || r.event_type == ffi::PP_INPUTEVENT_TYPE_MOUSEUP)
            ==> is_mouse_button(r.button)
    &&& r.event_type == ffi::PP_INPUTEVENT_TYPE_CHAR ==> r.text@.len() > 0
}

/// The class that a report of an event stands for.
pub open spec fn class_of(res: PP_Resource, r: EventReport) -> Class {
    let mods = Modifiers { bits: r.modifiers & 0x1fff };
    let t = r.event_type;
    let click = |b: MouseButton| MouseClickEvent { point: r.point, button: b, click_count: r.click_count };
    let mv = MouseMoveEvent { point: r.point, delta: r.movement, click_count: r.click_count };
    let mouse = |e: MouseEvent| Class::Mouse(Event { res: MouseInputEvent(res), timestamp: r.timestamp, mods, event: e });
    let key = |e: KeyboardEvent| Class::Keyboard(Event { res: KeyboardInputEvent(res), timestamp: r.timestamp, mods, event: e });
    if t == ffi::PP_INPUTEVENT_TYPE_MOUSEDOWN {
        mouse(MouseEvent::Press(Press::Down, click(mouse_button_of(r.button))))
    } else if t == ffi::PP_INPUTEVENT_TYPE_MOUSEUP {
        mouse(MouseEvent::Press(Press::Up, click(mouse_button_of(r.button))))
    } else if t == ffi::PP_INPUTEVENT_TYPE_MOUSEMOVE {
        mouse(MouseEvent::Move(Move::Move, mv))
    } else if t == ffi::PP_INPUTEVENT_TYPE_MOUSEENTER {
        mouse(MouseEvent::Move(Move::Enter, mv))
    } else if t == ffi::PP_INPUTEVENT_TYPE_MOUSELEAVE {
        mouse(MouseEvent::Move(Move::Leave, mv))
    } else if t == ffi::PP_INPUTEVENT_TYPE_KEYDOWN {
        key(KeyboardEvent::Press(Press::Down, r.key_code as i32))
    } else if t == ffi::PP_INPUTEVENT_TYPE_KEYUP {
        key(KeyboardEvent::Press(Press::Up, r.key_code as i32))
    } else if t == ffi::PP_INPUTEVENT_TYPE_CHAR {
        key(KeyboardEvent::Char(r.text@[0]))
    } else {
        mouse(MouseEvent::ContextMenu(click(MouseButton::Right)))
    }
}

impl Class {
    /// Classifies the input event `res` from the browser's report on it.
    /// Wheel events and unknown types are a programming error here.
    pub fn new(res: PP_Resource, report: &EventReport) -> (c: Class)
        requires report_ok(*report),
        ensures c == class_of(res, *report),
    {
        let ticks = report.timestamp;
        let mods = modifiers_from_bitset(report.modifiers);
        let t = report.event_type;
        let mouse_res = MouseInputEvent(res);
        let kb_res = KeyboardInputEvent(res);
        if t == ffi::PP_INPUTEVENT_TYPE_MOUSEDOWN || t == ffi::PP_INPUTEVENT_TYPE_MOUSEUP {
            let press = if t == ffi::PP_INPUTEVENT_TYPE_MOUSEDOWN { Press::Down } else { Press::Up };
            let click = MouseClickEvent {
                point: report.point,
                button: MouseButton::from_ffi(report.button),
                click_count: report.click_count,
            };
            Class::Mouse(Event { res: mouse_res, timestamp: ticks, mods, event: MouseEvent::Press(press, click) })
        } else if t == ffi::PP_INPUTEVENT_TYPE_MOUSEMOVE || t == ffi::PP_INPUTEVENT_TYPE_MOUSEENTER
            || t == ffi::PP_INPUTEVENT_TYPE_MOUSELEAVE {
            let m = if t == ffi::PP_INPUTEVENT_TYPE_MOUSEMOVE {
                Move::Move
            } else if t == ffi::PP_INPUTEVENT_TYPE_MOUSEENTER {
                Move::Enter
            } else {
                Move::Leave
            };
            let mv = MouseMoveEvent {
                point: report.point,
                delta: report.movement,
                click_count: report.click_count,
            };
            Class::Mouse(Event { res: mouse_res, timestamp: ticks, mods, event: MouseEvent::Move(m, mv) })
        } else if t == ffi::PP_INPUTEVENT_TYPE_KEYDOWN || t == ffi::PP_INPUTEVENT_TYPE_KEYUP {
            let press = if t == ffi::PP_INPUTEVENT_TYPE_KEYDOWN { Press::Down } else { Press::Up };
            Class::Keyboard(Event {
                res: kb_res,
                timestamp: ticks,
                mods,
                event: KeyboardEvent::Press(press, #[verifier::truncate] (report.key_code as i32)),
            })
        } else if t == ffi::PP_INPUTEVENT_TYPE_CHAR {
            Class::Keyboard(Event { res: kb_res, timestamp: ticks, mods, event: KeyboardEvent::Char(report.text[0]) })
        } else {
            let click = MouseClickEvent {
                point: report.point,
                button: MouseButton::Right,
                click_count: report.click_count,
            };
            Class::Mouse(Event { res: mouse_res, timestamp: ticks, mods, event: MouseEvent::ContextMenu(click) })
        }
    }
}

impl Resource for Class {
    open spec fn res(&self) -> PP_Resource {
        match self {
            Class::Keyboard(e) => e.res.0,
            Class::Mouse(e) => e.res.0,
            Class::Wheel(e) => e.res.0,
            Class::Touch(e) => e.res.0,
            Class::IME(e) => e.res.res,
        }
    }
    open spec fn kind(&self) -> ResourceType {
        match self {
            Class::Keyboard(e) => ResourceType::KeyboardInputEventRes,
            Class::Mouse(e) => ResourceType::MouseInputEventRes,
            Class::Wheel(e) => ResourceType::WheelInputEventRes,
            Class::Touch(e) => ResourceType::TouchInputEventRes,
            Class::IME(e) => ResourceType::IMEInputEventRes,
        }
    }
    fn unwrap(&self) -> (r: PP_Resource) {
        match self {
            Class::Keyboard(e) => e.res.unwrap(),
            Class::Mouse(e) => e.res.unwrap(),
            Class::Wheel(e) => e.res.unwrap(),
            Class::Touch(e) => e.res.unwrap(),
            Class::IME(e) => e.res.unwrap(),
        }
    }
    fn type_of(&self) -> (t: ResourceType) {
        match self {
            Class::Keyboard(e) => e.res.type_of(),
            Class::Mouse(e) => e.res.type_of(),
            Class::Wheel(e) => e.res.type_of(),
            Class::Touch(e) => e.res.type_of(),
            Class::IME(e) => e.res.type_of(),
        }
    }
}

impl InputEvent for Class {
    open spec fn mods_spec(&self) -> Modifiers {
        match self {
            Class::Keyboard(e) => e.mods,
            Class::Mouse(e) => e.mods,
            Class::Wheel(e) => e.mods,
            Class::Touch(e) => e.mods,
            Class::IME(e) => e.mods,
        }
    }
    open spec fn timestamp_spec(&self) -> Ticks {
        match self {
            Class::Keyboard(e) => e.timestamp,
            Class::Mouse(e) => e.timestamp,
            Class::Wheel(e) => e.timestamp,
            Class::Touch(e) => e.timestamp,
            Class::IME(e) => e.timestamp,
        }
    }
    fn modifiers(&self) -> (m: Modifiers) {
        match self {
            Class::Keyboard(e) => e.mods,
            Class::Mouse(e) => e.mods,
            Class::Wheel(e) => e.mods,
            Class::Touch(e) => e.mods,
            Class::IME(e) => e.mods,
        }
    }
    fn timestamp(&self) -> (t: Ticks) {
        match self {
            Class::Keyboard(e) => e.timestamp,
            Class::Mouse(e) => e.timestamp,
            Class::Wheel(e) => e.timestamp,
            Class::Touch(e) => e.timestamp,
            Class::IME(e) => e.timestamp,
        }
    }
}

impl KeyboardInputEvent {
    /// The text that the key press typed, as a browser string: `v` is the
    /// var that `PPB_KeyboardInputEvent::GetCharacterText(self)` returned.
    pub fn get_char_text(&self, v: ffi::PP_Var) -> (s: StringVar)
        ensures s.0 == v.value,
    {
        StringVar::new_from_var(v)
    }
}

impl WheelInputEvent {
    /// `reply` is the answer of `PPB_WheelInputEvent::GetScrollByPage(self)`.
    pub fn get_scroll_by_page(&self, reply: ffi::PP_Bool) -> (b: bool)
        ensures b == pp_bool(reply),
    {
        reply != ffi::PP_FALSE
    }
}

#[derive(Clone, Copy, PartialEq, Eq, Structural, Debug, Hash)]
pub enum TouchListType {
    Touches,
    Delta,
    Target,
}

/// The browser's name for each kind of touch list.
pub open spec fn touch_list_value(t: TouchListType) -> ffi::PP_TouchListType {
    match t {
        TouchListType::Touches => ffi::PP_TOUCHLIST_TYPE_TOUCHES,
        TouchListType::Delta => ffi::PP_TOUCHLIST_TYPE_CHANGEDTOUCHES,
        TouchListType::Target => ffi::PP_TOUCHLIST_TYPE_TARGETTOUCHES,
    }
}

impl TouchListType {
    pub fn to_ffi(&self) -> (t: ffi::PP_TouchListType)
        ensures
            t == touch_list_value(*self),
    {
        match self {
            TouchListType::Touches => ffi::PP_TOUCHLIST_TYPE_TOUCHES,
            TouchListType::Delta => ffi::PP_TOUCHLIST_TYPE_CHANGEDTOUCHES,
            TouchListType::Target => ffi::PP_TOUCHLIST_TYPE_TARGETTOUCHES,
        }
    }
}

/// One of the touch lists of a touch event.
#[derive(Clone, Copy, PartialEq, Eq, Structural, Debug)]
pub struct TouchList {
    pub event: TouchInputEvent,
    pub list_type: TouchListType,
}

/// A walk over the positions of a touch list.
#[derive(Clone, Copy, PartialEq, Eq, Structural, Debug)]
pub struct TouchListIterator {
    pub list: TouchList,
    pub current: usize,
    pub size: usize,
}

impl TouchInputEvent {
    pub fn get_touch_list(&self, list_type: TouchListType) -> (l: TouchList)
        ensures l.event == *self, l.list_type == list_type,
    {
        TouchList { event: *self, list_type }
    }
}

impl TouchList {
    /// The number of touches: `count` is the answer of
    /// `PPB_TouchInputEvent::GetTouchCount(event, list type)`.
    pub fn len(&self, count: u32) -> (n: usize)
        ensures n == count,
    {
        count as usize
    }

    /// A walk over the list's positions: `count` is the answer of
    /// `GetTouchCount(event, list type)`.
    pub fn iter(&self, count: u32) -> (it: TouchListIterator)
        ensures it.list == *self, it.current == 0, it.size == count,
    {
        TouchListIterator { list: *self, current: 0, size: self.len(count) }
    }

    /// The touch with an id, if the id is below the list's length: `count` is
    /// the answer of `GetTouchCount`, `found` that of
    /// `PPB_TouchInputEvent::GetTouchById(event, list type, id)`.
    pub fn find_id(&self, id: u32, count: u32, found: TouchPoint) -> (p: Option<TouchPoint>)
        ensures p == if id < count { Some(found) } else { None::<TouchPoint> },
    {
        if id < count { Some(found) } else { None }
    }
}

impl TouchListIterator {
    /// The next position to fetch, if any are left.
    pub fn next(&mut self) -> (i: Option<usize>)
        ensures
            old(self).current >= old(self).size ==> (i is None && *final(self) == *old(self)),
            old(self).current < old(self).size ==> (i == Some(old(self).current)
                && final(self).current == old(self).current + 1
                && final(self).size == old(self).size
                && final(self).list == old(self).list),
    {
        if self.current >= self.size {
            None
        } else {
            self.current = self.current + 1;
            Some(self.current - 1)
        }
    }

    pub fn indexable(&self) -> (n: usize)
        ensures n == self.size,
    {
        self.size
    }

    /// A position, if it is within the list.
    pub fn idx(&self, index: usize) -> (i: Option<usize>)
        ensures i == if index < self.size { Some(index) } else { None::<usize> },
    {
        if index < self.size { Some(index) } else { None }
    }
}

/// A composition event of an input method: its text and how many segments
/// the text is split into.
#[derive(Debug)]
pub struct IMEInputEvent {
    pub res: PP_Resource,
    pub string: String,
    pub segments_len: usize,
}

impl Clone for IMEInputEvent {
    fn clone(&self) -> (e: IMEInputEvent)
        ensures e.res == self.res, e.string@ == self.string@, e.segments_len == self.segments_len,
    {
        IMEInputEvent { res: self.res, string: self.string.clone(), segments_len: self.segments_len }
    }
}

impl PartialEq for IMEInputEvent {
    fn eq(&self, rhs: &IMEInputEvent) -> (b: bool) {
        self.res == rhs.res
    }
}

impl PartialEqSpecImpl for IMEInputEvent {
    open spec fn obeys_eq_spec() -> bool { true }
    open spec fn eq_spec(&self, rhs: &IMEInputEvent) -> bool { self.res == rhs.res }
}

impl Eq for IMEInputEvent {}

/// Whether `[start, end)` is a slice of the text at character boundaries.
pub open spec fn is_text_slice(text: Seq<u8>, start: int, end: int) -> bool {
    &&& 0 <= start <= end <= text.len()
    &&& vstd::utf8::is_char_boundary(text, start)
    &&& vstd::utf8::is_char_boundary(text, end)
}

/// The bytes `[start, end)` of a text.
pub fn text_slice<'a>(text: &'a str, start: usize, end: usize) -> (s: &'a str)
    requires is_text_slice(text.spec_bytes(), start as int, end as int),
    ensures s.spec_bytes() == text.spec_bytes().subrange(start as int, end as int),
{
    let (_, rest) = text.split_at(start);
    proof {
        assert(rest.spec_bytes() =~= text.spec_bytes().subrange(start as int, text.spec_bytes().len() as int));
        vstd::utf8::encode_utf8_valid_utf8(text@);
        lemma_char_boundary_shift(text.spec_bytes(), start as int, end as int);
    }
    let (seg, _) = rest.split_at(end - start);
    proof {
        assert(seg.spec_bytes() =~= text.spec_bytes().subrange(start as int, end as int));
    }
    seg
}

proof fn lemma_char_boundary_shift(text: Seq<u8>, start: int, end: int)
    requires
        vstd::utf8::valid_utf8(text),
        is_text_slice(text, start, end),
    ensures vstd::utf8::is_char_boundary(text.subrange(start, text.len() as int), end - start),
{
    let rest = text.subrange(start, text.len() as int);
    vstd::utf8::valid_utf8_split(text, start);
    let e = end - start;
    if e == 0 {
    } else if e == rest.len() {
        vstd::utf8::is_char_boundary_start_end_of_seq(rest);
    } else {
        vstd::utf8::is_char_boundary_iff_not_is_continuation_byte(rest, e);
        vstd::utf8::is_char_boundary_iff_not_is_continuation_byte(text, end);
        assert(rest[e] == text[end]);
    }
}

impl IMEInputEvent {
    /// The event `res`: `text` is the text of the var that
    /// `PPB_IMEInputEvent::GetText(res)` returned, `segments` the answer of
    /// `GetSegmentNumber(res)`.
    pub fn new(res: PP_Resource, text: String, segments: u32) -> (e: IMEInputEvent)
        ensures e.res == res, e.string@ == text@, e.segments_len == segments,
    {
        IMEInputEvent { res, string: text, segments_len: segments as usize }
    }

    pub fn segments_len(&self) -> (n: usize)
        ensures n == self.segments_len,
    {
        self.segments_len
    }

    /// The byte range of a segment: `start` and `end` are the answers of
    /// `GetSegmentOffset(res, index)` and `GetSegmentOffset(res, index + 1)`.
    pub fn segment_offset(&self, index: usize, start: u32, end: u32) -> (r: Option<(usize, usize)>)
        ensures
            r == if index < self.segments_len { Some((start as usize, end as usize)) } else { None::<(usize, usize)> },
    {
        if index < self.segments_len() {
            Some((start as usize, end as usize))
        } else {
            None
        }
    }

    /// The text of a segment, given the browser's offsets for it as for
    /// `segment_offset`.
    pub fn segment_str<'a>(&'a self, index: usize, start: u32, end: u32) -> (r: Option<&'a str>)
        requires
            index < self.segments_len ==> is_text_slice(vstd::utf8::encode_utf8(self.string@), start as int, end as int),
        ensures
            index < self.segments_len <==> r is Some,
            r matches Some(t) ==> t.spec_bytes() == vstd::utf8::encode_utf8(self.string@).subrange(start as int, end as int),
    {
        if index < self.segments_len() {
            let (s, e) = match self.segment_offset(index, start, end) {
                Some(o) => o,
                None => (0, 0),
            };
            Some(text_slice(self.string.as_str(), s, e))
        } else {
            None
        }
    }

    /// The selected text: `start` and `end` are what
    /// `PPB_IMEInputEvent::GetSelection(res)` filled in.
    pub fn selection_str<'a>(&'a self, start: u32, end: u32) -> (t: &'a str)
        requires is_text_slice(vstd::utf8::encode_utf8(self.string@), start as int, end as int),
        ensures t.spec_bytes() == vstd::utf8::encode_utf8(self.string@).subrange(start as int, end as int),
    {
        text_slice(self.string.as_str(), start as usize, end as usize)
    }

    /// The segment being edited: `reply` is the answer of
    /// `GetTargetSegment(res)`, -1 when there is none.
    pub fn target_segment_index(&self, reply: i32) -> (r: Option<usize>)
        ensures r == if reply == -1 { None::<usize> } else { Some(reply as usize) },
    {
        if reply == -1 { None } else { Some(#[verifier::truncate] (reply as usize)) }
    }

    /// The text of the segment being edited, given the browser's answers as
    /// for `target_segment_index` and `segment_str`.
    pub fn target_segment_str<'a>(&'a self, target: i32, start: u32, end: u32) -> (r: Option<&'a str>)
        requires
            target != -1 && (target as usize) < self.segments_len
                ==> is_text_slice(vstd::utf8::encode_utf8(self.string@), start as int, end as int),
        ensures
            (target != -1 && (target as usize) < self.segments_len) <==> r is Some,
            r matches Some(t) ==> t.spec_bytes() == vstd::utf8::encode_utf8(self.string@).subrange(start as int, end as int),
    {
        match self.target_segment_index(target) {
            Some(index) => self.segment_str(index, start, end),
            None => None,
        }
    }
}

impl Resource for IMEInputEvent {
    open spec fn res(&self) -> PP_Resource { self.res }
    open spec fn kind(&self) -> ResourceType { ResourceType::IMEInputEventRes }
    fn unwrap(&self) -> (r: PP_Resource) { self.res }
    fn type_of(&self) -> (t: ResourceType) { ResourceType::IMEInputEventRes }
}

/// A walk over the segments of a composition event, from the first.
pub struct IMESegmentIterator<'a> {
    pub event: &'a IMEInputEvent,
    pub current: usize,
}

impl IMEInputEvent {
    /// A walk over the event's segments.
    pub fn segment_iter<'a>(&'a self) -> (it: IMESegmentIterator<'a>)
        ensures it.event == self, it.current == 0,
    {
        IMESegmentIterator { event: self, current: 0 }
    }
}

impl<'a> IMESegmentIterator<'a> {
    /// The next segment's text, none past the last: `start` and `end` are
    /// the browser's offsets for it, as for `segment_offset`. The walk moves
    /// on either way.
    pub fn next(&mut self, start: u32, end: u32) -> (r: Option<&'a str>)
        requires
            old(self).current < usize::MAX,
            old(self).current < old(self).event.segments_len ==>
                is_text_slice(vstd::utf8::encode_utf8(old(self).event.string@), start as int, end as int),
        ensures
            final(self).event == old(self).event,
            final(self).current == old(self).current + 1,
            old(self).current < old(self).event.segments_len <==> r is Some,
            r matches Some(t) ==> t.spec_bytes() == vstd::utf8::encode_utf8(old(self).event.string@).subrange(start as int, end as int),
    {
        self.current = self.current + 1;
        self.event.segment_str(self.current - 1, start, end)
    }

    /// How many segments can be reached by index.
    pub fn indexable(&self) -> (n: usize)
        ensures n == self.event.segments_len,
    {
        self.event.segments_len()
    }

    /// A segment's text by index, none past the last: `start` and `end`
    /// are the browser's offsets for it.
    pub fn idx(&mut self, index: usize, start: u32, end: u32) -> (r: Option<&'a str>)
        requires
            index < old(self).event.segments_len ==>
                is_text_slice(vstd::utf8::encode_utf8(old(self).event.string@), start as int, end as int),
        ensures
            *final(self) == *old(self),
            index < old(self).event.segments_len <==> r is Some,
            r matches Some(t) ==> t.spec_bytes() == vstd::utf8::encode_utf8(old(self).event.string@).subrange(start as int, end as int),
    {
        self.event.segment_str(index, start, end)
    }
}

/// The browser's event type decides what an event is classified as: a
/// mouse press down or up for MOUSEDOWN and MOUSEUP, with the reported
/// button, position and click count; a mouse move of kind Move, Enter or
/// Leave for MOUSEMOVE, MOUSEENTER and MOUSELEAVE, with the reported
/// position, movement and click count; a key press down or up for KEYDOWN and
/// KEYUP, with the key code; a character for CHAR, the first one typed; and a
/// right-button context menu for CONTEXTMENU. Every class keeps the event's
/// resource and time stamp, and holds exactly the reported modifiers.
pub proof fn lemma_event_type_decides_class(res: PP_Resource, r: EventReport, m: Modifiers_)
    requires report_ok(r),
    ensures
        r.event_type == ffi::PP_INPUTEVENT_TYPE_MOUSEDOWN ==> (class_of(res, r) matches Class::Mouse(e)
            && e.event matches MouseEvent::Press(p, k) && p == Press::Down
            && k.button == mouse_button_of(r.button) && k.point == r.point && k.click_count == r.click_count),
        r.event_type == ffi::PP_INPUTEVENT_TYPE_MOUSEUP ==> (class_of(res, r) matches Class::Mouse(e)
            && e.event matches MouseEvent::Press(p, k) && p == Press::Up
            && k.button == mouse_button_of(r.button) && k.point == r.point && k.click_count == r.click_count),
        r.event_type == ffi::PP_INPUTEVENT_TYPE_MOUSEMOVE ==> (class_of(res, r) matches Class::Mouse(e)
            && e.event matches MouseEvent::Move(k, v) && k == Move::Move
            && v.point == r.point && v.delta == r.movement && v.click_count == r.click_count),
        r.event_type == ffi::PP_INPUTEVENT_TYPE_MOUSEENTER ==> (class_of(res, r) matches Class::Mouse(e)
            && e.event matches MouseEvent::Move(k, v) && k == Move::Enter
            && v.point == r.point && v.delta == r.movement && v.click_count == r.click_count),
        r.event_type == ffi::PP_INPUTEVENT_TYPE_MOUSELEAVE ==> (class_of(res, r) matches Class::Mouse(e)
            && e.event matches MouseEvent::Move(k, v) && k == Move::Leave
            && v.point == r.point && v.delta == r.movement && v.click_count == r.click_count),
        r.event_type == ffi::PP_INPUTEVENT_TYPE_KEYDOWN ==> (class_of(res, r) matches Class::Keyboard(e)
            && e.event == KeyboardEvent::Press(Press::Down, r.key_code as i32)),
        r.event_type == ffi::PP_INPUTEVENT_TYPE_KEYUP ==> (class_of(res, r) matches Class::Keyboard(e)
            && e.event == KeyboardEvent::Press(Press::Up, r.key_code as i32)),
        r.event_type == ffi::PP_INPUTEVENT_TYPE_CHAR ==> (class_of(res, r) matches Class::Keyboard(e)
            && e.event == KeyboardEvent::Char(r.text@[0])),
        r.event_type == ffi::PP_INPUTEVENT_TYPE_CONTEXTMENU ==> (class_of(res, r) matches Class::Mouse(e)
            && e.event matches MouseEvent::ContextMenu(k) && k.button == MouseButton::Right
            && k.point == r.point && k.click_count == r.click_count),
        class_of(res, r) matches Class::Mouse(e) ==>
            e.res == MouseInputEvent(res) && e.timestamp == r.timestamp
            && e.mods.has(m) == bit_set(r.modifiers, modifier_index(m)),
        class_of(res, r) matches Class::Keyboard(e) ==>
            e.res == KeyboardInputEvent(res) && e.timestamp == r.timestamp
            && e.mods.has(m) == bit_set(r.modifiers, modifier_index(m)),
        class_of(res, r) is Mouse || class_of(res, r) is Keyboard,
{
    let i = modifier_index(m) as u32;
    lemma_modifier_index_roundtrip(m, 0);
    let bits = r.modifiers;
    assert(((bits & 0x1fff) >> i) & 1 == (bits >> i) & 1) by (bit_vector)
        requires i <= 12;
}

/// Each button the browser reports reads as the button named for it.
pub proof fn lemma_mouse_button_names(v: i32)
    requires is_mouse_button(v),
    ensures
        mouse_button_of(v) == MouseButton::Left <==> v == ffi::PP_INPUTEVENT_MOUSEBUTTON_LEFT,
        mouse_button_of(v) == MouseButton::Middle <==> v == ffi::PP_INPUTEVENT_MOUSEBUTTON_MIDDLE,
        mouse_button_of(v) == MouseButton::Right <==> v == ffi::PP_INPUTEVENT_MOUSEBUTTON_RIGHT,
{
}

/// A modifier set holds a modifier exactly when the browser's bit for that
/// modifier is set.
pub proof fn lemma_modifiers_by_name(bits: u32)
    ensures
        (Modifiers { bits }).has(Modifiers_::ShiftKey) <==> bits & ffi::PP_INPUTEVENT_MODIFIER_SHIFTKEY != 0,
        (Modifiers { bits }).has(Modifiers_::ControlKey) <==> bits & ffi::PP_INPUTEVENT_MODIFIER_CONTROLKEY != 0,
        (Modifiers { bits }).has(Modifiers_::AltKey) <==> bits & ffi::PP_INPUTEVENT_MODIFIER_ALTKEY != 0,
        (Modifiers { bits }).has(Modifiers_::MetaKey) <==> bits & ffi::PP_INPUTEVENT_MODIFIER_METAKEY != 0,
        (Modifiers { bits }).has(Modifiers_::IsKeyPad) <==> bits & ffi::PP_INPUTEVENT_MODIFIER_ISKEYPAD != 0,
        (Modifiers { bits }).has(Modifiers_::IsAutoRepeat) <==> bits & ffi::PP_INPUTEVENT_MODIFIER_ISAUTOREPEAT != 0,
        (Modifiers { bits }).has(Modifiers_::LeftButtonDown) <==> bits & ffi::PP_INPUTEVENT_MODIFIER_LEFTBUTTONDOWN != 0,
        (Modifiers { bits }).has(Modifiers_::MiddleButtonDown) <==> bits & ffi::PP_INPUTEVENT_MODIFIER_MIDDLEBUTTONDOWN != 0,
        (Modifiers { bits }).has(Modifiers_::RightButtonDown) <==> bits & ffi::PP_INPUTEVENT_MODIFIER_RIGHTBUTTONDOWN != 0,
        (Modifiers { bits }).has(Modifiers_::CapsLockKey) <==> bits & ffi::PP_INPUTEVENT_MODIFIER_CAPSLOCKKEY != 0,
        (Modifiers { bits }).has(Modifiers_::NumLockKey) <==> bits & ffi::PP_INPUTEVENT_MODIFIER_NUMLOCKKEY != 0,
        (Modifiers { bits }).has(Modifiers_::IsLeft) <==> bits & ffi::PP_INPUTEVENT_MODIFIER_ISLEFT != 0,
        (Modifiers { bits }).has(Modifiers_::IsRight) <==> bits & ffi::PP_INPUTEVENT_MODIFIER_ISRIGHT != 0,
{
    assert(
        (((bits >> 0u32) & 1 == 1) <==> (bits & 1u32 != 0)) &&
        (((bits >> 1u32) & 1 == 1) <==> (bits & 2u32 != 0)) &&
        (((bits >> 2u32) & 1 == 1) <==> (bits & 4u32 != 0)) &&
        (((bits >> 3u32) & 1 == 1) <==> (bits & 8u32 != 0)) &&
        (((bits >> 4u32) & 1 == 1) <==> (bits & 16u32 != 0)) &&
        (((bits >> 5u32) & 1 == 1) <==> (bits & 32u32 != 0)) &&
        (((bits >> 6u32) & 1 == 1) <==> (bits & 64u32 != 0)) &&
        (((bits >> 7u32) & 1 == 1) <==> (bits & 128u32 != 0)) &&
        (((bits >> 8u32) & 1 == 1) <==> (bits & 256u32 != 0)) &&
        (((bits >> 9u32) & 1 == 1) <==> (bits & 512u32 != 0)) &&
        (((bits >> 10u32) & 1 == 1) <==> (bits & 1024u32 != 0)) &&
        (((bits >> 11u32) & 1 == 1) <==> (bits & 2048u32 != 0)) &&
        (((bits >> 12u32) & 1 == 1) <==> (bits & 4096u32 != 0))
    ) by (bit_vector);
}

/// All touches, the changed touches and the touches on the target are each
/// asked for under their own browser name.
pub proof fn lemma_touch_lists_by_name(t: TouchListType)
    ensures
        touch_list_value(t) == ffi::PP_TOUCHLIST_TYPE_TOUCHES <==> t is Touches,
        touch_list_value(t) == ffi::PP_TOUCHLIST_TYPE_CHANGEDTOUCHES <==> t is Delta,
        touch_list_value(t) == ffi::PP_TOUCHLIST_TYPE_TARGETTOUCHES <==> t is Target,
{
}

} // verus!
