//! Browser vars: the tagged values that pass between plugin and page.

use vstd::prelude::*;
use crate::ffi;
use crate::ffi::{PP_Var, var_of};
use crate::console::utf8_text;
use vstd::string::StringSliceAdditionalSpecFns;

verus! {

/// The null value.
#[derive(Clone, Copy, PartialEq, Eq, Structural, Debug)]
pub struct NullVar;

/// The undefined value.
#[derive(Clone, Copy, PartialEq, Eq, Structural, Debug)]
pub struct UndefinedVar;

/// A browser string, by its var id.
#[derive(Clone, Copy, PartialEq, Eq, Structural, Debug, Hash)]
pub struct StringVar(pub i64);

/// A browser object, by its var id.
#[derive(Clone, Copy, PartialEq, Eq, Structural, Debug, Hash)]
pub struct ObjectVar(pub i64);

/// A browser array, by its var id.
#[derive(Clone, Copy, PartialEq, Eq, Structural, Debug, Hash)]
pub struct ArrayVar(pub i64);

/// A browser dictionary, by its var id.
#[derive(Clone, Copy, PartialEq, Eq, Structural, Debug, Hash)]
pub struct DictionaryVar(pub i64);

/// A browser array buffer, by its var id.
#[derive(Clone, Copy, PartialEq, Eq, Structural, Debug, Hash)]
pub struct ArrayBufferVar(pub i64);

/// Any var, read by its type. A double is held by the bits of the double.
#[derive(Clone, Copy, PartialEq, Eq, Structural, Debug)]
pub enum AnyVar {
    Null,
    Undefined,
    Bool(bool),
    I32(i32),
    F64(i64),
    String(StringVar),
    Object(ObjectVar),
    Array(ArrayVar),
    Dictionary(DictionaryVar),
    ArrayBuffer(ArrayBufferVar),
}

/// What a raw var is read as. Resource vars and vars of unknown type read as
/// undefined.
pub open spec fn any_of(var: PP_Var) -> AnyVar {
    let t = var._type;
    if t == ffi::PP_VARTYPE_NULL { AnyVar::Null }
    else if t == ffi::PP_VARTYPE_UNDEFINED { AnyVar::Undefined }
    else if t == ffi::PP_VARTYPE_BOOL { AnyVar::Bool(var.value != 0) }
    else if t == ffi::PP_VARTYPE_INT32 { AnyVar::I32(var.value as i32) }
    else if t == ffi::PP_VARTYPE_DOUBLE { AnyVar::F64(var.value) }
    else if t == ffi::PP_VARTYPE_STRING { AnyVar::String(StringVar(var.value)) }
    else if t == ffi::PP_VARTYPE_OBJECT { AnyVar::Object(ObjectVar(var.value)) }
    else if t == ffi::PP_VARTYPE_ARRAY { AnyVar::Array(ArrayVar(var.value)) }
    else if t == ffi::PP_VARTYPE_DICTIONARY { AnyVar::Dictionary(DictionaryVar(var.value)) }
    else if t == ffi::PP_VARTYPE_ARRAY_BUFFER { AnyVar::ArrayBuffer(ArrayBufferVar(var.value)) }
    else { AnyVar::Undefined }
}

/// The raw var that stands for a value.
pub open spec fn var_of_any(a: AnyVar) -> PP_Var {
    match a {
        AnyVar::Null => var_of(ffi::PP_VARTYPE_NULL, 0),
        AnyVar::Undefined => var_of(ffi::PP_VARTYPE_UNDEFINED, 0),
        AnyVar::Bool(b) => var_of(ffi::PP_VARTYPE_BOOL, if b { 1 } else { 0 }),
        AnyVar::I32(i) => var_of(ffi::PP_VARTYPE_INT32, i as i64),
        AnyVar::F64(bits) => var_of(ffi::PP_VARTYPE_DOUBLE, bits),
        AnyVar::String(v) => var_of(ffi::PP_VARTYPE_STRING, v.0),
        AnyVar::Object(v) => var_of(ffi::PP_VARTYPE_OBJECT, v.0),
        AnyVar::Array(v) => var_of(ffi::PP_VARTYPE_ARRAY, v.0),
        AnyVar::Dictionary(v) => var_of(ffi::PP_VARTYPE_DICTIONARY, v.0),
        AnyVar::ArrayBuffer(v) => var_of(ffi::PP_VARTYPE_ARRAY_BUFFER, v.0),
    }
}

/// Vars whose lifetime the browser counts.
pub open spec fn is_ref_counted_type(t: ffi::PP_VarType) -> bool {
    ||| t == ffi::PP_VARTYPE_STRING
    ||| t == ffi::PP_VARTYPE_OBJECT
    ||| t == ffi::PP_VARTYPE_ARRAY
    ||| t == ffi::PP_VARTYPE_DICTIONARY
    ||| t == ffi::PP_VARTYPE_ARRAY_BUFFER
    ||| t == ffi::PP_VARTYPE_RESOURCE
}

/// A value that can be handed to the browser as a var.
pub trait ToVar {
    /// The var that stands for the value.
    spec fn var_spec(&self) -> PP_Var;

    fn to_var(&self) -> (v: PP_Var)
        ensures
            v == self.var_spec(),
    ;

    /// The value as the library reads its var.
    fn to_any(&self) -> (a: AnyVar)
        ensures
            a == any_of(self.var_spec()),
    {
        AnyVar::new(self.to_var())
    }
}

/// A value that can be read from a var of the right type.
pub trait FromVar: Sized {
    /// What a var is read as, if it holds a value of this type.
    spec fn from_var_spec(var: PP_Var) -> Option<Self>;

    fn from_var(var: PP_Var) -> (r: Option<Self>)
        ensures
            r == Self::from_var_spec(var),
    ;
}

/// Builds a value from a var already known to be of the right type.
trait VarCtor: Sized {
    spec fn ctor_spec(var: PP_Var) -> Self;

    fn ctor(var: PP_Var) -> (r: Self)
        ensures
            r == Self::ctor_spec(var),
    ;
}

/// A var that the browser holds by reference, known by its id.
pub trait ByRefVar {
    spec fn ref_id(&self) -> i64;

    fn get_id(&self) -> (r: i64)
        ensures
            r == self.ref_id(),
    ;
}

/// Type tests on values that are or stand for vars. Each answers `false`
/// unless the type says otherwise.
pub trait Var {
    fn is_null(&self) -> (b: bool)
        default_ensures !b,
    { false }
    fn is_undefined(&self) -> (b: bool)
        default_ensures !b,
    { false }
    fn is_a_bool(&self) -> (b: bool)
        default_ensures !b,
    { false }
    fn is_an_i32(&self) -> (b: bool)
        default_ensures !b,
    { false }
    fn is_a_f64(&self) -> (b: bool)
        default_ensures !b,
    { false }
    fn is_a_string(&self) -> (b: bool)
        default_ensures !b,
    { false }
    fn is_an_object(&self) -> (b: bool)
        default_ensures !b,
    { false }
    fn is_an_array(&self) -> (b: bool)
        default_ensures !b,
    { false }
    fn is_a_dictionary(&self) -> (b: bool)
        default_ensures !b,
    { false }
    fn is_an_array_buffer(&self) -> (b: bool)
        default_ensures !b,
    { false }
    fn is_a_resource(&self) -> (b: bool)
        default_ensures !b,
    { false }
}

/// Substitutes a var for an absent value.
pub trait UnwrapOr {
    fn unwrap_or_null(&self) -> AnyVar;
    fn unwrap_or_undefined(&self) -> AnyVar;
}

/// A value that can be made into a browser string.
pub trait ToStringVar {
    fn to_string_var(&self) -> StringVar;
}

impl AnyVar {
    /// Reads a raw var by its type.
    pub fn new(var: PP_Var) -> (a: AnyVar)
        ensures
            a == any_of(var),
    {
        let t = var._type;
        if t == ffi::PP_VARTYPE_NULL {
            AnyVar::Null
        } else if t == ffi::PP_VARTYPE_UNDEFINED {
            AnyVar::Undefined
        } else if t == ffi::PP_VARTYPE_BOOL {
            AnyVar::Bool(ffi::bool_from_var(var))
        } else if t == ffi::PP_VARTYPE_INT32 {
            AnyVar::I32(ffi::i32_from_var(var))
        } else if t == ffi::PP_VARTYPE_DOUBLE {
            AnyVar::F64(var.value)
        } else if t == ffi::PP_VARTYPE_STRING {
            AnyVar::String(StringVar::new_from_var(var))
        } else if t == ffi::PP_VARTYPE_OBJECT {
            AnyVar::Object(ObjectVar::new_from_var(var))
        } else if t == ffi::PP_VARTYPE_ARRAY {
            AnyVar::Array(ArrayVar::new_from_var(var))
        } else if t == ffi::PP_VARTYPE_DICTIONARY {
            AnyVar::Dictionary(DictionaryVar::new_from_var(var))
        } else if t == ffi::PP_VARTYPE_ARRAY_BUFFER {
            AnyVar::ArrayBuffer(ArrayBufferVar::new_from_var(var))
        } else {
            AnyVar::Undefined
        }
    }

    /// Whether the value's var is one the browser counts references of.
    pub fn is_ref_counted(&self) -> (b: bool)
        ensures
            b == is_ref_counted_type(var_of_any(*self)._type),
    {
        self.is_a_string() || self.is_an_object() || self.is_an_array()
            || self.is_a_dictionary() || self.is_an_array_buffer() || self.is_a_resource()
    }
}

impl ToVar for AnyVar {
    open spec fn var_spec(&self) -> PP_Var { var_of_any(*self) }

    fn to_var(&self) -> (v: PP_Var) {
        match self {
            AnyVar::Null => NullVar.to_var(),
            AnyVar::Undefined => UndefinedVar.to_var(),
            AnyVar::Bool(b) => b.to_var(),
            AnyVar::I32(i) => i.to_var(),
            AnyVar::F64(bits) => ffi::f64_bits_to_var(*bits),
            AnyVar::String(v) => v.to_var(),
            AnyVar::Object(v) => v.to_var(),
            AnyVar::Array(v) => v.to_var(),
            AnyVar::Dictionary(v) => v.to_var(),
            AnyVar::ArrayBuffer(v) => v.to_var(),
        }
    }

    fn to_any(&self) -> (a: AnyVar) {
        proof { lemma_any_var_roundtrip(*self); }
        *self
    }
}

impl Var for AnyVar {
    fn is_null(&self) -> (b: bool)
        ensures b == (var_of_any(*self)._type == ffi::PP_VARTYPE_NULL),
    { self.to_var()._type == ffi::PP_VARTYPE_NULL }
    fn is_undefined(&self) -> (b: bool)
        ensures b == (var_of_any(*self)._type == ffi::PP_VARTYPE_UNDEFINED),
    { self.to_var()._type == ffi::PP_VARTYPE_UNDEFINED }
    fn is_a_bool(&self) -> (b: bool)
        ensures b == (var_of_any(*self)._type == ffi::PP_VARTYPE_BOOL),
    { self.to_var()._type == ffi::PP_VARTYPE_BOOL }
    fn is_an_i32(&self) -> (b: bool)
        ensures b == (var_of_any(*self)._type == ffi::PP_VARTYPE_INT32),
    { self.to_var()._type == ffi::PP_VARTYPE_INT32 }
    fn is_a_f64(&self) -> (b: bool)
        ensures b == (var_of_any(*self)._type == ffi::PP_VARTYPE_DOUBLE),
    { self.to_var()._type == ffi::PP_VARTYPE_DOUBLE }
    fn is_a_string(&self) -> (b: bool)
        ensures b == (var_of_any(*self)._type == ffi::PP_VARTYPE_STRING),
    { self.to_var()._type == ffi::PP_VARTYPE_STRING }
    fn is_an_object(&self) -> (b: bool)
        ensures b == (var_of_any(*self)._type == ffi::PP_VARTYPE_OBJECT),
    { self.to_var()._type == ffi::PP_VARTYPE_OBJECT }
    fn is_an_array(&self) -> (b: bool)
        ensures b == (var_of_any(*self)._type == ffi::PP_VARTYPE_ARRAY),
    { self.to_var()._type == ffi::PP_VARTYPE_ARRAY }
    fn is_a_dictionary(&self) -> (b: bool)
        ensures b == (var_of_any(*self)._type == ffi::PP_VARTYPE_DICTIONARY),
    { self.to_var()._type == ffi::PP_VARTYPE_DICTIONARY }
    fn is_an_array_buffer(&self) -> (b: bool)
        ensures b == (var_of_any(*self)._type == ffi::PP_VARTYPE_ARRAY_BUFFER),
    { self.to_var()._type == ffi::PP_VARTYPE_ARRAY_BUFFER }
    fn is_a_resource(&self) -> (b: bool)
        ensures b == (var_of_any(*self)._type == ffi::PP_VARTYPE_RESOURCE),
    { self.to_var()._type == ffi::PP_VARTYPE_RESOURCE }
}

impl Var for PP_Var {
    fn is_null(&self) -> (b: bool)
        ensures b == (self._type == ffi::PP_VARTYPE_NULL),
    { self._type == ffi::PP_VARTYPE_NULL }
    fn is_undefined(&self) -> (b: bool)
        ensures b == (self._type == ffi::PP_VARTYPE_UNDEFINED),
    { self._type == ffi::PP_VARTYPE_UNDEFINED }
    fn is_a_bool(&self) -> (b: bool)
        ensures b == (self._type == ffi::PP_VARTYPE_BOOL),
    { self._type == ffi::PP_VARTYPE_BOOL }
    fn is_an_i32(&self) -> (b: bool)
        ensures b == (self._type == ffi::PP_VARTYPE_INT32),
    { self._type == ffi::PP_VARTYPE_INT32 }
    fn is_a_f64(&self) -> (b: bool)
        ensures b == (self._type == ffi::PP_VARTYPE_DOUBLE),
    { self._type == ffi::PP_VARTYPE_DOUBLE }
    fn is_a_string(&self) -> (b: bool)
        ensures b == (self._type == ffi::PP_VARTYPE_STRING),
    { self._type == ffi::PP_VARTYPE_STRING }
    fn is_an_object(&self) -> (b: bool)
        ensures b == (self._type == ffi::PP_VARTYPE_OBJECT),
    { self._type == ffi::PP_VARTYPE_OBJECT }
    fn is_an_array(&self) -> (b: bool)
        ensures b == (self._type == ffi::PP_VARTYPE_ARRAY),
    { self._type == ffi::PP_VARTYPE_ARRAY }
    fn is_a_dictionary(&self) -> (b: bool)
        ensures b == (self._type == ffi::PP_VARTYPE_DICTIONARY),
    { self._type == ffi::PP_VARTYPE_DICTIONARY }
    fn is_an_array_buffer(&self) -> (b: bool)
        ensures b == (self._type == ffi::PP_VARTYPE_ARRAY_BUFFER),
    { self._type == ffi::PP_VARTYPE_ARRAY_BUFFER }
    fn is_a_resource(&self) -> (b: bool)
        ensures b == (self._type == ffi::PP_VARTYPE_RESOURCE),
    { self._type == ffi::PP_VARTYPE_RESOURCE }
}

// Scalar values.

impl NullVar {
    pub fn new() -> (v: NullVar)
        ensures v == NullVar,
    {
        NullVar
    }
}

impl UndefinedVar {
    pub fn new() -> (v: UndefinedVar)
        ensures v == UndefinedVar,
    {
        UndefinedVar
    }
}

impl ToVar for NullVar {
    open spec fn var_spec(&self) -> PP_Var { var_of(ffi::PP_VARTYPE_NULL, 0) }
    fn to_var(&self) -> (v: PP_Var) { ffi::make_null_var() }
}

impl ToVar for UndefinedVar {
    open spec fn var_spec(&self) -> PP_Var { var_of(ffi::PP_VARTYPE_UNDEFINED, 0) }
    fn to_var(&self) -> (v: PP_Var) { ffi::make_undefined_var() }
}

impl ToVar for bool {
    open spec fn var_spec(&self) -> PP_Var { var_of(ffi::PP_VARTYPE_BOOL, if *self { 1 } else { 0 }) }
    fn to_var(&self) -> (v: PP_Var) { ffi::bool_to_var(if *self { 1 } else { 0 }) }
}

impl ToVar for i32 {
    open spec fn var_spec(&self) -> PP_Var { var_of(ffi::PP_VARTYPE_INT32, *self as i64) }
    fn to_var(&self) -> (v: PP_Var) { ffi::i32_to_var(*self) }
}

impl ToVar for i16 {
    open spec fn var_spec(&self) -> PP_Var { var_of(ffi::PP_VARTYPE_INT32, *self as i64) }
    fn to_var(&self) -> (v: PP_Var) { ffi::i32_to_var(*self as i32) }
}

impl ToVar for i8 {
    open spec fn var_spec(&self) -> PP_Var { var_of(ffi::PP_VARTYPE_INT32, *self as i64) }
    fn to_var(&self) -> (v: PP_Var) { ffi::i32_to_var(*self as i32) }
}

impl<T: ToVar> ToVar for Option<T> {
    open spec fn var_spec(&self) -> PP_Var {
        match self {
            Some(v) => v.var_spec(),
            None => var_of(ffi::PP_VARTYPE_UNDEFINED, 0),
        }
    }
    fn to_var(&self) -> (v: PP_Var) {
        match self {
            Some(v) => v.to_var(),
            None => UndefinedVar.to_var(),
        }
    }
}

impl<T: ToVar> UnwrapOr for Option<T> {
    fn unwrap_or_null(&self) -> (a: AnyVar)
        ensures
            a == match self { Some(v) => any_of(v.var_spec()), None => AnyVar::Null },
    {
        match self {
            Some(v) => v.to_any(),
            None => AnyVar::Null,
        }
    }
    fn unwrap_or_undefined(&self) -> (a: AnyVar)
        ensures
            a == match self { Some(v) => any_of(v.var_spec()), None => AnyVar::Undefined },
    {
        match self {
            Some(v) => v.to_any(),
            None => AnyVar::Undefined,
        }
    }
}

impl Var for NullVar {
    fn is_null(&self) -> (b: bool) ensures b, { true }
}
impl Var for UndefinedVar {
    fn is_undefined(&self) -> (b: bool) ensures b, { true }
}
impl Var for bool {
    fn is_a_bool(&self) -> (b: bool) ensures b, { true }
}
impl Var for i32 {
    fn is_an_i32(&self) -> (b: bool) ensures b, { true }
}

impl FromVar for NullVar {
    open spec fn from_var_spec(var: PP_Var) -> Option<NullVar> {
        if var._type == ffi::PP_VARTYPE_NULL { Some(NullVar) } else { None }
    }
    fn from_var(var: PP_Var) -> (r: Option<NullVar>) {
        if var.is_null() { Some(NullVar::ctor(var)) } else { None }
    }
}
impl FromVar for UndefinedVar {
    open spec fn from_var_spec(var: PP_Var) -> Option<UndefinedVar> {
        if var._type == ffi::PP_VARTYPE_UNDEFINED { Some(UndefinedVar) } else { None }
    }
    fn from_var(var: PP_Var) -> (r: Option<UndefinedVar>) {
        if var.is_undefined() { Some(UndefinedVar::ctor(var)) } else { None }
    }
}
impl FromVar for bool {
    open spec fn from_var_spec(var: PP_Var) -> Option<bool> {
        if var._type == ffi::PP_VARTYPE_BOOL { Some(var.value != 0) } else { None }
    }
    fn from_var(var: PP_Var) -> (r: Option<bool>) {
        if var.is_a_bool() { Some(bool::ctor(var)) } else { None }
    }
}
impl FromVar for i32 {
    open spec fn from_var_spec(var: PP_Var) -> Option<i32> {
        if var._type == ffi::PP_VARTYPE_INT32 { Some(var.value as i32) } else { None }
    }
    fn from_var(var: PP_Var) -> (r: Option<i32>) {
        if var.is_an_i32() { Some(i32::ctor(var)) } else { None }
    }
}

impl VarCtor for NullVar {
    closed spec fn ctor_spec(var: PP_Var) -> NullVar { NullVar }
    fn ctor(var: PP_Var) -> (r: NullVar) { NullVar }
}
impl VarCtor for UndefinedVar {
    closed spec fn ctor_spec(var: PP_Var) -> UndefinedVar { UndefinedVar }
    fn ctor(var: PP_Var) -> (r: UndefinedVar) { UndefinedVar }
}
impl VarCtor for bool {
    closed spec fn ctor_spec(var: PP_Var) -> bool { var.value != 0 }
    fn ctor(var: PP_Var) -> (r: bool) { ffi::bool_from_var(var) }
}
impl VarCtor for i32 {
    closed spec fn ctor_spec(var: PP_Var) -> i32 { var.value as i32 }
    fn ctor(var: PP_Var) -> (r: i32) { ffi::i32_from_var(var) }
}

// Reference-counted values.

impl StringVar {
    /// The string that the browser made from text: `created` is the var
    /// its `VarFromUtf8` returned.
    pub fn new(created: PP_Var) -> (s: StringVar)
        ensures
            s.0 == created.value,
    {
        StringVar::new_from_var(created)
    }

    pub fn new_from_var(v: PP_Var) -> (s: StringVar)
        ensures
            s.0 == v.value,
    {
        StringVar(ffi::id_from_var(v))
    }

    /// What `VarFromUtf8(text, length)` is handed to make a string of a
    /// text: the text's bytes and their number, with no terminating NUL.
    pub fn utf8_args<'a>(text: &'a str) -> (r: (&'a [u8], u32))
        requires text.spec_bytes().len() <= u32::MAX,
        ensures
            r.0@ == text.spec_bytes(),
            r.1 == text.spec_bytes().len(),
    {
        (text.as_bytes(), text.len() as u32)
    }

    /// The string's text: `bytes` are the bytes that
    /// `VarToUtf8(self, &length)` points to, `length` of them, which the
    /// browser keeps as UTF-8.
    pub fn as_slice<'a>(&self, bytes: &'a [u8]) -> (t: &'a str)
        requires vstd::utf8::valid_utf8(bytes@),
        ensures t.spec_bytes() == bytes@,
    {
        match utf8_text(bytes) {
            Some(t) => t,
            None => "",
        }
    }
}
/// A string made from a text, whose bytes the browser gives back as they
/// were handed to it, reads back as that text: `utf8_args` hands over the
/// text's bytes, and `as_slice` of the same bytes is the same text.
pub proof fn lemma_string_text_roundtrip(text: Seq<char>, back: Seq<char>)
    requires vstd::utf8::encode_utf8(back) == vstd::utf8::encode_utf8(text),
    ensures back == text,
{
    vstd::utf8::encode_utf8_decode_utf8(text);
    vstd::utf8::encode_utf8_decode_utf8(back);
}

impl ObjectVar {
    pub fn new_from_var(v: PP_Var) -> (s: ObjectVar)
        ensures
            s.0 == v.value,
    {
        ObjectVar(ffi::id_from_var(v))
    }
}
impl ArrayVar {
    pub fn new_from_var(v: PP_Var) -> (s: ArrayVar)
        ensures
            s.0 == v.value,
    {
        ArrayVar(ffi::id_from_var(v))
    }
}
impl DictionaryVar {
    pub fn new_from_var(v: PP_Var) -> (s: DictionaryVar)
        ensures
            s.0 == v.value,
    {
        DictionaryVar(ffi::id_from_var(v))
    }
}
impl ArrayBufferVar {
    pub fn new_from_var(v: PP_Var) -> (s: ArrayBufferVar)
        ensures
            s.0 == v.value,
    {
        ArrayBufferVar(ffi::id_from_var(v))
    }
}

impl ByRefVar for StringVar {
    open spec fn ref_id(&self) -> i64 { self.0 }
    fn get_id(&self) -> (r: i64) { proof { assert(self.ref_id() == self.0); } self.0 }
}
impl ByRefVar for ObjectVar {
    open spec fn ref_id(&self) -> i64 { self.0 }
    fn get_id(&self) -> (r: i64) { proof { assert(self.ref_id() == self.0); } self.0 }
}
impl ByRefVar for ArrayVar {
    open spec fn ref_id(&self) -> i64 { self.0 }
    fn get_id(&self) -> (r: i64) { proof { assert(self.ref_id() == self.0); } self.0 }
}
impl ByRefVar for DictionaryVar {
    open spec fn ref_id(&self) -> i64 { self.0 }
    fn get_id(&self) -> (r: i64) { proof { assert(self.ref_id() == self.0); } self.0 }
}
impl ByRefVar for ArrayBufferVar {
    open spec fn ref_id(&self) -> i64 { self.0 }
    fn get_id(&self) -> (r: i64) { proof { assert(self.ref_id() == self.0); } self.0 }
}

impl ToVar for StringVar {
    open spec fn var_spec(&self) -> PP_Var { var_of(ffi::PP_VARTYPE_STRING, self.0) }
    fn to_var(&self) -> (v: PP_Var) { ffi::string_id_to_var(self.get_id()) }
}
impl ToVar for ObjectVar {
    open spec fn var_spec(&self) -> PP_Var { var_of(ffi::PP_VARTYPE_OBJECT, self.0) }
    fn to_var(&self) -> (v: PP_Var) { ffi::object_id_to_var(self.get_id()) }
}
impl ToVar for ArrayVar {
    open spec fn var_spec(&self) -> PP_Var { var_of(ffi::PP_VARTYPE_ARRAY, self.0) }
    fn to_var(&self) -> (v: PP_Var) { ffi::array_id_to_var(self.get_id()) }
}
impl ToVar for DictionaryVar {
    open spec fn var_spec(&self) -> PP_Var { var_of(ffi::PP_VARTYPE_DICTIONARY, self.0) }
    fn to_var(&self) -> (v: PP_Var) { ffi::dictionary_id_to_var(self.get_id()) }
}
impl ToVar for ArrayBufferVar {
    open spec fn var_spec(&self) -> PP_Var { var_of(ffi::PP_VARTYPE_ARRAY_BUFFER, self.0) }
    fn to_var(&self) -> (v: PP_Var) { ffi::array_buffer_id_to_var(self.get_id()) }
}

impl Var for StringVar {
    fn is_a_string(&self) -> (b: bool) ensures b, { true }
}
impl Var for ObjectVar {
    fn is_an_object(&self) -> (b: bool) ensures b, { true }
}
impl Var for ArrayVar {
    fn is_an_array(&self) -> (b: bool) ensures b, { true }
}
impl Var for DictionaryVar {
    fn is_a_dictionary(&self) -> (b: bool) ensures b, { true }
}
impl Var for ArrayBufferVar {
    fn is_an_array_buffer(&self) -> (b: bool) ensures b, { true }
}

impl FromVar for StringVar {
    open spec fn from_var_spec(var: PP_Var) -> Option<StringVar> {
        if var._type == ffi::PP_VARTYPE_STRING && var.value != 0 { Some(StringVar(var.value)) } else { None }
    }
    fn from_var(var: PP_Var) -> (r: Option<StringVar>) {
        if var.is_a_string() && ffi::id_from_var(var) != 0 { Some(StringVar::ctor(var)) } else { None }
    }
}
impl FromVar for ObjectVar {
    open spec fn from_var_spec(var: PP_Var) -> Option<ObjectVar> {
        if var._type == ffi::PP_VARTYPE_OBJECT && var.value != 0 { Some(ObjectVar(var.value)) } else { None }
    }
    fn from_var(var: PP_Var) -> (r: Option<ObjectVar>) {
        if var.is_an_object() && ffi::id_from_var(var) != 0 { Some(ObjectVar::ctor(var)) } else { None }
    }
}
impl FromVar for ArrayVar {
    open spec fn from_var_spec(var: PP_Var) -> Option<ArrayVar> {
        if var._type == ffi::PP_VARTYPE_ARRAY && var.value != 0 { Some(ArrayVar(var.value)) } else { None }
    }
    fn from_var(var: PP_Var) -> (r: Option<ArrayVar>) {
        if var.is_an_array() && ffi::id_from_var(var) != 0 { Some(ArrayVar::ctor(var)) } else { None }
    }
}
impl FromVar for DictionaryVar {
    open spec fn from_var_spec(var: PP_Var) -> Option<DictionaryVar> {
        if var._type == ffi::PP_VARTYPE_DICTIONARY && var.value != 0 { Some(DictionaryVar(var.value)) } else { None }
    }
    fn from_var(var: PP_Var) -> (r: Option<DictionaryVar>) {
        if var.is_a_dictionary() && ffi::id_from_var(var) != 0 { Some(DictionaryVar::ctor(var)) } else { None }
    }
}
impl FromVar for ArrayBufferVar {
    open spec fn from_var_spec(var: PP_Var) -> Option<ArrayBufferVar> {
        if var._type == ffi::PP_VARTYPE_ARRAY_BUFFER && var.value != 0 { Some(ArrayBufferVar(var.value)) } else { None }
    }
    fn from_var(var: PP_Var) -> (r: Option<ArrayBufferVar>) {
        if var.is_an_array_buffer() && ffi::id_from_var(var) != 0 { Some(ArrayBufferVar::ctor(var)) } else { None }
    }
}

impl VarCtor for StringVar {
    closed spec fn ctor_spec(var: PP_Var) -> StringVar { StringVar(var.value) }
    fn ctor(var: PP_Var) -> (r: StringVar) { StringVar::new_from_var(var) }
}
impl VarCtor for ObjectVar {
    closed spec fn ctor_spec(var: PP_Var) -> ObjectVar { ObjectVar(var.value) }
    fn ctor(var: PP_Var) -> (r: ObjectVar) { ObjectVar::new_from_var(var) }
}
impl VarCtor for ArrayVar {
    closed spec fn ctor_spec(var: PP_Var) -> ArrayVar { ArrayVar(var.value) }
    fn ctor(var: PP_Var) -> (r: ArrayVar) { ArrayVar::new_from_var(var) }
}
impl VarCtor for DictionaryVar {
    closed spec fn ctor_spec(var: PP_Var) -> DictionaryVar { DictionaryVar(var.value) }
    fn ctor(var: PP_Var) -> (r: DictionaryVar) { DictionaryVar::new_from_var(var) }
}
impl VarCtor for ArrayBufferVar {
    closed spec fn ctor_spec(var: PP_Var) -> ArrayBufferVar { ArrayBufferVar(var.value) }
    fn ctor(var: PP_Var) -> (r: ArrayBufferVar) { ArrayBufferVar::new_from_var(var) }
}

impl ToStringVar for StringVar {
    fn to_string_var(&self) -> (s: StringVar)
        ensures s == *self,
    {
        *self
    }
}

/// Handing a value to the browser as a var and reading the var back gives
/// the same value.
pub proof fn lemma_any_var_roundtrip(a: AnyVar)
    ensures
        any_of(var_of_any(a)) == a,
{
    match a {
        AnyVar::I32(i) => {
            assert((i as i64) as i32 == i);
        },
        _ => {},
    }
}

/// A var of a known type, read and handed back, keeps its type and, for every
/// type but booleans, its payload.
pub proof fn lemma_var_any_roundtrip(var: PP_Var)
    requires
        var.padding == 0,
        var._type <= ffi::PP_VARTYPE_ARRAY_BUFFER,
        var._type == ffi::PP_VARTYPE_NULL || var._type == ffi::PP_VARTYPE_UNDEFINED ==> var.value == 0,
        var._type == ffi::PP_VARTYPE_INT32 ==> i32::MIN <= var.value <= i32::MAX,
    ensures
        var_of_any(any_of(var))._type == var._type,
        var._type != ffi::PP_VARTYPE_BOOL ==> var_of_any(any_of(var)) == var,
        var._type == ffi::PP_VARTYPE_BOOL ==> (var_of_any(any_of(var)).value != 0) == (var.value != 0),
{
}

impl ArrayVar {
    /// The array's length: `reply` is the answer of `PPB_VarArray::GetLength(self)`.
    pub fn len(&self, reply: u32) -> (n: usize)
        ensures n == reply,
    {
        reply as usize
    }

    /// A walk over the array's elements; `len` is its length, as `len`
    /// reads it.
    pub fn iter<'a>(&'a self, len: usize) -> (it: ArrayVarIter<'a>)
        ensures it.var == self, it.index == 0, it.len == len,
    {
        ArrayVarIter { var: self, index: 0, len }
    }
}

/// A walk over the elements of an array by index. It visits the indices
/// from zero up to and including the length.
pub struct ArrayVarIter<'a> {
    pub var: &'a ArrayVar,
    pub index: usize,
    pub len: usize,
}

impl<'a> ArrayVarIter<'a> {
    /// The index of the next element to fetch with
    /// `PPB_VarArray::Get(array, index)`, none once the walk is past the
    /// length.
    pub fn next(&mut self) -> (r: Option<usize>)
        requires old(self).index < usize::MAX,
        ensures
            final(self).var == old(self).var,
            final(self).len == old(self).len,
            old(self).index > old(self).len ==> r is None && final(self).index == old(self).index,
            old(self).index <= old(self).len ==> r == Some(old(self).index) && final(self).index == old(self).index + 1,
    {
        if self.index > self.len {
            None
        } else {
            let i = self.index;
            self.index = self.index + 1;
            Some(i)
        }
    }

    /// As many elements as the length, at least and at most.
    pub fn size_hint(&self) -> (h: (usize, Option<usize>))
        ensures h == (self.len, Some(self.len)),
    {
        (self.len, Some(self.len))
    }
}

impl DictionaryVar {
    /// The dictionary's keys: `v` is the array var that
    /// `PPB_VarDictionary::GetKeys(self)` returned.
    pub fn keys(&self, v: PP_Var) -> (a: ArrayVar)
        ensures a.0 == v.value,
    {
        ArrayVar::new_from_var(v)
    }

    /// The number of entries: `keys_len` is the length of `keys`.
    pub fn len(&self, keys_len: usize) -> (n: usize)
        ensures n == keys_len,
    {
        keys_len
    }

    /// A walk over the entries: `keys` and `keys_len` are the dictionary's
    /// keys and their number.
    pub fn entries<'a>(&'a self, keys: ArrayVar, keys_len: usize) -> (e: DictEntries<'a>)
        ensures e.dict == self, e.keys == keys, e.key_index == 0, e.len == keys_len,
    {
        DictEntries { dict: self, keys, key_index: 0, len: keys_len }
    }
}

/// A walk over the entries of a dictionary, by the index of each key in
/// its key array. It visits the indices from zero up to and including the
/// number of keys.
pub struct DictEntries<'a> {
    pub dict: &'a DictionaryVar,
    pub keys: ArrayVar,
    pub key_index: usize,
    pub len: usize,
}

impl<'a> DictEntries<'a> {
    /// The next entry: `key` is what `PPB_VarArray::Get(keys, index)`
    /// returned for the index the walk stands at (always a string) and
    /// `value` what `PPB_VarDictionary::Get(dict, key)` returned for it;
    /// none once the walk is past the number of keys.
    pub fn next(&mut self, key: PP_Var, value: PP_Var) -> (r: Option<(StringVar, AnyVar)>)
        requires
            old(self).key_index < usize::MAX,
            old(self).key_index <= old(self).len ==> key._type == ffi::PP_VARTYPE_STRING,
        ensures
            final(self).dict == old(self).dict,
            final(self).keys == old(self).keys,
            final(self).len == old(self).len,
            old(self).key_index > old(self).len ==> r is None && final(self).key_index == old(self).key_index,
            old(self).key_index <= old(self).len ==> r == Some((StringVar(key.value), any_of(value)))
                && final(self).key_index == old(self).key_index + 1,
    {
        if self.key_index > self.len {
            None
        } else {
            let k = match AnyVar::new(key) {
                AnyVar::String(k) => k,
                _ => StringVar(key.value),
            };
            let v = AnyVar::new(value);
            self.key_index = self.key_index + 1;
            Some((k, v))
        }
    }

    /// As many entries as keys, at least and at most.
    pub fn size_hint(&self) -> (h: (usize, Option<usize>))
        ensures h == (self.len, Some(self.len)),
    {
        (self.len, Some(self.len))
    }
}

/// A var is read as the value of its own type: a string var as a string, an
/// array var as an array, and so on; a var of a type the library does not
/// read is undefined.
pub proof fn lemma_vars_read_by_type(var: PP_Var)
    ensures
        any_of(var) is Null <==> var._type == ffi::PP_VARTYPE_NULL,
        any_of(var) is Undefined <==> !(var._type == ffi::PP_VARTYPE_NULL || var._type == ffi::PP_VARTYPE_BOOL || var._type == ffi::PP_VARTYPE_INT32 || var._type == ffi::PP_VARTYPE_DOUBLE || var._type == ffi::PP_VARTYPE_STRING || var._type == ffi::PP_VARTYPE_OBJECT || var._type == ffi::PP_VARTYPE_ARRAY || var._type == ffi::PP_VARTYPE_DICTIONARY || var._type == ffi::PP_VARTYPE_ARRAY_BUFFER),
        any_of(var) is Bool <==> var._type == ffi::PP_VARTYPE_BOOL,
        any_of(var) is I32 <==> var._type == ffi::PP_VARTYPE_INT32,
        any_of(var) is F64 <==> var._type == ffi::PP_VARTYPE_DOUBLE,
        any_of(var) is String <==> var._type == ffi::PP_VARTYPE_STRING,
        any_of(var) is Object <==> var._type == ffi::PP_VARTYPE_OBJECT,
        any_of(var) is Array <==> var._type == ffi::PP_VARTYPE_ARRAY,
        any_of(var) is Dictionary <==> var._type == ffi::PP_VARTYPE_DICTIONARY,
        any_of(var) is ArrayBuffer <==> var._type == ffi::PP_VARTYPE_ARRAY_BUFFER,
{
}

/// A value is handed to the browser as a var of its own type, and no two
/// kinds of value share a type.
pub proof fn lemma_vars_written_by_type(a: AnyVar)
    ensures
        var_of_any(a)._type == ffi::PP_VARTYPE_NULL <==> a is Null,
        var_of_any(a)._type == ffi::PP_VARTYPE_UNDEFINED <==> a is Undefined,
        var_of_any(a)._type == ffi::PP_VARTYPE_BOOL <==> a is Bool,
        var_of_any(a)._type == ffi::PP_VARTYPE_INT32 <==> a is I32,
        var_of_any(a)._type == ffi::PP_VARTYPE_DOUBLE <==> a is F64,
        var_of_any(a)._type == ffi::PP_VARTYPE_STRING <==> a is String,
        var_of_any(a)._type == ffi::PP_VARTYPE_OBJECT <==> a is Object,
        var_of_any(a)._type == ffi::PP_VARTYPE_ARRAY <==> a is Array,
        var_of_any(a)._type == ffi::PP_VARTYPE_DICTIONARY <==> a is Dictionary,
        var_of_any(a)._type == ffi::PP_VARTYPE_ARRAY_BUFFER <==> a is ArrayBuffer,
{
}

} // verus!
