use ppapi::var::{NullVar, Var};
use ppapi::ffi;
use ppapi::ffi::PP_Var;
use ppapi::var::{AnyVar, ArrayVar, DictionaryVar, StringVar};

fn var(t: u32, v: i64) -> PP_Var {
    PP_Var { _type: t, padding: 0, value: v }
}

#[test]
fn any_var_reads_types() {
    assert!(matches!(AnyVar::new(var(ffi::PP_VARTYPE_NULL, 0)), AnyVar::Null));
    assert!(matches!(AnyVar::new(var(ffi::PP_VARTYPE_STRING, 9)), AnyVar::String(StringVar(9))));
    assert!(AnyVar::new(var(ffi::PP_VARTYPE_STRING, 9)).is_ref_counted());
    assert!(!AnyVar::new(var(ffi::PP_VARTYPE_NULL, 0)).is_ref_counted());
}

#[test]
fn array_walk_visits_up_to_and_including_length() {
    let a = ArrayVar(3);
    let n = a.len(2);
    let mut it = a.iter(n);
    let mut seen = Vec::new();
    while let Some(i) = it.next() {
        seen.push(i);
    }
    assert_eq!(seen, vec![0, 1, 2]);
    assert_eq!(it.size_hint(), (2, Some(2)));
}

#[test]
fn dictionary_entries_walk() {
    let d = DictionaryVar(4);
    let keys = d.keys(var(ffi::PP_VARTYPE_ARRAY, 5));
    assert_eq!(keys, ArrayVar(5));
    assert_eq!(d.len(1), 1);
    let mut e = d.entries(keys, 1);
    let first = e.next(var(ffi::PP_VARTYPE_STRING, 6), var(ffi::PP_VARTYPE_INT32, 7));
    assert!(matches!(first, Some((StringVar(6), AnyVar::I32(7)))));
    let second = e.next(var(ffi::PP_VARTYPE_STRING, 8), var(ffi::PP_VARTYPE_NULL, 0));
    assert!(second.is_some());
    assert!(e.next(var(ffi::PP_VARTYPE_STRING, 8), var(ffi::PP_VARTYPE_NULL, 0)).is_none());
}

#[test]
fn type_tests_default_to_false() {
    assert!(NullVar.is_null());
    assert!(!NullVar.is_a_string());
    assert!(!StringVar(3).is_a_resource());
    assert!(StringVar(3).is_a_string());
    assert!(!AnyVar::Null.is_a_resource());
}

#[test]
fn strings_are_handed_over_as_their_bytes() {
    let (bytes, len) = StringVar::utf8_args("héllo");
    assert_eq!(bytes, "héllo".as_bytes());
    assert_eq!(len, 6);
    assert_eq!(StringVar(2).as_slice(bytes), "héllo");
}
