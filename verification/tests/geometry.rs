use ppapi::ffi::{PP_Point, PP_Size};
use ppapi::geometry::Size;

#[test]
fn size_roundtrips_through_ffi() {
    let s = Size::new(4_000_000_000, 7);
    let f = s.to_ffi();
    assert_eq!(f.width, 4_000_000_000u32 as i32);
    assert_eq!(Size::from_ffi(f), s);
}

#[test]
fn point_arithmetic() {
    let a = PP_Point { x: 7, y: -3 };
    let b = PP_Point { x: 2, y: 5 };
    assert_eq!(a.add(b), PP_Point { x: 9, y: 2 });
    assert_eq!(a.sub(b), PP_Point { x: 5, y: -8 });
    assert_eq!(a.mul(b), PP_Point { x: 14, y: -15 });
    assert_eq!(a.div(b), PP_Point { x: 3, y: 0 });
    assert_eq!(a.add(b).sub(b), a);
    assert!(PP_Point::zero().is_zero());
    assert!(!a.is_zero());
}

#[test]
fn point_division_rounds_toward_zero() {
    let a = PP_Point { x: -7, y: 7 };
    let b = PP_Point { x: 2, y: -2 };
    assert_eq!(a.div(b), PP_Point { x: -3, y: -3 });
}

#[test]
fn size_arithmetic() {
    let a = PP_Size { width: 10, height: 20 };
    let b = PP_Size { width: 3, height: 4 };
    assert_eq!(a.add(b), PP_Size { width: 13, height: 24 });
    assert_eq!(a.sub(b), PP_Size { width: 7, height: 16 });
    assert_eq!(a.mul(b), PP_Size { width: 30, height: 80 });
    assert_eq!(a.div(b), PP_Size { width: 3, height: 5 });
}
