//! Points, sizes and rectangles.

use vstd::prelude::*;
use crate::ffi;
use crate::ffi::{PP_Point, PP_Size, PP_Rect};

verus! {

pub type Point = PP_Point;
pub type Rect = PP_Rect;

/// A size with unsigned sides.
#[derive(Clone, Copy, PartialEq, Eq, Structural, Debug, Hash)]
pub struct Size {
    pub width: u32,
    pub height: u32,
}

impl Size {
    pub fn new(width: u32, height: u32) -> (s: Size)
        ensures
            s.width == width,
            s.height == height,
    {
        Size { width, height }
    }

    /// The size as the C API carries it: each side's bits read as signed.
    pub fn to_ffi(self) -> (s: PP_Size)
        ensures
            s.width == self.width as i32,
            s.height == self.height as i32,
    {
        PP_Size { width: self.width as i32, height: self.height as i32 }
    }

    /// The size that a C API size stands for: each side's bits read as unsigned.
    pub fn from_ffi(s: PP_Size) -> (r: Size)
        ensures
            r.width == s.width as u32,
            r.height == s.height as u32,
    {
        Size { width: s.width as u32, height: s.height as u32 }
    }
}

/// Converting a size to the C API's form and back gives the same size.
pub proof fn lemma_size_ffi_roundtrip(s: Size)
    ensures
        (s.width as i32) as u32 == s.width,
        (s.height as i32) as u32 == s.height,
{
    let w = s.width;
    let h = s.height;
    assert((w as i32) as u32 == w) by (bit_vector);
    assert((h as i32) as u32 == h) by (bit_vector);
}

pub open spec fn fits_i32(v: int) -> bool {
    i32::MIN <= v <= i32::MAX
}

/// Integer division rounding toward zero, as Rust's `/` does.
pub open spec fn trunc_div(a: int, b: int) -> int {
    if a >= 0 { a / b } else { -((-a) / b) }
}

proof fn lemma_trunc_div_fits(a: int, b: int)
    by (nonlinear_arith)
    requires
        fits_i32(a),
        fits_i32(b),
        b != 0,
        !(a == i32::MIN && b == -1),
    ensures
        fits_i32(trunc_div(a, b)),
{
}

impl PP_Point {
    /// The origin.
    pub fn zero() -> (p: PP_Point)
        ensures
            p.x == 0,
            p.y == 0,
    {
        PP_Point { x: 0, y: 0 }
    }

    pub fn is_zero(&self) -> (b: bool)
        ensures
            b == (self.x == 0 && self.y == 0),
    {
        self.x == 0 && self.y == 0
    }

    /// Componentwise sum.
    pub fn add(self, rhs: PP_Point) -> (p: PP_Point)
        requires
            fits_i32(self.x + rhs.x),
            fits_i32(self.y + rhs.y),
        ensures
            p.x == self.x + rhs.x,
            p.y == self.y + rhs.y,
    {
        PP_Point { x: self.x + rhs.x, y: self.y + rhs.y }
    }

    /// Componentwise difference.
    pub fn sub(self, rhs: PP_Point) -> (p: PP_Point)
        requires
            fits_i32(self.x - rhs.x),
            fits_i32(self.y - rhs.y),
        ensures
            p.x == self.x - rhs.x,
            p.y == self.y - rhs.y,
    {
        PP_Point { x: self.x - rhs.x, y: self.y - rhs.y }
    }

    /// Componentwise product.
    pub fn mul(self, rhs: PP_Point) -> (p: PP_Point)
        requires
            fits_i32(self.x * rhs.x),
            fits_i32(self.y * rhs.y),
        ensures
            p.x == self.x * rhs.x,
            p.y == self.y * rhs.y,
    {
        PP_Point { x: self.x * rhs.x, y: self.y * rhs.y }
    }

    /// Componentwise quotient, rounding toward zero.
    pub fn div(self, rhs: PP_Point) -> (p: PP_Point)
        requires
            rhs.x != 0,
            rhs.y != 0,
            !(self.x == i32::MIN && rhs.x == -1),
            !(self.y == i32::MIN && rhs.y == -1),
        ensures
            p.x == trunc_div(self.x as int, rhs.x as int),
            p.y == trunc_div(self.y as int, rhs.y as int),
    {
        proof {
            lemma_trunc_div_fits(self.x as int, rhs.x as int);
            lemma_trunc_div_fits(self.y as int, rhs.y as int);
        }
        PP_Point { x: self.x / rhs.x, y: self.y / rhs.y }
    }
}

impl PP_Size {
    /// Componentwise sum.
    pub fn add(self, rhs: PP_Size) -> (s: PP_Size)
        requires
            fits_i32(self.width + rhs.width),
            fits_i32(self.height + rhs.height),
        ensures
            s.width == self.width + rhs.width,
            s.height == self.height + rhs.height,
    {
        PP_Size { width: self.width + rhs.width, height: self.height + rhs.height }
    }

    /// Componentwise difference.
    pub fn sub(self, rhs: PP_Size) -> (s: PP_Size)
        requires
            fits_i32(self.width - rhs.width),
            fits_i32(self.height - rhs.height),
        ensures
            s.width == self.width - rhs.width,
            s.height == self.height - rhs.height,
    {
        PP_Size { width: self.width - rhs.width, height: self.height - rhs.height }
    }

    /// Componentwise product.
    pub fn mul(self, rhs: PP_Size) -> (s: PP_Size)
        requires
            fits_i32(self.width * rhs.width),
            fits_i32(self.height * rhs.height),
        ensures
            s.width == self.width * rhs.width,
            s.height == self.height * rhs.height,
    {
        PP_Size { width: self.width * rhs.width, height: self.height * rhs.height }
    }

    /// Componentwise quotient, rounding toward zero.
    pub fn div(self, rhs: PP_Size) -> (s: PP_Size)
        requires
            rhs.width != 0,
            rhs.height != 0,
            !(self.width == i32::MIN && rhs.width == -1),
            !(self.height == i32::MIN && rhs.height == -1),
        ensures
            s.width == trunc_div(self.width as int, rhs.width as int),
            s.height == trunc_div(self.height as int, rhs.height as int),
    {
        proof {
            lemma_trunc_div_fits(self.width as int, rhs.width as int);
            lemma_trunc_div_fits(self.height as int, rhs.height as int);
        }
        PP_Size { width: self.width / rhs.width, height: self.height / rhs.height }
    }
}

/// Adding a point and then subtracting it again gives back the first point.
pub proof fn lemma_point_add_sub(a: PP_Point, b: PP_Point)
    requires
        fits_i32(a.x + b.x),
        fits_i32(a.y + b.y),
    ensures
        fits_i32((a.x + b.x) - b.x),
        fits_i32((a.y + b.y) - b.y),
        (a.x + b.x) - b.x == a.x,
        (a.y + b.y) - b.y == a.y,
{
}

} // verus!
