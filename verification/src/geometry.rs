//! Two dimensional vectors and axis aligned rectangles.
//!
//! The viewer is generic over its number type; the library provides the
//! integer instance (`i32`), which is the one used for pixel rectangles.
use vstd::prelude::*;
use vstd::std_specs::ops::AddSpecImpl;
use vstd::std_specs::ops::SubSpecImpl;
use vstd::std_specs::ops::NegSpecImpl;
use vstd::std_specs::ops::{AddSpec, NegSpec, SubSpec};

verus! {

/// A vector (or point) in two dimensions.
#[derive(Debug, Clone, Copy)]
pub struct Vector<T> {
    pub x: T,
    pub y: T,
}

/// Whether `v` is a value of `i32`.
pub open spec fn fits_i32(v: int) -> bool {
    i32::MIN <= v <= i32::MAX
}

/// `1 / v` in Rust's integer division, which rounds toward zero (`v != 0`).
pub open spec fn int_reciprocal(v: int) -> int {
    if v == 1 {
        1
    } else if v == -1 {
        -1
    } else {
        0
    }
}

/// `1 / v` for a nonzero `i32`, rounding toward zero.
fn reciprocal(v: i32) -> (r: i32)
    requires
        v != 0,
    ensures
        r == int_reciprocal(v as int),
{
    if v == 1 {
        1
    } else if v == -1 {
        -1
    } else {
        0
    }
}

impl Vector<i32> {
    pub fn new(x: i32, y: i32) -> (r: Self)
        ensures
            r.x == x,
            r.y == y,
    {
        Self { x, y }
    }

    /// Multiplies both coordinates by `scale`.
    pub fn scale(&mut self, scale: i32)
        requires
            fits_i32(old(self).x * scale),
            fits_i32(old(self).y * scale),
        ensures
            final(self).x == old(self).x * scale,
            final(self).y == old(self).y * scale,
    {
        self.x = self.x * scale;
        self.y = self.y * scale;
    }

    /// A copy of `self` with both coordinates multiplied by `scale`.
    pub fn scaled(self, scale: i32) -> (r: Vector<i32>)
        requires
            fits_i32(self.x * scale),
            fits_i32(self.y * scale),
        ensures
            r.x == self.x * scale,
            r.y == self.y * scale,
    {
        let mut out = self;
        out.scale(scale);
        out
    }

    /// Multiplies each coordinate by the matching coordinate of `scale`.
    pub fn non_uniform_scale(&mut self, scale: Vector<i32>)
        requires
            fits_i32(old(self).x * scale.x),
            fits_i32(old(self).y * scale.y),
        ensures
            final(self).x == old(self).x * scale.x,
            final(self).y == old(self).y * scale.y,
    {
        self.x = self.x * scale.x;
        self.y = self.y * scale.y;
    }

    /// A copy of `self` with each coordinate multiplied by the matching coordinate of `scale`.
    pub fn non_uniform_scaled(self, scale: Vector<i32>) -> (r: Vector<i32>)
        requires
            fits_i32(self.x * scale.x),
            fits_i32(self.y * scale.y),
        ensures
            r.x == self.x * scale.x,
            r.y == self.y * scale.y,
    {
        let mut out = self;
        out.non_uniform_scale(scale);
        out
    }

    /// The coordinate-wise reciprocal `1 / x`, `1 / y` in integer division.
    pub fn div_inverted(self) -> (r: Self)
        requires
            self.x != 0,
            self.y != 0,
        ensures
            r.x == int_reciprocal(self.x as int),
            r.y == int_reciprocal(self.y as int),
    {
        Self { x: reciprocal(self.x), y: reciprocal(self.y) }
    }

    pub fn zero() -> (r: Vector<i32>)
        ensures
            r.x == 0,
            r.y == 0,
    {
        Self { x: 0, y: 0 }
    }
}


impl core::ops::Add for Vector<i32> {
    type Output = Vector<i32>;

    fn add(self, rhs: Self) -> (r: Self::Output) {
        let mut out = self;
        out.add_assign(rhs);
        out
    }
}

impl AddSpecImpl for Vector<i32> {
    open spec fn obeys_add_spec() -> bool {
        true
    }

    open spec fn add_req(self, rhs: Vector<i32>) -> bool {
        fits_i32(self.x + rhs.x) && fits_i32(self.y + rhs.y)
    }

    open spec fn add_spec(self, rhs: Vector<i32>) -> Vector<i32> {
        Vector { x: (self.x + rhs.x) as i32, y: (self.y + rhs.y) as i32 }
    }
}

impl core::ops::Sub for Vector<i32> {
    type Output = Vector<i32>;

    fn sub(self, rhs: Self) -> (r: Self::Output) {
        let mut out = self;
        out.sub_assign(rhs);
        out
    }
}

impl SubSpecImpl for Vector<i32> {
    open spec fn obeys_sub_spec() -> bool {
        true
    }

    open spec fn sub_req(self, rhs: Vector<i32>) -> bool {
        fits_i32(self.x - rhs.x) && fits_i32(self.y - rhs.y)
    }

    open spec fn sub_spec(self, rhs: Vector<i32>) -> Vector<i32> {
        Vector { x: (self.x - rhs.x) as i32, y: (self.y - rhs.y) as i32 }
    }
}

impl core::ops::Neg for Vector<i32> {
    type Output = Vector<i32>;

    fn neg(self) -> (r: Self::Output) {
        Vector { x: -self.x, y: -self.y }
    }
}

impl NegSpecImpl for Vector<i32> {
    open spec fn obeys_neg_spec() -> bool {
        true
    }

    open spec fn neg_req(self) -> bool {
        self.x != i32::MIN && self.y != i32::MIN
    }

    open spec fn neg_spec(self) -> Vector<i32> {
        Vector { x: (-self.x) as i32, y: (-self.y) as i32 }
    }
}

impl Vector<i32> {
    /// Adds `rhs` to `self` coordinate-wise.
    pub fn add_assign(&mut self, rhs: Self)
        requires
            fits_i32(old(self).x + rhs.x),
            fits_i32(old(self).y + rhs.y),
        ensures
            final(self).x == old(self).x + rhs.x,
            final(self).y == old(self).y + rhs.y,
    {
        self.x = self.x + rhs.x;
        self.y = self.y + rhs.y;
    }

    /// Subtracts `rhs` from `self` coordinate-wise.
    pub fn sub_assign(&mut self, rhs: Self)
        requires
            fits_i32(old(self).x - rhs.x),
            fits_i32(old(self).y - rhs.y),
        ensures
            final(self).x == old(self).x - rhs.x,
            final(self).y == old(self).y - rhs.y,
    {
        self.x = self.x - rhs.x;
        self.y = self.y - rhs.y;
    }
}


/// An axis aligned rectangle given by two corners.
#[derive(Debug, Clone, Copy)]
pub struct Rect<T> {
    /// Top left
    pub x0: Vector<T>,
    /// Bottom right
    pub x1: Vector<T>,
}

/// `(a * (1 + s) + b * (1 - s))` stays within `i32` at every step of its evaluation.
pub open spec fn blend_fits(a: int, b: int, s: int) -> bool {
    &&& fits_i32(1 + s)
    &&& fits_i32(1 - s)
    &&& fits_i32(a * (1 + s))
    &&& fits_i32(b * (1 - s))
    &&& fits_i32(a * (1 + s) + b * (1 - s))
}

/// `(a * (1 + s) + b * (1 - s)) / 2`, rounded toward zero: coordinate `a` of a rectangle
/// whose opposite coordinate is `b`, scaled by `s` around the center.
pub open spec fn blend(a: int, b: int, s: int) -> int {
    half_toward_zero(a * (1 + s) + b * (1 - s))
}

/// The rectangle `r` scaled by `s` around its center.
pub open spec fn scaled_rect(r: Rect<i32>, s: int) -> Rect<i32> {
    Rect {
        x0: Vector {
            x: blend(r.x0.x as int, r.x1.x as int, s) as i32,
            y: blend(r.x0.y as int, r.x1.y as int, s) as i32,
        },
        x1: Vector {
            x: blend(r.x1.x as int, r.x0.x as int, s) as i32,
            y: blend(r.x1.y as int, r.x0.y as int, s) as i32,
        },
    }
}

/// The precondition of `Rect::scale`: every intermediate value fits in `i32`.
pub open spec fn rect_scale_fits(r: Rect<i32>, s: int) -> bool {
    &&& blend_fits(r.x0.x as int, r.x1.x as int, s)
    &&& blend_fits(r.x0.y as int, r.x1.y as int, s)
    &&& blend_fits(r.x1.x as int, r.x0.x as int, s)
    &&& blend_fits(r.x1.y as int, r.x0.y as int, s)
}

/// Half of `v`, rounded toward zero as `i32` division rounds.
pub open spec fn half_toward_zero(v: int) -> int {
    if v >= 0 {
        v / 2
    } else {
        -((-v) / 2)
    }
}

/// Half of each coordinate of `v`, rounded toward zero.
fn halved(v: Vector<i32>) -> (r: Vector<i32>)
    ensures
        r.x == half_toward_zero(v.x as int),
        r.y == half_toward_zero(v.y as int),
{
    Vector { x: v.x / 2, y: v.y / 2 }
}

impl Rect<i32> {
    pub fn from_points(top_left: Vector<i32>, bottom_right: Vector<i32>) -> (r: Self)
        ensures
            r.x0 == top_left,
            r.x1 == bottom_right,
    {
        Self { x0: top_left, x1: bottom_right }
    }

    pub fn from_pos_size(pos: Vector<i32>, size: Vector<i32>) -> (r: Self)
        requires
            fits_i32(pos.x + size.x),
            fits_i32(pos.y + size.y),
        ensures
            r.x0 == pos,
            r.x1.x == pos.x + size.x,
            r.x1.y == pos.y + size.y,
    {
        Self { x0: pos, x1: pos + size }
    }

    /// The center point: half the sum of the corners, rounded toward zero.
    pub fn center(&self) -> (r: Vector<i32>)
        requires
            fits_i32(self.x0.x + self.x1.x),
            fits_i32(self.x0.y + self.x1.y),
        ensures
            r.x == half_toward_zero(self.x0.x + self.x1.x),
            r.y == half_toward_zero(self.x0.y + self.x1.y),
    {
        halved(self.x0 + self.x1)
    }

    pub fn width(&self) -> (r: i32)
        requires
            fits_i32(self.x1.x - self.x0.x),
        ensures
            r == self.x1.x - self.x0.x,
    {
        self.x1.x - self.x0.x
    }

    pub fn height(&self) -> (r: i32)
        requires
            fits_i32(self.x1.y - self.x0.y),
        ensures
            r == self.x1.y - self.x0.y,
    {
        self.x1.y - self.x0.y
    }

    pub fn size(&self) -> (r: Vector<i32>)
        requires
            fits_i32(self.x1.x - self.x0.x),
            fits_i32(self.x1.y - self.x0.y),
        ensures
            r.x == self.x1.x - self.x0.x,
            r.y == self.x1.y - self.x0.y,
    {
        Vector::new(self.width(), self.height())
    }

    /// Moves both corners by `offset`.
    pub fn translate(&mut self, offset: Vector<i32>)
        requires
            fits_i32(old(self).x0.x + offset.x),
            fits_i32(old(self).x0.y + offset.y),
            fits_i32(old(self).x1.x + offset.x),
            fits_i32(old(self).x1.y + offset.y),
        ensures
            final(self).x0.x == old(self).x0.x + offset.x,
            final(self).x0.y == old(self).x0.y + offset.y,
            final(self).x1.x == old(self).x1.x + offset.x,
            final(self).x1.y == old(self).x1.y + offset.y,
    {
        self.x0.add_assign(offset);
        self.x1.add_assign(offset);
    }

    /// Scales the rectangle by `s` around its center point: each corner becomes
    /// `(x0 * (1 ± s) + x1 * (1 ∓ s)) / 2`, rounded toward zero.
    pub fn scale(&mut self, s: i32)
        requires
            rect_scale_fits(*old(self), s as int),
        ensures
            *final(self) == scaled_rect(*old(self), s as int),
    {
        let x0 = self.x0;
        let x1 = self.x1;
        self.x0 = halved(x0.scaled(1 + s) + x1.scaled(1 - s));
        self.x1 = halved(x0.scaled(1 - s) + x1.scaled(1 + s));
    }

    /// A copy of the rectangle scaled by `s` around its center point (see `scale`).
    pub fn scaled(&self, s: i32) -> (r: Self)
        requires
            rect_scale_fits(*self, s as int),
        ensures
            r == scaled_rect(*self, s as int),
    {
        let mut out = *self;
        out.scale(s);
        out
    }

    /// Whether `v` lies strictly inside the rectangle.
    pub fn contains(&self, v: Vector<i32>) -> (r: bool)
        ensures
            r == (self.x0.x < v.x && self.x1.x > v.x && self.x0.y < v.y && self.x1.y > v.y),
    {
        self.x0.x < v.x && self.x1.x > v.x && self.x0.y < v.y && self.x1.y > v.y
    }
}

/// Adding a vector and subtracting it again gives back the first vector; so does negating
/// twice.
pub proof fn lemma_vector_add_sub_inverse(a: Vector<i32>, b: Vector<i32>)
    ensures
        AddSpec::add_req(a, b) ==> SubSpec::sub_req(AddSpec::add_spec(a, b), b)
            && SubSpec::sub_spec(AddSpec::add_spec(a, b), b) == a,
        SubSpec::sub_req(a, b) ==> AddSpec::add_req(SubSpec::sub_spec(a, b), b)
            && AddSpec::add_spec(SubSpec::sub_spec(a, b), b) == a,
        NegSpec::neg_req(a) ==> NegSpec::neg_req(NegSpec::neg_spec(a)) && NegSpec::neg_spec(
            NegSpec::neg_spec(a),
        ) == a,
{
}

/// Addition of vectors is commutative.
pub proof fn lemma_vector_add_commutes(a: Vector<i32>, b: Vector<i32>)
    ensures
        AddSpec::add_req(a, b) == AddSpec::add_req(b, a),
        AddSpec::add_req(a, b) ==> AddSpec::add_spec(a, b) == AddSpec::add_spec(b, a),
{
}

/// Scaling a rectangle by 1 around its center leaves it as it is (for the rectangles whose
/// intermediate values fit in `i32`).
pub proof fn lemma_scale_by_one(r: Rect<i32>)
    requires
        rect_scale_fits(r, 1),
    ensures
        scaled_rect(r, 1) == r,
{
    assert(blend(r.x0.x as int, r.x1.x as int, 1) == r.x0.x) by (nonlinear_arith);
    assert(blend(r.x0.y as int, r.x1.y as int, 1) == r.x0.y) by (nonlinear_arith);
    assert(blend(r.x1.x as int, r.x0.x as int, 1) == r.x1.x) by (nonlinear_arith);
    assert(blend(r.x1.y as int, r.x0.y as int, 1) == r.x1.y) by (nonlinear_arith);
}

} // verus!
