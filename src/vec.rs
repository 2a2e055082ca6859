use vstd::prelude::*;

verus! {

/// Whether a mathematical integer can be stored in an `i32`.
pub open spec fn fits_i32(v: int) -> bool {
    i32::MIN <= v <= i32::MAX
}

/// Integer division rounding toward zero, as Rust's `/` on signed integers.
pub open spec fn trunc_div(a: int, b: int) -> int {
    if a >= 0 {
        a / b
    } else {
        -((-a) / b)
    }
}

/// Whether `a / b` is defined on `i32`: no division by zero, and no quotient
/// that leaves the range.
pub open spec fn div_ok(a: i32, b: i32) -> bool {
    b != 0 && !(a == i32::MIN && b == -1)
}

/// A two-dimensional vector of 32-bit signed integers.
#[derive(Debug, Clone, Copy, PartialEq, Eq, Structural)]
pub struct Vec2i {
    pub x: i32,
    pub y: i32,
}

impl Vec2i {
    pub fn new(x: i32, y: i32) -> (r: Vec2i)
        ensures
            r.x == x,
            r.y == y,
    {
        Vec2i { x, y }
    }

    /// The vector with both components equal to `v`.
    pub fn uniform(v: i32) -> (r: Vec2i)
        ensures
            r.x == v,
            r.y == v,
    {
        Vec2i::new(v, v)
    }

    pub fn zero() -> (r: Vec2i)
        ensures
            r.x == 0,
            r.y == 0,
    {
        Vec2i::uniform(0)
    }

    pub fn from_tuple(t: (i32, i32)) -> (r: Vec2i)
        ensures
            r.x == t.0,
            r.y == t.1,
    {
        Vec2i::new(t.0, t.1)
    }

    pub fn as_tuple(self) -> (r: (i32, i32))
        ensures
            r == (self.x, self.y),
    {
        (self.x, self.y)
    }
}

impl core::ops::Add<Vec2i> for Vec2i {
    type Output = Vec2i;

    fn add(self, o: Vec2i) -> (r: Vec2i) {
        Vec2i::new(self.x + o.x, self.y + o.y)
    }
}

impl vstd::std_specs::ops::AddSpecImpl<Vec2i> for Vec2i {
    open spec fn obeys_add_spec() -> bool {
        true
    }

    open spec fn add_req(self, o: Vec2i) -> bool {
        fits_i32(self.x + o.x) && fits_i32(self.y + o.y)
    }

    open spec fn add_spec(self, o: Vec2i) -> Vec2i {
        Vec2i { x: (self.x + o.x) as i32, y: (self.y + o.y) as i32 }
    }
}

impl core::ops::Add<i32> for Vec2i {
    type Output = Vec2i;

    fn add(self, o: i32) -> (r: Vec2i) {
        Vec2i::new(self.x + o, self.y + o)
    }
}

impl vstd::std_specs::ops::AddSpecImpl<i32> for Vec2i {
    open spec fn obeys_add_spec() -> bool {
        true
    }

    open spec fn add_req(self, o: i32) -> bool {
        fits_i32(self.x + o) && fits_i32(self.y + o)
    }

    open spec fn add_spec(self, o: i32) -> Vec2i {
        Vec2i { x: (self.x + o) as i32, y: (self.y + o) as i32 }
    }
}

impl core::ops::Sub<Vec2i> for Vec2i {
    type Output = Vec2i;

    fn sub(self, o: Vec2i) -> (r: Vec2i) {
        Vec2i::new(self.x - o.x, self.y - o.y)
    }
}

impl vstd::std_specs::ops::SubSpecImpl<Vec2i> for Vec2i {
    open spec fn obeys_sub_spec() -> bool {
        true
    }

    open spec fn sub_req(self, o: Vec2i) -> bool {
        fits_i32(self.x - o.x) && fits_i32(self.y - o.y)
    }

    open spec fn sub_spec(self, o: Vec2i) -> Vec2i {
        Vec2i { x: (self.x - o.x) as i32, y: (self.y - o.y) as i32 }
    }
}

impl core::ops::Sub<i32> for Vec2i {
    type Output = Vec2i;

    fn sub(self, o: i32) -> (r: Vec2i) {
        Vec2i::new(self.x - o, self.y - o)
    }
}

impl vstd::std_specs::ops::SubSpecImpl<i32> for Vec2i {
    open spec fn obeys_sub_spec() -> bool {
        true
    }

    open spec fn sub_req(self, o: i32) -> bool {
        fits_i32(self.x - o) && fits_i32(self.y - o)
    }

    open spec fn sub_spec(self, o: i32) -> Vec2i {
        Vec2i { x: (self.x - o) as i32, y: (self.y - o) as i32 }
    }
}

impl core::ops::Mul<Vec2i> for Vec2i {
    type Output = Vec2i;

    fn mul(self, o: Vec2i) -> (r: Vec2i) {
        Vec2i::new(self.x * o.x, self.y * o.y)
    }
}

impl vstd::std_specs::ops::MulSpecImpl<Vec2i> for Vec2i {
    open spec fn obeys_mul_spec() -> bool {
        true
    }

    open spec fn mul_req(self, o: Vec2i) -> bool {
        fits_i32(self.x * o.x) && fits_i32(self.y * o.y)
    }

    open spec fn mul_spec(self, o: Vec2i) -> Vec2i {
        Vec2i { x: (self.x * o.x) as i32, y: (self.y * o.y) as i32 }
    }
}

impl core::ops::Mul<i32> for Vec2i {
    type Output = Vec2i;

    fn mul(self, o: i32) -> (r: Vec2i) {
        Vec2i::new(self.x * o, self.y * o)
    }
}

impl vstd::std_specs::ops::MulSpecImpl<i32> for Vec2i {
    open spec fn obeys_mul_spec() -> bool {
        true
    }

    open spec fn mul_req(self, o: i32) -> bool {
        fits_i32(self.x * o) && fits_i32(self.y * o)
    }

    open spec fn mul_spec(self, o: i32) -> Vec2i {
        Vec2i { x: (self.x * o) as i32, y: (self.y * o) as i32 }
    }
}

impl core::ops::Div<Vec2i> for Vec2i {
    type Output = Vec2i;

    fn div(self, o: Vec2i) -> (r: Vec2i) {
        Vec2i::new(self.x / o.x, self.y / o.y)
    }
}

impl vstd::std_specs::ops::DivSpecImpl<Vec2i> for Vec2i {
    open spec fn obeys_div_spec() -> bool {
        true
    }

    open spec fn div_req(self, o: Vec2i) -> bool {
        div_ok(self.x, o.x) && div_ok(self.y, o.y)
    }

    open spec fn div_spec(self, o: Vec2i) -> Vec2i {
        Vec2i { x: trunc_div(self.x as int, o.x as int) as i32, y: trunc_div(self.y as int, o.y as int) as i32 }
    }
}

impl core::ops::Div<i32> for Vec2i {
    type Output = Vec2i;

    fn div(self, o: i32) -> (r: Vec2i) {
        Vec2i::new(self.x / o, self.y / o)
    }
}

impl vstd::std_specs::ops::DivSpecImpl<i32> for Vec2i {
    open spec fn obeys_div_spec() -> bool {
        true
    }

    open spec fn div_req(self, o: i32) -> bool {
        div_ok(self.x, o) && div_ok(self.y, o)
    }

    open spec fn div_spec(self, o: i32) -> Vec2i {
        Vec2i { x: trunc_div(self.x as int, o as int) as i32, y: trunc_div(self.y as int, o as int) as i32 }
    }
}

impl core::ops::Neg for Vec2i {
    type Output = Vec2i;

    fn neg(self) -> (r: Vec2i) {
        Vec2i::new(-self.x, -self.y)
    }
}

impl vstd::std_specs::ops::NegSpecImpl for Vec2i {
    open spec fn obeys_neg_spec() -> bool {
        true
    }

    open spec fn neg_req(self) -> bool {
        fits_i32(-self.x) && fits_i32(-self.y)
    }

    open spec fn neg_spec(self) -> Vec2i {
        Vec2i { x: (-self.x) as i32, y: (-self.y) as i32 }
    }
}

} // verus!
