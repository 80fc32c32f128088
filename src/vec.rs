//! A two-component vector, used for pixel positions, pixel sizes and
//! fractional coordinates.
use vstd::prelude::*;

verus! {

/// A 2D vector.
#[derive(Debug, Clone, Copy, PartialEq, Eq, Structural)]
pub struct Vec2<T> {
    pub x: T,
    pub y: T,
}

impl<T> Vec2<T> {
    /// The x component.
    pub fn x(&self) -> (r: T) where T: Copy
        ensures
            r == self.x,
    {
        self.x
    }

    /// The y component.
    pub fn y(&self) -> (r: T) where T: Copy
        ensures
            r == self.y,
    {
        self.y
    }

    /// The vector `(x, y)`.
    pub fn new(x: T, y: T) -> (r: Self)
        ensures
            r.x == x,
            r.y == y,
    {
        Vec2 { x, y }
    }

    /// This vector with each component converted by `From`.
    pub fn convert<U>(&self) -> (r: Vec2<U>) where T: Copy, U: From<T>
        ensures
            call_ensures(U::from, (self.x,), r.x),
            call_ensures(U::from, (self.y,), r.y),
    {
        Vec2 { x: U::from(self.x), y: U::from(self.y) }
    }

    /// This vector with its x component replaced.
    pub fn with_x(&self, x: T) -> (r: Self) where T: Copy
        ensures
            r.x == x,
            r.y == self.y,
    {
        Vec2 { x, y: self.y }
    }

    /// This vector with its y component replaced.
    pub fn with_y(&self, y: T) -> (r: Self) where T: Copy
        ensures
            r.x == self.x,
            r.y == y,
    {
        Vec2 { x: self.x, y }
    }
}

/// Whether an integer fits in an `i32`.
pub open spec fn fits_i32(v: int) -> bool {
    i32::MIN <= v <= i32::MAX
}

/// Integer division truncated toward zero, as Rust's `/` on signed integers.
pub open spec fn div_trunc(a: int, b: int) -> int {
    if a >= 0 {
        a / b
    } else {
        -((-a) / b)
    }
}

impl Vec2<i32> {
    /// The dot product.
    pub fn dot(&self, rhs: Vec2<i32>) -> (r: i32)
        requires
            fits_i32(self.x * rhs.x),
            fits_i32(self.y * rhs.y),
            fits_i32(self.x * rhs.x + self.y * rhs.y),
        ensures
            r == self.x * rhs.x + self.y * rhs.y,
    {
        self.x * rhs.x + self.y * rhs.y
    }

    /// The componentwise (Hadamard) product.
    pub fn hammard(&self, rhs: Vec2<i32>) -> (r: Vec2<i32>)
        requires
            fits_i32(self.x * rhs.x),
            fits_i32(self.y * rhs.y),
        ensures
            r.x == self.x * rhs.x,
            r.y == self.y * rhs.y,
    {
        Vec2 { x: self.x * rhs.x, y: self.y * rhs.y }
    }

    /// The componentwise quotient, truncated toward zero as Rust's `/` does.
    pub fn inv_hammard(&self, rhs: Vec2<i32>) -> (r: Vec2<i32>)
        requires
            rhs.x != 0,
            rhs.y != 0,
            !(self.x == i32::MIN && rhs.x == -1),
            !(self.y == i32::MIN && rhs.y == -1),
        ensures
            r.x == div_trunc(self.x as int, rhs.x as int) as i32,
            r.y == div_trunc(self.y as int, rhs.y as int) as i32,
    {
        Vec2 { x: std::ops::Div::div(self.x, rhs.x), y: std::ops::Div::div(self.y, rhs.y) }
    }
}

impl std::ops::Add<Vec2<i32>> for Vec2<i32> {
    type Output = Vec2<i32>;

    fn add(self, rhs: Vec2<i32>) -> (r: Vec2<i32>) {
        Vec2 { x: self.x + rhs.x, y: self.y + rhs.y }
    }
}

impl vstd::std_specs::ops::AddSpecImpl<Vec2<i32>> for Vec2<i32> {
    open spec fn obeys_add_spec() -> bool {
        true
    }

    open spec fn add_req(self, rhs: Vec2<i32>) -> bool {
        fits_i32(self.x + rhs.x) && fits_i32(self.y + rhs.y)
    }

    open spec fn add_spec(self, rhs: Vec2<i32>) -> Vec2<i32> {
        Vec2 { x: (self.x + rhs.x) as i32, y: (self.y + rhs.y) as i32 }
    }
}

impl std::ops::Sub<Vec2<i32>> for Vec2<i32> {
    type Output = Vec2<i32>;

    fn sub(self, rhs: Vec2<i32>) -> (r: Vec2<i32>) {
        Vec2 { x: self.x - rhs.x, y: self.y - rhs.y }
    }
}

impl vstd::std_specs::ops::SubSpecImpl<Vec2<i32>> for Vec2<i32> {
    open spec fn obeys_sub_spec() -> bool {
        true
    }

    open spec fn sub_req(self, rhs: Vec2<i32>) -> bool {
        fits_i32(self.x - rhs.x) && fits_i32(self.y - rhs.y)
    }

    open spec fn sub_spec(self, rhs: Vec2<i32>) -> Vec2<i32> {
        Vec2 { x: (self.x - rhs.x) as i32, y: (self.y - rhs.y) as i32 }
    }
}

impl std::ops::Mul<i32> for Vec2<i32> {
    type Output = Vec2<i32>;

    fn mul(self, rhs: i32) -> (r: Vec2<i32>) {
        Vec2 { x: self.x * rhs, y: self.y * rhs }
    }
}

impl vstd::std_specs::ops::MulSpecImpl<i32> for Vec2<i32> {
    open spec fn obeys_mul_spec() -> bool {
        true
    }

    open spec fn mul_req(self, rhs: i32) -> bool {
        fits_i32(self.x * rhs) && fits_i32(self.y * rhs)
    }

    open spec fn mul_spec(self, rhs: i32) -> Vec2<i32> {
        Vec2 { x: (self.x * rhs) as i32, y: (self.y * rhs) as i32 }
    }
}

impl std::ops::Mul<Vec2<i32>> for Vec2<i32> {
    type Output = i32;

    fn mul(self, rhs: Vec2<i32>) -> (r: i32) {
        self.x * rhs.x + self.y * rhs.y
    }
}

impl vstd::std_specs::ops::MulSpecImpl<Vec2<i32>> for Vec2<i32> {
    open spec fn obeys_mul_spec() -> bool {
        true
    }

    open spec fn mul_req(self, rhs: Vec2<i32>) -> bool {
        fits_i32(self.x * rhs.x) && fits_i32(self.y * rhs.y) && fits_i32(
            self.x * rhs.x + self.y * rhs.y,
        )
    }

    open spec fn mul_spec(self, rhs: Vec2<i32>) -> i32 {
        (self.x * rhs.x + self.y * rhs.y) as i32
    }
}

impl std::ops::Div<i32> for Vec2<i32> {
    type Output = Vec2<i32>;

    fn div(self, rhs: i32) -> (r: Vec2<i32>) {
        Vec2 { x: std::ops::Div::div(self.x, rhs), y: std::ops::Div::div(self.y, rhs) }
    }
}

impl vstd::std_specs::ops::DivSpecImpl<i32> for Vec2<i32> {
    open spec fn obeys_div_spec() -> bool {
        true
    }

    open spec fn div_req(self, rhs: i32) -> bool {
        rhs != 0 && !(rhs == -1 && (self.x == i32::MIN || self.y == i32::MIN))
    }

    open spec fn div_spec(self, rhs: i32) -> Vec2<i32> {
        Vec2 { x: div_trunc(self.x as int, rhs as int) as i32, y: div_trunc(self.y as int, rhs as int) as i32 }
    }
}

impl std::ops::Neg for Vec2<i32> {
    type Output = Vec2<i32>;

    fn neg(self) -> (r: Vec2<i32>) {
        Vec2 { x: -self.x, y: -self.y }
    }
}

impl vstd::std_specs::ops::NegSpecImpl for Vec2<i32> {
    open spec fn obeys_neg_spec() -> bool {
        true
    }

    open spec fn neg_req(self) -> bool {
        self.x != i32::MIN && self.y != i32::MIN
    }

    open spec fn neg_spec(self) -> Vec2<i32> {
        Vec2 { x: (-self.x) as i32, y: (-self.y) as i32 }
    }
}

impl<T> From<(T, T)> for Vec2<T> {
    fn from(value: (T, T)) -> (r: Vec2<T>) {
        Vec2 { x: value.0, y: value.1 }
    }
}

impl<T> vstd::std_specs::convert::FromSpecImpl<(T, T)> for Vec2<T> {
    open spec fn obeys_from_spec() -> bool {
        true
    }

    open spec fn from_spec(v: (T, T)) -> Vec2<T> {
        Vec2 { x: v.0, y: v.1 }
    }
}

impl<T: Copy> From<[T; 2]> for Vec2<T> {
    fn from(value: [T; 2]) -> (r: Vec2<T>) {
        Vec2 { x: value[0], y: value[1] }
    }
}

impl<T: Copy> vstd::std_specs::convert::FromSpecImpl<[T; 2]> for Vec2<T> {
    open spec fn obeys_from_spec() -> bool {
        true
    }

    open spec fn from_spec(v: [T; 2]) -> Vec2<T> {
        Vec2 { x: v@[0], y: v@[1] }
    }
}

impl<T: Copy> From<Vec2<T>> for (T, T) {
    fn from(vec: Vec2<T>) -> (r: (T, T)) {
        (vec.x, vec.y)
    }
}

impl<T: Copy> vstd::std_specs::convert::FromSpecImpl<Vec2<T>> for (T, T) {
    open spec fn obeys_from_spec() -> bool {
        true
    }

    open spec fn from_spec(v: Vec2<T>) -> (T, T) {
        (v.x, v.y)
    }
}

impl<T: Copy> From<Vec2<T>> for [T; 2] {
    fn from(vec: Vec2<T>) -> (r: [T; 2]) {
        [vec.x, vec.y]
    }
}

impl<T: Copy> vstd::std_specs::convert::FromSpecImpl<Vec2<T>> for [T; 2] {
    open spec fn obeys_from_spec() -> bool {
        true
    }

    open spec fn from_spec(v: Vec2<T>) -> [T; 2] {
        [v.x, v.y]
    }
}

} // verus!
