//! Triples of coordinates, and values that come with their mirror image.

use vstd::prelude::*;

verus! {

/// One of the three axes of space.
#[derive(Clone, Copy, Debug, PartialEq, Eq, Structural)]
pub enum Axis {
    X,
    Y,
    Z,
}

/// A triple with one component along each axis.
#[derive(Clone, Copy, Debug, PartialEq, Eq)]
pub struct Vec3<T> {
    pub x: T,
    pub y: T,
    pub z: T,
}

/// A position or an offset counted in whole blocks.
pub type IVec3 = Vec3<i32>;

impl<T> Vec3<T> {
    /// The component along `axis`.
    pub open spec fn along(self, axis: Axis) -> T {
        match axis {
            Axis::X => self.x,
            Axis::Y => self.y,
            Axis::Z => self.z,
        }
    }

    pub fn new(x: T, y: T, z: T) -> (v: Self)
        ensures
            v == (Vec3 { x, y, z }),
    {
        Vec3 { x, y, z }
    }
}

impl<T: Copy> Vec3<T> {
    /// Reads the component along `axis`.
    pub fn component(&self, axis: Axis) -> (c: T)
        ensures
            c == self.along(axis),
            axis is X ==> c == self.x,
            axis is Y ==> c == self.y,
            axis is Z ==> c == self.z,
    {
        match axis {
            Axis::X => self.x,
            Axis::Y => self.y,
            Axis::Z => self.z,
        }
    }
}

impl Vec3<i32> {
    /// The same triple in unbounded integers.
    pub open spec fn to_int(self) -> Vec3<int> {
        Vec3 { x: self.x as int, y: self.y as int, z: self.z as int }
    }

    /// Adds component by component.
    pub fn plus(self, other: Vec3<i32>) -> (sum: Vec3<i32>)
        requires
            i32::MIN <= self.x + other.x <= i32::MAX,
            i32::MIN <= self.y + other.y <= i32::MAX,
            i32::MIN <= self.z + other.z <= i32::MAX,
        ensures
            sum.to_int() == vec_add(self.to_int(), other.to_int()),
            sum.x - self.x == other.x,
            sum.y - self.y == other.y,
            sum.z - self.z == other.z,
    {
        Vec3 { x: self.x + other.x, y: self.y + other.y, z: self.z + other.z }
    }
}

/// The sum of two triples.
pub open spec fn vec_add(a: Vec3<int>, b: Vec3<int>) -> Vec3<int> {
    Vec3 { x: a.x + b.x, y: a.y + b.y, z: a.z + b.z }
}

/// The difference of two triples.
pub open spec fn vec_sub(a: Vec3<int>, b: Vec3<int>) -> Vec3<int> {
    Vec3 { x: a.x - b.x, y: a.y - b.y, z: a.z - b.z }
}

/// The cross product of two triples.
pub open spec fn cross(a: Vec3<int>, b: Vec3<int>) -> Vec3<int> {
    Vec3 {
        x: a.y * b.z - a.z * b.y,
        y: a.z * b.x - a.x * b.z,
        z: a.x * b.y - a.y * b.x,
    }
}

/// The dot product of two triples.
pub open spec fn dot(a: Vec3<int>, b: Vec3<int>) -> int {
    a.x * b.x + a.y * b.y + a.z * b.z
}

/// A value together with its mirror image: a coordinate with its negation, or a
/// texture coordinate with its distance from the far edge.
#[derive(Clone, Copy, Debug, PartialEq, Eq)]
pub struct Mirrored<T> {
    pub value: T,
    pub image: T,
}

impl<T> Mirrored<T> {
    /// The mirror image, whose own image is the value.
    pub open spec fn flip(self) -> Self {
        Mirrored { value: self.image, image: self.value }
    }
}

impl<T: Copy> Mirrored<T> {
    pub fn new(value: T, image: T) -> (m: Self)
        ensures
            m == (Mirrored { value, image }),
    {
        Mirrored { value, image }
    }

    /// Swaps the value and its image.
    pub fn flipped(self) -> (m: Self)
        ensures
            m == self.flip(),
            m.value == self.image,
            m.image == self.value,
    {
        Mirrored { value: self.image, image: self.value }
    }
}

/// The unbounded triple has the components of the bounded one.
pub proof fn law_to_int_keeps_components(v: IVec3)
    ensures
        v.to_int().x == v.x,
        v.to_int().y == v.y,
        v.to_int().z == v.z,
{
}

/// Flipping twice restores a value, and flipping once puts its image in its place.
pub proof fn law_flipping_twice_restores<T>(m: Mirrored<T>)
    ensures
        m.flip().value == m.image,
        m.flip().flip() == m,
{
}

} // verus!
