use std::convert::From;
use std::ops::{Add, AddAssign, Sub, SubAssign, Mul, MulAssign, Div, DivAssign};
use vstd::prelude::*;
use vstd::std_specs::convert::FromSpec;
use vstd::std_specs::ops::{AddSpec, SubSpec, MulSpec, DivSpec};
use vstd::std_specs::ops::{AddSpecImpl, SubSpecImpl, MulSpecImpl, DivSpecImpl};
use crate::geometry::vector::Dot;

verus! {

/// A vector in three dimensions, generic over its component type.
#[derive(Clone, Copy, Debug, Default)]
pub struct Vector3<T> {
    pub x: T,
    pub y: T,
    pub z: T,
}

impl<T> Vector3<T> {
    pub fn new(x: T, y: T, z: T) -> (v: Vector3<T>)
        ensures
            v.x == x,
            v.y == y,
            v.z == z,
    {
        Vector3 { x: x, y: y, z: z }
    }

    /// Converts each component with `S::from`.
    pub fn convert<S>(self) -> (v: Vector3<S>) where S: From<T>
        ensures
            S::obeys_from_spec() ==> v.x == S::from_spec(self.x),
            S::obeys_from_spec() ==> v.y == S::from_spec(self.y),
            S::obeys_from_spec() ==> v.z == S::from_spec(self.z),
    {
        Vector3 { x: S::from(self.x), y: S::from(self.y), z: S::from(self.z) }
    }
}

// Vector addition
impl<T, S> Add<Vector3<S>> for Vector3<T> where T: Add<S> {
    type Output = Vector3<T::Output>;

    fn add(self, other: Vector3<S>) -> Vector3<T::Output> {
        Vector3 { x: self.x + other.x, y: self.y + other.y, z: self.z + other.z }
    }
}

impl<T, S> AddSpecImpl<Vector3<S>> for Vector3<T> where T: Add<S> {
    open spec fn obeys_add_spec() -> bool {
        T::obeys_add_spec()
    }

    open spec fn add_req(self, other: Vector3<S>) -> bool {
        &&& self.x.add_req(other.x)
        &&& self.y.add_req(other.y)
        &&& self.z.add_req(other.z)
    }

    open spec fn add_spec(self, other: Vector3<S>) -> Vector3<T::Output> {
        Vector3 {
            x: self.x.add_spec(other.x),
            y: self.y.add_spec(other.y),
            z: self.z.add_spec(other.z),
        }
    }
}

/// In-place addition, each component updated through `Add`.
impl<T, S> AddAssign<Vector3<S>> for Vector3<T> where T: Add<S, Output = T> + Copy {
    fn add_assign(&mut self, other: Vector3<S>)
        requires
            old(self).x.add_req(other.x),
            old(self).y.add_req(other.y),
            old(self).z.add_req(other.z),
        ensures
            T::obeys_add_spec() ==> final(self).x == old(self).x.add_spec(other.x),
            T::obeys_add_spec() ==> final(self).y == old(self).y.add_spec(other.y),
            T::obeys_add_spec() ==> final(self).z == old(self).z.add_spec(other.z),
    {
        self.x = self.x + other.x;
        self.y = self.y + other.y;
        self.z = self.z + other.z;
    }
}

// Vector subtraction
impl<T, S> Sub<Vector3<S>> for Vector3<T> where T: Sub<S> {
    type Output = Vector3<T::Output>;

    fn sub(self, other: Vector3<S>) -> Vector3<T::Output> {
        Vector3 { x: self.x - other.x, y: self.y - other.y, z: self.z - other.z }
    }
}

impl<T, S> SubSpecImpl<Vector3<S>> for Vector3<T> where T: Sub<S> {
    open spec fn obeys_sub_spec() -> bool {
        T::obeys_sub_spec()
    }

    open spec fn sub_req(self, other: Vector3<S>) -> bool {
        &&& self.x.sub_req(other.x)
        &&& self.y.sub_req(other.y)
        &&& self.z.sub_req(other.z)
    }

    open spec fn sub_spec(self, other: Vector3<S>) -> Vector3<T::Output> {
        Vector3 {
            x: self.x.sub_spec(other.x),
            y: self.y.sub_spec(other.y),
            z: self.z.sub_spec(other.z),
        }
    }
}

/// In-place subtraction, through `Sub` on each component.
impl<T, S> SubAssign<Vector3<S>> for Vector3<T> where T: Sub<S, Output = T> + Copy {
    fn sub_assign(&mut self, other: Vector3<S>)
        requires
            old(self).x.sub_req(other.x),
            old(self).y.sub_req(other.y),
            old(self).z.sub_req(other.z),
        ensures
            T::obeys_sub_spec() ==> final(self).x == old(self).x.sub_spec(other.x),
            T::obeys_sub_spec() ==> final(self).y == old(self).y.sub_spec(other.y),
            T::obeys_sub_spec() ==> final(self).z == old(self).z.sub_spec(other.z),
    {
        self.x = self.x - other.x;
        self.y = self.y - other.y;
        self.z = self.z - other.z;
    }
}

// Scalar multiplication
impl<T, S> Mul<S> for Vector3<T> where T: Mul<S>, S: Copy {
    type Output = Vector3<T::Output>;

    fn mul(self, other: S) -> Vector3<T::Output> {
        Vector3 { x: self.x * other, y: self.y * other, z: self.z * other }
    }
}

impl<T, S> MulSpecImpl<S> for Vector3<T> where T: Mul<S>, S: Copy {
    open spec fn obeys_mul_spec() -> bool {
        T::obeys_mul_spec()
    }

    open spec fn mul_req(self, other: S) -> bool {
        &&& self.x.mul_req(other)
        &&& self.y.mul_req(other)
        &&& self.z.mul_req(other)
    }

    open spec fn mul_spec(self, other: S) -> Vector3<T::Output> {
        Vector3 { x: self.x.mul_spec(other), y: self.y.mul_spec(other), z: self.z.mul_spec(other) }
    }
}

/// In-place scalar multiplication, through `Mul` on each component.
impl<T, S> MulAssign<S> for Vector3<T> where T: Mul<S, Output = T> + Copy, S: Copy {
    fn mul_assign(&mut self, other: S)
        requires
            old(self).x.mul_req(other),
            old(self).y.mul_req(other),
            old(self).z.mul_req(other),
        ensures
            T::obeys_mul_spec() ==> final(self).x == old(self).x.mul_spec(other),
            T::obeys_mul_spec() ==> final(self).y == old(self).y.mul_spec(other),
            T::obeys_mul_spec() ==> final(self).z == old(self).z.mul_spec(other),
    {
        self.x = self.x * other;
        self.y = self.y * other;
        self.z = self.z * other;
    }
}

// Scalar division
impl<T, S> Div<S> for Vector3<T> where T: Div<S>, S: Copy {
    type Output = Vector3<T::Output>;

    fn div(self, other: S) -> Vector3<T::Output> {
        Vector3 { x: self.x / other, y: self.y / other, z: self.z / other }
    }
}

impl<T, S> DivSpecImpl<S> for Vector3<T> where T: Div<S>, S: Copy {
    open spec fn obeys_div_spec() -> bool {
        T::obeys_div_spec()
    }

    open spec fn div_req(self, other: S) -> bool {
        &&& self.x.div_req(other)
        &&& self.y.div_req(other)
        &&& self.z.div_req(other)
    }

    open spec fn div_spec(self, other: S) -> Vector3<T::Output> {
        Vector3 { x: self.x.div_spec(other), y: self.y.div_spec(other), z: self.z.div_spec(other) }
    }
}

/// In-place scalar division, through `Div` on each component.
impl<T, S> DivAssign<S> for Vector3<T> where T: Div<S, Output = T> + Copy, S: Copy {
    fn div_assign(&mut self, other: S)
        requires
            old(self).x.div_req(other),
            old(self).y.div_req(other),
            old(self).z.div_req(other),
        ensures
            T::obeys_div_spec() ==> final(self).x == old(self).x.div_spec(other),
            T::obeys_div_spec() ==> final(self).y == old(self).y.div_spec(other),
            T::obeys_div_spec() ==> final(self).z == old(self).z.div_spec(other),
    {
        self.x = self.x / other;
        self.y = self.y / other;
        self.z = self.z / other;
    }
}

// Dot product
impl<T, S> Dot<Vector3<S>> for Vector3<T> where
    T: Mul<S>,
    <T as Mul<S>>::Output: Add,
    <<T as Mul<S>>::Output as Add>::Output: Add<<T as Mul<S>>::Output>,
 {
    type Output = <<<T as Mul<S>>::Output as Add>::Output as Add<<T as Mul<S>>::Output>>::Output;

    open spec fn dot_req(self, rhs: Vector3<S>) -> bool {
        &&& self.x.mul_req(rhs.x)
        &&& self.y.mul_req(rhs.y)
        &&& self.z.mul_req(rhs.z)
        // the first sum: allowed for any products, or for these products
        &&& (forall|a: <T as Mul<S>>::Output, b: <T as Mul<S>>::Output|
            #[trigger] a.add_req(b)) || (T::obeys_mul_spec() && self.x.mul_spec(rhs.x).add_req(
            self.y.mul_spec(rhs.y),
        ))
        // the second sum: allowed for any operands, or for these ones
        &&& (forall|a: <<T as Mul<S>>::Output as Add>::Output, b: <T as Mul<S>>::Output|
            #[trigger] a.add_req(b)) || (T::obeys_mul_spec()
            && <T as Mul<S>>::Output::obeys_add_spec() && self.x.mul_spec(rhs.x).add_spec(
            self.y.mul_spec(rhs.y),
        ).add_req(self.z.mul_spec(rhs.z)))
    }

    fn dot(self, rhs: Vector3<S>) -> (d: Self::Output)
        ensures
            T::obeys_mul_spec() && <T as Mul<S>>::Output::obeys_add_spec()
                && <<T as Mul<S>>::Output as Add>::Output::obeys_add_spec() ==> d == self.x.mul_spec(
                rhs.x,
            ).add_spec(self.y.mul_spec(rhs.y)).add_spec(self.z.mul_spec(rhs.z)),
    {
        (self.x * rhs.x + self.y * rhs.y) + self.z * rhs.z
    }
}

/// Vector arithmetic works component by component: sums and differences of
/// matching components, each component scaled by the scalar, and the dot
/// product the sum of the products of matching components.
pub proof fn law_componentwise(a: Vector3<i64>, b: Vector3<i64>, k: i64)
    requires
        AddSpec::add_req(a, b),
        SubSpec::sub_req(a, b),
        MulSpec::mul_req(a, k),
        DivSpec::div_req(a, k),
    ensures
        AddSpec::add_spec(a, b).x == a.x + b.x,
        AddSpec::add_spec(a, b).y == a.y + b.y,
        AddSpec::add_spec(a, b).z == a.z + b.z,
        SubSpec::sub_spec(a, b).x == a.x - b.x,
        SubSpec::sub_spec(a, b).y == a.y - b.y,
        SubSpec::sub_spec(a, b).z == a.z - b.z,
        MulSpec::mul_spec(a, k).x == a.x * k,
        MulSpec::mul_spec(a, k).y == a.y * k,
        MulSpec::mul_spec(a, k).z == a.z * k,
        k > 0 && a.x >= 0 ==> DivSpec::div_spec(a, k).x == a.x / k,
        k > 0 && a.y >= 0 ==> DivSpec::div_spec(a, k).y == a.y / k,
        k > 0 && a.z >= 0 ==> DivSpec::div_spec(a, k).z == a.z / k,
{
}

/// Subtracting a vector undoes adding it, wherever the addition does not
/// overflow.
pub proof fn law_sub_undoes_add(a: Vector3<i64>, b: Vector3<i64>)
    requires
        AddSpec::add_req(a, b),
    ensures
        SubSpec::sub_req(AddSpec::add_spec(a, b), b),
        SubSpec::sub_spec(AddSpec::add_spec(a, b), b) == a,
{
}

/// Vector addition does not depend on the order of its operands.
pub proof fn law_add_commutes(a: Vector3<i64>, b: Vector3<i64>)
    requires
        AddSpec::add_req(a, b),
    ensures
        AddSpec::add_req(b, a),
        AddSpec::add_spec(a, b) == AddSpec::add_spec(b, a),
{
}

} // verus!
