//! Vectors and orientations as a host sees them.

use vstd::prelude::*;
use crate::native;
use crate::scalar::Scalar;

verus! {

/// A point or direction: three numbers, copied freely.
#[derive(Clone, Copy, Debug, PartialEq, Eq, Structural)]
pub struct Vec3 {
    pub x: Scalar,
    pub y: Scalar,
    pub z: Scalar,
}

/// The value a component takes when a vector is built from a loose argument
/// list: the keyword argument where one was given, else the positional
/// argument at `index` where there is one and it was a number, else zero.
pub open spec fn component_from_args(
    positional: Seq<Option<Scalar>>,
    index: int,
    keyword: Option<Scalar>,
) -> Scalar {
    match keyword {
        Some(value) => value,
        None => if 0 <= index < positional.len() {
            match positional[index] {
                Some(value) => value,
                None => Scalar::zero_spec(),
            }
        } else {
            Scalar::zero_spec()
        },
    }
}

fn pick_component(positional: &Vec<Option<Scalar>>, index: usize, keyword: Option<Scalar>) -> (r:
    Scalar)
    ensures
        r == component_from_args(positional@, index as int, keyword),
{
    match keyword {
        Some(value) => value,
        None => {
            if index < positional.len() {
                match positional[index] {
                    Some(value) => value,
                    None => Scalar::zero(),
                }
            } else {
                Scalar::zero()
            }
        },
    }
}

impl Vec3 {
    pub open spec fn zero_spec() -> Vec3 {
        Vec3 { x: Scalar::zero_spec(), y: Scalar::zero_spec(), z: Scalar::zero_spec() }
    }

    pub open spec fn unit_x_spec() -> Vec3 {
        Vec3 { x: Scalar::one_spec(), y: Scalar::zero_spec(), z: Scalar::zero_spec() }
    }

    pub open spec fn unit_y_spec() -> Vec3 {
        Vec3 { x: Scalar::zero_spec(), y: Scalar::one_spec(), z: Scalar::zero_spec() }
    }

    pub open spec fn unit_z_spec() -> Vec3 {
        Vec3 { x: Scalar::zero_spec(), y: Scalar::zero_spec(), z: Scalar::one_spec() }
    }

    /// The vector with the given components.
    pub fn new(x: Scalar, y: Scalar, z: Scalar) -> (r: Vec3)
        ensures
            r == (Vec3 { x, y, z }),
    {
        Vec3 { x, y, z }
    }

    /// The origin.
    pub fn zero() -> (r: Vec3)
        ensures
            r == Vec3::zero_spec(),
    {
        Vec3 { x: Scalar::zero(), y: Scalar::zero(), z: Scalar::zero() }
    }

    /// The unit vector along the first axis.
    pub fn unit_x() -> (r: Vec3)
        ensures
            r == Vec3::unit_x_spec(),
    {
        Vec3 { x: Scalar::one(), y: Scalar::zero(), z: Scalar::zero() }
    }

    /// The unit vector along the second axis.
    pub fn unit_y() -> (r: Vec3)
        ensures
            r == Vec3::unit_y_spec(),
    {
        Vec3 { x: Scalar::zero(), y: Scalar::one(), z: Scalar::zero() }
    }

    /// The unit vector along the third axis.
    pub fn unit_z() -> (r: Vec3)
        ensures
            r == Vec3::unit_z_spec(),
    {
        Vec3 { x: Scalar::zero(), y: Scalar::zero(), z: Scalar::one() }
    }

    /// Builds a vector from a loose argument list, as a host constructor
    /// receives it.
    ///
    /// `positional` holds the positional arguments in order, `None` standing
    /// for one that was not a number; arguments past the third are ignored.
    /// `x`, `y` and `z` are the keyword arguments of those names. A keyword
    /// argument overrides the positional one for the same component, and a
    /// component that neither names is zero.
    pub fn from_args(
        positional: &Vec<Option<Scalar>>,
        x: Option<Scalar>,
        y: Option<Scalar>,
        z: Option<Scalar>,
    ) -> (r: Vec3)
        ensures
            r.x == component_from_args(positional@, 0, x),
            r.y == component_from_args(positional@, 1, y),
            r.z == component_from_args(positional@, 2, z),
    {
        Vec3 {
            x: pick_component(positional, 0, x),
            y: pick_component(positional, 1, y),
            z: pick_component(positional, 2, z),
        }
    }

    /// This vector with its first component replaced.
    pub fn with_x(&self, x: Scalar) -> (r: Vec3)
        ensures
            r == (Vec3 { x, y: self.y, z: self.z }),
    {
        Vec3 { x, y: self.y, z: self.z }
    }

    /// This vector with its second component replaced.
    pub fn with_y(&self, y: Scalar) -> (r: Vec3)
        ensures
            r == (Vec3 { x: self.x, y, z: self.z }),
    {
        Vec3 { x: self.x, y, z: self.z }
    }

    /// This vector with its third component replaced.
    pub fn with_z(&self, z: Scalar) -> (r: Vec3)
        ensures
            r == (Vec3 { x: self.x, y: self.y, z }),
    {
        Vec3 { x: self.x, y: self.y, z }
    }

    pub open spec fn from_native_spec(v: native::Vec3) -> Vec3 {
        Vec3 { x: v.x, y: v.y, z: v.z }
    }

    pub open spec fn to_native_spec(self) -> native::Vec3 {
        native::Vec3 { x: self.x, y: self.y, z: self.z }
    }

    /// The host's copy of an engine vector.
    pub fn from_native(v: native::Vec3) -> (r: Vec3)
        ensures
            r == Vec3::from_native_spec(v),
    {
        Vec3 { x: v.x, y: v.y, z: v.z }
    }

    /// The engine's copy of this vector.
    pub fn to_native(self) -> (r: native::Vec3)
        ensures
            r == self.to_native_spec(),
    {
        native::Vec3 { x: self.x, y: self.y, z: self.z }
    }
}

impl Default for Vec3 {
    /// The origin.
    fn default() -> (r: Vec3)
        ensures
            r == Vec3::zero_spec(),
    {
        Vec3::zero()
    }
}

/// An orientation: the directions in which a body's forward, right and up
/// axes point. The three are meant to be orthonormal; nothing here enforces
/// it.
#[derive(Clone, Copy, Debug, PartialEq, Eq, Structural)]
pub struct RotMat {
    pub forward: Vec3,
    pub right: Vec3,
    pub up: Vec3,
}

impl RotMat {
    pub open spec fn identity_spec() -> RotMat {
        RotMat {
            forward: Vec3::unit_x_spec(),
            right: Vec3::unit_y_spec(),
            up: Vec3::unit_z_spec(),
        }
    }

    /// The orientation with the given axes.
    pub fn new(forward: Vec3, right: Vec3, up: Vec3) -> (r: RotMat)
        ensures
            r == (RotMat { forward, right, up }),
    {
        RotMat { forward, right, up }
    }

    /// The orientation of a body aligned with the world axes.
    pub fn identity() -> (r: RotMat)
        ensures
            r == RotMat::identity_spec(),
    {
        RotMat { forward: Vec3::unit_x(), right: Vec3::unit_y(), up: Vec3::unit_z() }
    }

    pub open spec fn from_native_spec(m: native::RotMat) -> RotMat {
        RotMat {
            forward: Vec3::from_native_spec(m.forward),
            right: Vec3::from_native_spec(m.right),
            up: Vec3::from_native_spec(m.up),
        }
    }

    pub open spec fn to_native_spec(self) -> native::RotMat {
        native::RotMat {
            forward: self.forward.to_native_spec(),
            right: self.right.to_native_spec(),
            up: self.up.to_native_spec(),
        }
    }

    /// The host's copy of an engine orientation.
    pub fn from_native(m: native::RotMat) -> (r: RotMat)
        ensures
            r == RotMat::from_native_spec(m),
    {
        RotMat {
            forward: Vec3::from_native(m.forward),
            right: Vec3::from_native(m.right),
            up: Vec3::from_native(m.up),
        }
    }

    /// The engine's copy of this orientation.
    pub fn to_native(self) -> (r: native::RotMat)
        ensures
            r == self.to_native_spec(),
    {
        native::RotMat {
            forward: self.forward.to_native(),
            right: self.right.to_native(),
            up: self.up.to_native(),
        }
    }
}

impl Default for RotMat {
    /// The identity.
    fn default() -> (r: RotMat)
        ensures
            r == RotMat::identity_spec(),
    {
        RotMat::identity()
    }
}

} // verus!
