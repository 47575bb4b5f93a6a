//! Re-expressing a rotation from the device's body axes in the display axes.

use vstd::prelude::*;
use crate::wire::Vec3Bits;

verus! {

/// The sign bit of a single-precision value.
pub const SIGN_BIT: u32 = 0x8000_0000;

/// The bit pattern of `-v` for the value whose pattern is `b`: negation
/// flips the sign bit and nothing else.
pub open spec fn negated(b: u32) -> u32 {
    b ^ SIGN_BIT
}

/// A rotation as a unit axis and an angle in radians, as bit patterns.
#[derive(Clone, Copy, Debug, PartialEq, Eq, Structural)]
pub struct AxisAngle {
    pub axis: Vec3Bits,
    pub angle: u32,
}

/// The display axis for device axis `v`: display x is device y, display y
/// is device -z and display z is device x.
pub open spec fn display_axis_of(v: Vec3Bits) -> Vec3Bits {
    Vec3Bits { x: v.y, y: negated(v.z), z: v.x }
}

pub fn negate(b: u32) -> (r: u32)
    ensures
        r == negated(b),
{
    b ^ SIGN_BIT
}

/// Permutes and flips the components of a device-axis direction.
pub fn remap_axis(v: Vec3Bits) -> (r: Vec3Bits)
    ensures
        r == display_axis_of(v),
{
    Vec3Bits { x: v.y, y: negate(v.z), z: v.x }
}

/// The same rotation in display axes: the axis is remapped, the angle kept.
pub fn remap(rotation: AxisAngle) -> (r: AxisAngle)
    ensures
        r.axis == display_axis_of(rotation.axis),
        r.angle == rotation.angle,
{
    AxisAngle { axis: remap_axis(rotation.axis), angle: rotation.angle }
}

} // verus!
