//! What is accepted as an orientation and as a pose of a target.
use crate::control_types;
use crate::double::Double;
use crate::error::{ErrorView, FrankaError};
use crate::double;
use vstd::prelude::*;

verus! {

/// How far from orthonormal the rotation block of a target pose may be: 1e-3, as a bit pattern.
/// Within this it is re-orthonormalised, beyond it refused.
pub const ORTHONORMAL_TOLERANCE: u64 = 0x3f50_624d_d2f1_a9fc;

/// How far from unit length a target quaternion may be before it is refused: 1e-3, as a bit
/// pattern. Within this it is normalised.
pub const UNIT_QUATERNION_TOLERANCE: u64 = 0x3f50_624d_d2f1_a9fc;

/// How far the last row of a target pose may be from that of a homogeneous transform: 1e-6, as a
/// bit pattern.
pub const LAST_ROW_TOLERANCE: u64 = 0x3eb0_c6f7_a0b5_ed8d;

/// Why an orientation or a pose was refused.
#[derive(Clone, Copy, PartialEq, Eq, Structural, Debug)]
pub enum PoseFault {
    /// A component of the orientation is not finite.
    OrientationNotFinite,
    /// The orientation is not of unit length.
    NotUnit,
    /// An entry of the pose is not finite.
    PoseNotFinite,
    /// The last row is not that of a homogeneous transform.
    LastRow,
    /// The rotation block is not orthonormal.
    NotOrthonormal,
}

impl PoseFault {
    /// What the refusal says, with the texts of the value refused and, of an orientation that is
    /// not of unit length, of its norm.
    pub open spec fn text(self, shown: Seq<char>, norm: Seq<char>) -> Seq<char> {
        match self {
            PoseFault::OrientationNotFinite => "target control: the orientation must be finite, got "@
                + shown,
            PoseFault::NotUnit => "target control: the orientation "@ + shown
                + " is not a unit quaternion (norm "@ + norm + "); the order is [x, y, z, w]"@,
            PoseFault::PoseNotFinite => "target control: the pose must be finite, got "@ + shown,
            PoseFault::LastRow => "target control: the pose must be a column-major homogeneous transform with the last row [0, 0, 0, 1], got "@
                + shown,
            PoseFault::NotOrthonormal => "target control: the rotation block of the pose is not orthonormal (error "@
                + shown
                + " against a tolerance of 1e-3); a rotation matrix's columns must be unit length and mutually perpendicular, and the pose column-major"@,
        }
    }

    /// The error of a refusal, with the texts of the value refused and, of an orientation that is
    /// not of unit length, of its norm.
    pub fn error(&self, shown: &str, norm: &str) -> (e: FrankaError)
        ensures
            e@ == ErrorView::InvalidArgument(self.text(shown@, norm@)),
    {
        let opening = match self {
            PoseFault::OrientationNotFinite => "target control: the orientation must be finite, got ",
            PoseFault::NotUnit => "target control: the orientation ",
            PoseFault::PoseNotFinite => "target control: the pose must be finite, got ",
            PoseFault::LastRow => "target control: the pose must be a column-major homogeneous transform with the last row [0, 0, 0, 1], got ",
            PoseFault::NotOrthonormal => "target control: the rotation block of the pose is not orthonormal (error ",
        };
        let mut message = String::from_str(opening);
        message.append(shown);
        match self {
            PoseFault::NotUnit => {
                message.append(" is not a unit quaternion (norm ");
                message.append(norm);
                message.append("); the order is [x, y, z, w]");
            },
            PoseFault::NotOrthonormal => {
                message.append(
                    " against a tolerance of 1e-3); a rotation matrix's columns must be unit length and mutually perpendicular, and the pose column-major",
                );
            },
            _ => {},
        }
        FrankaError::InvalidArgument(message)
    }
}

/// What is wrong with an orientation whose length is `off` away from one.
pub open spec fn orientation_fault(orientation: [Double; 4], off: Double) -> Option<PoseFault> {
    if !control_types::all_finite(orientation@) {
        Some(PoseFault::OrientationNotFinite)
    } else if (Double { bits: UNIT_QUATERNION_TOLERANCE }).lt(off) {
        Some(PoseFault::NotUnit)
    } else {
        None
    }
}

/// Whether every number is finite.
fn are_finite(values: &[Double]) -> (b: bool)
    ensures
        b == control_types::all_finite(values@),
{
    let mut i: usize = 0;
    while i < values.len()
        invariant
            i <= values@.len(),
            forall|j: int| 0 <= j < i ==> (#[trigger] values@[j]).finite(),
        decreases values@.len() - i,
    {
        if !values[i].is_finite() {
            assert(!values@[i as int].finite());
            return false;
        }
        i = i + 1;
    }
    true
}

/// Checks an orientation whose length is `off` away from one.
pub fn unit_quaternion(orientation: &[Double; 4], off: Double) -> (r: Result<(), PoseFault>)
    ensures
        r == match orientation_fault(*orientation, off) {
            Some(fault) => Err(fault),
            None => Ok(()),
        },
{
    if !are_finite(orientation) {
        Err(PoseFault::OrientationNotFinite)
    } else if (Double { bits: UNIT_QUATERNION_TOLERANCE }).less(off) {
        Err(PoseFault::NotUnit)
    } else {
        Ok(())
    }
}

/// What is wrong with a pose whose last row is `row_off` away from that of a homogeneous
/// transform, entry by entry, and whose rotation block is `off` away from orthonormal.
pub open spec fn pose_fault(pose: [Double; 16], row_off: [Double; 4], off: Double) -> Option<PoseFault> {
    let tolerance = Double { bits: LAST_ROW_TOLERANCE };
    if !control_types::all_finite(pose@) {
        Some(PoseFault::PoseNotFinite)
    } else if tolerance.lt(row_off[0]) || tolerance.lt(row_off[1]) || tolerance.lt(row_off[2])
        || tolerance.lt(row_off[3]) {
        Some(PoseFault::LastRow)
    } else if (Double { bits: ORTHONORMAL_TOLERANCE }).lt(off) {
        Some(PoseFault::NotOrthonormal)
    } else {
        None
    }
}

/// Checks a pose whose last row is `row_off` away from that of a homogeneous transform, entry by
/// entry, and whose rotation block is `off` away from orthonormal.
pub fn checked_pose(pose: &[Double; 16], row_off: &[Double; 4], off: Double) -> (r: Result<(), PoseFault>)
    ensures
        r == match pose_fault(*pose, *row_off, off) {
            Some(fault) => Err(fault),
            None => Ok(()),
        },
{
    let tolerance = Double { bits: LAST_ROW_TOLERANCE };
    if !are_finite(pose) {
        Err(PoseFault::PoseNotFinite)
    } else if tolerance.less(row_off[0]) || tolerance.less(row_off[1]) || tolerance.less(row_off[2])
        || tolerance.less(row_off[3]) {
        Err(PoseFault::LastRow)
    } else if (Double { bits: ORTHONORMAL_TOLERANCE }).less(off) {
        Err(PoseFault::NotOrthonormal)
    } else {
        Ok(())
    }
}

/// The translation of a column-major 4x4 pose.
pub open spec fn translation(pose: [Double; 16]) -> [Double; 3] {
    [pose[12], pose[13], pose[14]]
}

/// The translation of a column-major 4x4 pose.
pub fn translation_of(pose: &[Double; 16]) -> (r: [Double; 3])
    ensures
        r == translation(*pose),
{
    [pose[12], pose[13], pose[14]]
}

/// An orientation is accepted exactly where its four components are finite and its length is no
/// further from one than 1e-3.
pub proof fn law_orientation_is_accepted(orientation: [Double; 4], off: Double)
    ensures
        orientation_fault(orientation, off) is None <==> (forall|i: int|
            0 <= i < 4 ==> (#[trigger] orientation@[i]).finite()) && !double::above(
            off,
            Double { bits: 0x3f50_624d_d2f1_a9fc },
        ),
        orientation_fault(orientation, off) == Some(PoseFault::OrientationNotFinite)
            <==> exists|i: int| 0 <= i < 4 && !(#[trigger] orientation@[i]).finite(),
{
    broadcast use double::group_order;

}

/// A pose is accepted exactly where its sixteen entries are finite, each entry of its last row is
/// where it belongs within 1e-6, and its rotation block is orthonormal within 1e-3.
/// A pose that is not finite is refused as such, then its last row is looked at.
pub proof fn law_pose_is_accepted(pose: [Double; 16], row_off: [Double; 4], off: Double)
    ensures
        ({
            let finite = forall|i: int| 0 <= i < 16 ==> (#[trigger] pose@[i]).finite();
            let row = forall|i: int|
                0 <= i < 4 ==> !double::above(
                    #[trigger] row_off@[i],
                    Double { bits: 0x3eb0_c6f7_a0b5_ed8d },
                );
            let rotation = !double::above(off, Double { bits: 0x3f50_624d_d2f1_a9fc });
            &&& pose_fault(pose, row_off, off) is None <==> finite && row && rotation
            &&& !finite ==> pose_fault(pose, row_off, off) == Some(PoseFault::PoseNotFinite)
            &&& finite && !row ==> pose_fault(pose, row_off, off) == Some(PoseFault::LastRow)
            &&& finite && row && !rotation ==> pose_fault(pose, row_off, off) == Some(
                PoseFault::NotOrthonormal,
            )
        }),
{
    broadcast use double::group_order;

    let tolerance = Double { bits: LAST_ROW_TOLERANCE };
    assert(row_off@[0] == row_off[0] && row_off@[1] == row_off[1] && row_off@[2] == row_off[2]
        && row_off@[3] == row_off[3]);
    if forall|i: int| 0 <= i < 4 ==> !double::above(#[trigger] row_off@[i], tolerance) {
        assert(!double::above(row_off@[0], tolerance));
        assert(!double::above(row_off@[1], tolerance));
        assert(!double::above(row_off@[2], tolerance));
        assert(!double::above(row_off@[3], tolerance));
    }
}

/// The translation of a column-major pose is the upper part of its fourth column.
pub proof fn law_translation_is_the_fourth_column(pose: [Double; 16], row: int)
    requires
        0 <= row < 3,
    ensures
        translation(pose)@[row] == pose@[4 * 3 + row],
{
}

} // verus!
