//! What a control callback returns: torques or one of four kinds of motion setpoints.
use crate::double::Double;
use crate::error;
use crate::error::{ErrorView, FrankaError};
use crate::robot_state;
use crate::wire::modes::MoveMotionGeneratorMode;
use crate::double;
use vstd::prelude::*;

verus! {

/// Low-pass filtering is off at this cut-off frequency and above: 1000 Hz, as a bit pattern.
pub const MAX_CUTOFF_FREQUENCY: u64 = 0x408f_4000_0000_0000;

/// The cut-off frequency of the low-pass filter unless told otherwise: 100 Hz, as a bit pattern.
pub const DEFAULT_CUTOFF_FREQUENCY: u64 = 0x4059_0000_0000_0000;

/// The controllers that the robot brings along.
#[derive(Clone, Copy, PartialEq, Eq, Structural, Debug, Hash)]
pub enum ControllerMode {
    JointImpedance,
    CartesianImpedance,
}

/// The kinds of motion setpoints.
#[derive(Clone, Copy, PartialEq, Eq, Structural, Debug, Hash)]
pub enum MotionGeneratorKind {
    JointPosition,
    JointVelocity,
    CartesianPosition,
    CartesianVelocity,
}

/// Every number is finite.
pub open spec fn all_finite(values: Seq<Double>) -> bool {
    forall|i: int| 0 <= i < values.len() ==> #[trigger] values[i].finite()
}

/// What is wrong with an elbow: a number that is not finite, or a sign that is neither plus nor
/// minus one.
pub open spec fn elbow_fault(elbow: Seq<Double>) -> Option<ErrorView> {
    let plus = Double { bits: 0x3ff0_0000_0000_0000 };
    let minus = Double { bits: 0xbff0_0000_0000_0000 };
    if !all_finite(elbow) {
        finite_fault(elbow)
    } else if !elbow[1].same(plus) && !elbow[1].same(minus) {
        Some(
            ErrorView::InvalidArgument(
                "Invalid elbow configuration given! Only +1 or -1 are allowed for the sign of the 4th joint."@,
            ),
        )
    } else {
        None
    }
}

/// The error of a number that is not finite, where there is one.
pub open spec fn finite_fault(values: Seq<Double>) -> Option<ErrorView> {
    if all_finite(values) {
        None
    } else {
        Some(ErrorView::InvalidArgument("Commanding value is infinite or NaN."@))
    }
}

/// The first of two faults.
pub open spec fn either_fault(first: Option<ErrorView>, second: Option<ErrorView>) -> Option<
    ErrorView,
> {
    match first {
        Some(e) => Some(e),
        None => second,
    }
}

/// A check that found this fault, or none.
pub open spec fn verdict(fault: Option<ErrorView>) -> Result<(), ErrorView> {
    match fault {
        Some(e) => Err(e),
        None => Ok(()),
    }
}

/// Fails if a number is not finite.
pub fn check_finite(values: &[Double]) -> (r: Result<(), FrankaError>)
    ensures
        error::seen(r) == verdict(finite_fault(values@)),
{
    let mut i: usize = 0;
    while i < values.len()
        invariant
            i <= values@.len(),
            forall|j: int| 0 <= j < i ==> #[trigger] values@[j].finite(),
        decreases values@.len() - i,
    {
        if !values[i].is_finite() {
            assert(!values@[i as int].finite());
            return Err(
                FrankaError::InvalidArgument(
                    String::from_str("Commanding value is infinite or NaN."),
                ),
            );
        }
        i = i + 1;
    }
    Ok(())
}

/// Fails if a number of the elbow is not finite or its sign is neither plus nor minus one.
pub fn check_elbow(elbow: &[Double; 2]) -> (r: Result<(), FrankaError>)
    ensures
        error::seen(r) == verdict(elbow_fault(elbow@)),
{
    match check_finite(elbow) {
        Ok(()) => {},
        Err(e) => {
            return Err(e);
        },
    }
    let plus = Double { bits: 0x3ff0_0000_0000_0000 };
    let minus = Double { bits: 0xbff0_0000_0000_0000 };
    if !elbow[1].equals(plus) && !elbow[1].equals(minus) {
        return Err(
            FrankaError::InvalidArgument(
                String::from_str(
                    "Invalid elbow configuration given! Only +1 or -1 are allowed for the sign of the 4th joint.",
                ),
            ),
        );
    }
    Ok(())
}

/// A command that can be the last one of a motion.
pub trait Finishable: Sized {
    /// Whether this is the last command.
    spec fn finished(self) -> bool;

    /// This command as the last one.
    spec fn ended(self) -> Self;

    /// Whether this is the last command.
    fn is_finished(&self) -> (b: bool)
        ensures
            b == self.finished(),
    ;

    /// This command as the last one.
    fn set_finished(self) -> (r: Self)
        ensures
            r == self.ended(),
            r.finished(),
    ;
}

/// Marks a command as the last one of a motion.
pub fn motion_finished<T: Finishable>(command: T) -> (r: T)
    ensures
        r == command.ended(),
        r.finished(),
{
    command.set_finished()
}

/// Joint torques without gravity and friction, in Nm.
#[derive(Clone, Copy, PartialEq, Debug)]
pub struct Torques {
    /// The torques.
    pub tau_J: [Double; 7],
    /// Whether this is the last command.
    pub motion_finished: bool,
}

impl Torques {
    /// A command that is not the last one.
    pub fn new(tau_J: [Double; 7]) -> (r: Torques)
        ensures
            r == (Torques { tau_J, motion_finished: false }),
    {
        Torques { tau_J, motion_finished: false }
    }

    /// Fails if a number is not finite.
    pub fn validate(&self) -> (r: Result<(), FrankaError>)
        ensures
            error::seen(r) == verdict(finite_fault(self.tau_J@)),
    {
        check_finite(&self.tau_J)
    }
}

/// Joint positions, in rad.
#[derive(Clone, Copy, PartialEq, Debug)]
pub struct JointPositions {
    /// The positions.
    pub q: [Double; 7],
    /// Whether this is the last command.
    pub motion_finished: bool,
}

impl JointPositions {
    /// A command that is not the last one.
    pub fn new(q: [Double; 7]) -> (r: JointPositions)
        ensures
            r == (JointPositions { q, motion_finished: false }),
    {
        JointPositions { q, motion_finished: false }
    }

    /// Fails if a number is not finite.
    pub fn validate(&self) -> (r: Result<(), FrankaError>)
        ensures
            error::seen(r) == verdict(finite_fault(self.q@)),
    {
        check_finite(&self.q)
    }
}

/// Joint velocities, in rad/s.
#[derive(Clone, Copy, PartialEq, Debug)]
pub struct JointVelocities {
    /// The velocities.
    pub dq: [Double; 7],
    /// Whether this is the last command.
    pub motion_finished: bool,
}

impl JointVelocities {
    /// A command that is not the last one.
    pub fn new(dq: [Double; 7]) -> (r: JointVelocities)
        ensures
            r == (JointVelocities { dq, motion_finished: false }),
    {
        JointVelocities { dq, motion_finished: false }
    }

    /// Fails if a number is not finite.
    pub fn validate(&self) -> (r: Result<(), FrankaError>)
        ensures
            error::seen(r) == verdict(finite_fault(self.dq@)),
    {
        check_finite(&self.dq)
    }
}

/// End effector poses in base frame, column-major.
#[derive(Clone, Copy, PartialEq, Debug)]
pub struct CartesianPose {
    /// The pose.
    pub O_T_EE: [Double; 16],
    /// Whether the upper left of the pose is a rotation and its last row that of a homogeneous
    /// transformation.
    pub homogeneous: bool,
    /// Elbow: position of the third joint and sign of the fourth.
    pub elbow: [Double; 2],
    /// Whether the elbow is commanded.
    pub has_elbow: bool,
    /// Whether this is the last command.
    pub motion_finished: bool,
}

impl CartesianPose {
    /// A command without elbow that is not the last one.
    pub fn new(O_T_EE: [Double; 16], homogeneous: bool) -> (r: CartesianPose)
        ensures
            r == (CartesianPose {
                O_T_EE, homogeneous,
                elbow: robot_state::zeros(),
                has_elbow: false,
                motion_finished: false,
            }),
    {
        let zero = Double { bits: 0 };
        CartesianPose { O_T_EE, homogeneous, elbow: [zero; 2], has_elbow: false, motion_finished: false }
    }

    /// A command with elbow that is not the last one.
    pub fn with_elbow(O_T_EE: [Double; 16], homogeneous: bool, elbow: [Double; 2]) -> (r: CartesianPose)
        ensures
            r == (CartesianPose { O_T_EE, homogeneous, elbow, has_elbow: true, motion_finished: false }),
    {
        CartesianPose { O_T_EE, homogeneous, elbow, has_elbow: true, motion_finished: false }
    }

    /// What is wrong with the command without its elbow.
    pub open spec fn body_fault(self) -> Option<ErrorView> {
        either_fault(
            finite_fault(self.O_T_EE@),
            if self.homogeneous {
                None
            } else {
                Some(
                    ErrorView::InvalidArgument(
                        "libfranka: Attempt to set invalid transformation in motion generator. Has to be column major!"@,
                    ),
                )
            },
        )
    }

    /// What is wrong with the command.
    pub open spec fn fault(self) -> Option<ErrorView> {
        either_fault(
            self.body_fault(),
            if self.has_elbow {
                elbow_fault(self.elbow@)
            } else {
                None
            },
        )
    }

    /// Fails if the command cannot be sent.
    pub fn validate(&self) -> (r: Result<(), FrankaError>)
        ensures
            error::seen(r) == verdict(self.fault()),
    {
        match check_finite(&self.O_T_EE) {
            Ok(()) => {},
            Err(e) => {
                return Err(e);
            },
        }
        if !self.homogeneous {
            return Err(
                FrankaError::InvalidArgument(
                    String::from_str(
                        "libfranka: Attempt to set invalid transformation in motion generator. Has to be column major!",
                    ),
                ),
            );
        }
        if self.has_elbow {
            return check_elbow(&self.elbow);
        }
        Ok(())
    }
}

/// End effector twists in base frame, in m/s and rad/s.
#[derive(Clone, Copy, PartialEq, Debug)]
pub struct CartesianVelocities {
    /// The twist.
    pub O_dP_EE: [Double; 6],
    /// Elbow: position of the third joint and sign of the fourth.
    pub elbow: [Double; 2],
    /// Whether the elbow is commanded.
    pub has_elbow: bool,
    /// Whether this is the last command.
    pub motion_finished: bool,
}

impl CartesianVelocities {
    /// A command without elbow that is not the last one.
    pub fn new(O_dP_EE: [Double; 6]) -> (r: CartesianVelocities)
        ensures
            r == (CartesianVelocities {
                O_dP_EE,
                elbow: robot_state::zeros(),
                has_elbow: false,
                motion_finished: false,
            }),
    {
        let zero = Double { bits: 0 };
        CartesianVelocities { O_dP_EE, elbow: [zero; 2], has_elbow: false, motion_finished: false }
    }

    /// A command with elbow that is not the last one.
    pub fn with_elbow(O_dP_EE: [Double; 6], elbow: [Double; 2]) -> (r: CartesianVelocities)
        ensures
            r == (CartesianVelocities { O_dP_EE, elbow, has_elbow: true, motion_finished: false }),
    {
        CartesianVelocities { O_dP_EE, elbow, has_elbow: true, motion_finished: false }
    }

    /// What is wrong with the command without its elbow.
    pub open spec fn body_fault(self) -> Option<ErrorView> {
        finite_fault(self.O_dP_EE@)
    }

    /// What is wrong with the command.
    pub open spec fn fault(self) -> Option<ErrorView> {
        either_fault(
            self.body_fault(),
            if self.has_elbow {
                elbow_fault(self.elbow@)
            } else {
                None
            },
        )
    }

    /// Fails if the command cannot be sent.
    pub fn validate(&self) -> (r: Result<(), FrankaError>)
        ensures
            error::seen(r) == verdict(self.fault()),
    {
        match check_finite(&self.O_dP_EE) {
            Ok(()) => {},
            Err(e) => {
                return Err(e);
            },
        }
        if self.has_elbow {
            return check_elbow(&self.elbow);
        }
        Ok(())
    }
}

impl Finishable for Torques {
    open spec fn finished(self) -> bool {
        self.motion_finished
    }

    open spec fn ended(self) -> Torques {
        Torques { motion_finished: true, ..self }
    }

    fn is_finished(&self) -> (b: bool) {
        self.motion_finished
    }

    fn set_finished(self) -> (r: Torques) {
        Torques { motion_finished: true, ..self }
    }
}

impl Finishable for JointPositions {
    open spec fn finished(self) -> bool {
        self.motion_finished
    }

    open spec fn ended(self) -> JointPositions {
        JointPositions { motion_finished: true, ..self }
    }

    fn is_finished(&self) -> (b: bool) {
        self.motion_finished
    }

    fn set_finished(self) -> (r: JointPositions) {
        JointPositions { motion_finished: true, ..self }
    }
}

impl Finishable for JointVelocities {
    open spec fn finished(self) -> bool {
        self.motion_finished
    }

    open spec fn ended(self) -> JointVelocities {
        JointVelocities { motion_finished: true, ..self }
    }

    fn is_finished(&self) -> (b: bool) {
        self.motion_finished
    }

    fn set_finished(self) -> (r: JointVelocities) {
        JointVelocities { motion_finished: true, ..self }
    }
}

impl Finishable for CartesianPose {
    open spec fn finished(self) -> bool {
        self.motion_finished
    }

    open spec fn ended(self) -> CartesianPose {
        CartesianPose { motion_finished: true, ..self }
    }

    fn is_finished(&self) -> (b: bool) {
        self.motion_finished
    }

    fn set_finished(self) -> (r: CartesianPose) {
        CartesianPose { motion_finished: true, ..self }
    }
}

impl Finishable for CartesianVelocities {
    open spec fn finished(self) -> bool {
        self.motion_finished
    }

    open spec fn ended(self) -> CartesianVelocities {
        CartesianVelocities { motion_finished: true, ..self }
    }

    fn is_finished(&self) -> (b: bool) {
        self.motion_finished
    }

    fn set_finished(self) -> (r: CartesianVelocities) {
        CartesianVelocities { motion_finished: true, ..self }
    }
}

/// Numbers can be sent exactly when every one of them is finite; otherwise the argument is at
/// fault.
pub proof fn law_finite_numbers_can_be_sent(values: Seq<Double>)
    ensures
        finite_fault(values) is None <==> (forall|i: int|
            0 <= i < values.len() ==> !(#[trigger] values[i]).nan() && values[i].magnitude()
                != 0x7ff0_0000_0000_0000),
        finite_fault(values) matches Some(e) ==> e is InvalidArgument,
{
    if exists|i: int| 0 <= i < values.len() && !(#[trigger] values[i]).finite() {
        let i = choose|i: int| 0 <= i < values.len() && !(#[trigger] values[i]).finite();
        assert(values[i].nan() || values[i].magnitude() == 0x7ff0_0000_0000_0000);
    }
}

/// An elbow can be sent exactly when its position is finite and the sign of its fourth joint is one
/// of the two numbers of distance one from zero; otherwise the argument is at fault.
pub proof fn law_elbow_has_a_sign(elbow: [Double; 2])
    ensures
        elbow_fault(elbow@) is None <==> {
            &&& elbow[0].finite()
            &&& elbow[1].finite()
            &&& elbow[1].absolute().value() == (Double { bits: 0x3ff0_0000_0000_0000 }).value()
        },
        elbow_fault(elbow@) matches Some(e) ==> e is InvalidArgument,
{
    broadcast use double::group_order;

    let plus = Double { bits: 0x3ff0_0000_0000_0000 };
    let minus = Double { bits: 0xbff0_0000_0000_0000 };
    double::law_signs(elbow[1]);
    double::law_signs(plus);
    assert(plus.opposite() == minus);
    assert(!plus.nan() && !minus.nan());
    double::law_order_is_total(Double { bits: 0 }, plus);
    assert((Double { bits: 0 }).lt(plus));
    assert((Double { bits: 0 }).value() == 0);
    assert(plus.value() > 0);
    assert(elbow@[0] == elbow[0] && elbow@[1] == elbow[1]);
    if elbow[0].finite() && elbow[1].finite() {
        assert(all_finite(elbow@));
    }
}

/// A pose can be sent exactly when all of its numbers are finite, they are a homogeneous
/// transformation, and an elbow that is commanded can be sent. A twist needs no transformation.
pub proof fn law_commands_that_can_be_sent(pose: CartesianPose, twists: CartesianVelocities)
    ensures
        pose.fault() is None <==> {
            &&& forall|i: int| 0 <= i < 16 ==> (#[trigger] pose.O_T_EE[i]).finite()
            &&& pose.homogeneous
            &&& pose.has_elbow ==> elbow_fault(pose.elbow@) is None
        },
        twists.fault() is None <==> {
            &&& forall|i: int| 0 <= i < 6 ==> (#[trigger] twists.O_dP_EE[i]).finite()
            &&& twists.has_elbow ==> elbow_fault(twists.elbow@) is None
        },
        pose.fault() matches Some(e) ==> e is InvalidArgument,
        twists.fault() matches Some(e) ==> e is InvalidArgument,
{
    assert(all_finite(pose.O_T_EE@) == forall|i: int|
        0 <= i < 16 ==> (#[trigger] pose.O_T_EE[i]).finite()) by {
        assert(forall|i: int| 0 <= i < 16 ==> #[trigger] pose.O_T_EE@[i] == pose.O_T_EE[i]);
    }
    assert(all_finite(twists.O_dP_EE@) == forall|i: int|
        0 <= i < 6 ==> (#[trigger] twists.O_dP_EE[i]).finite()) by {
        assert(forall|i: int| 0 <= i < 6 ==> #[trigger] twists.O_dP_EE@[i] == twists.O_dP_EE[i]);
    }
}

/// Marking a command as the last one makes it the last one and leaves what it commands alone.
pub proof fn law_last_command_commands_the_same(
    torques: Torques,
    positions: JointPositions,
    velocities: JointVelocities,
    pose: CartesianPose,
    twists: CartesianVelocities,
)
    ensures
        torques.ended().finished() && torques.ended().tau_J == torques.tau_J,
        positions.ended().finished() && positions.ended().q == positions.q,
        velocities.ended().finished() && velocities.ended().dq == velocities.dq,
        pose.ended().finished() && pose.ended() == (CartesianPose {
            motion_finished: pose.ended().motion_finished,
            ..pose
        }),
        twists.ended().finished() && twists.ended() == (CartesianVelocities {
            motion_finished: twists.ended().motion_finished,
            ..twists
        }),
        torques.finished() ==> torques.ended() == torques,
        positions.finished() ==> positions.ended() == positions,
        velocities.finished() ==> velocities.ended() == velocities,
        pose.finished() ==> pose.ended() == pose,
        twists.finished() ==> twists.ended() == twists,
{
}

} // verus!
