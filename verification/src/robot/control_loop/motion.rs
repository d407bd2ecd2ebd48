//! Turning the four kinds of motion commands into setpoints.
use crate::control_types;
use crate::control_types::{
    check_elbow, check_finite, CartesianPose, CartesianVelocities, JointPositions, JointVelocities,
    MotionGeneratorKind,
};
use crate::double::Double;
use crate::error;
use crate::error::{ErrorView, FrankaError};
use crate::robot::control_loop::{
    move_mode, ControlLoopMotion, ConvertContext, Derivatives, ElbowShaping, Shaped, Shaping,
};
use crate::robot_state;
use crate::robot_state::RobotState;
use crate::wire::codec::MotionGeneratorCommand;
use crate::wire::modes::MoveMotionGeneratorMode;
use crate::double;
use crate::wire::modes::MotionGeneratorMode;
use vstd::prelude::*;

verus! {

/// The elbow after shaping, zero when none is commanded, or what is wrong with it. What was
/// commanded must be finite, and what came of shaping must be an elbow.
pub open spec fn converted_elbow(
    has_elbow: bool,
    elbow: [Double; 2],
    shaped: Result<Double, FrankaError>,
) -> Result<[Double; 2], ErrorView> {
    if !has_elbow {
        Ok(robot_state::zeros())
    } else {
        match control_types::finite_fault(elbow@) {
            Some(e) => Err(e),
            None => match shaped {
                Err(e) => Err(e@),
                Ok(position) => match control_types::elbow_fault(seq![position, elbow[1]]) {
                    Some(e) => Err(e),
                    None => Ok([position, elbow[1]]),
                },
            },
        }
    }
}

/// The setpoint with its elbow, or what is wrong with the elbow.
pub open spec fn with_elbow(
    command: MotionGeneratorCommand,
    has_elbow: bool,
    elbow: [Double; 2],
    shaped: Result<Double, FrankaError>,
) -> (MotionGeneratorCommand, Result<(), ErrorView>) {
    match converted_elbow(has_elbow, elbow, shaped) {
        Err(e) => (command, Err(e)),
        Ok(elbow_c) => (
            MotionGeneratorCommand { valid_elbow: has_elbow, elbow_c, ..command },
            Ok(()),
        ),
    }
}

/// Checks an elbow before and after it was shaped.
fn convert_elbow(has_elbow: bool, elbow: &[Double; 2], shaped: Result<Double, FrankaError>) -> (r:
    Result<[Double; 2], FrankaError>)
    ensures
        error::seen(r) == converted_elbow(has_elbow, *elbow, shaped),
{
    if !has_elbow {
        let zero = Double { bits: 0 };
        return Ok([zero; 2]);
    }
    match check_finite(elbow) {
        Ok(()) => {},
        Err(e) => {
            return Err(e);
        },
    }
    let position = match shaped {
        Ok(position) => position,
        Err(e) => {
            return Err(e);
        },
    };
    let elbow_c = [position, elbow[1]];
    assert(elbow_c@ =~= seq![position, elbow[1]]);
    match check_elbow(&elbow_c) {
        Ok(()) => Ok(elbow_c),
        Err(e) => Err(e),
    }
}

/// Writes the elbow part of a setpoint.
fn write_elbow(command: &mut MotionGeneratorCommand, has_elbow: bool, elbow_c: &[Double; 2])
    ensures
        *final(command) == (MotionGeneratorCommand {
            valid_elbow: has_elbow,
            elbow_c: *elbow_c,
            ..*old(command)
        }),
{
    command.valid_elbow = has_elbow;
    command.elbow_c = *elbow_c;
}

impl JointPositions {
    /// Its kind of setpoint.
    pub const KIND: MotionGeneratorKind = MotionGeneratorKind::JointPosition;

    /// The motion generator that it asks for.
    pub const MOVE_MODE: MoveMotionGeneratorMode = MoveMotionGeneratorMode::JointPosition;
}

impl ControlLoopMotion for JointPositions {
    type Values = [Double; 7];

    open spec fn mode() -> MoveMotionGeneratorMode {
        MoveMotionGeneratorMode::JointPosition
    }

    open spec fn initializes() -> bool {
        true
    }

    open spec fn shaping(self, context: ConvertContext, state: RobotState) -> Shaping<[Double; 7]> {
        Shaping {
            values: self.q,
            reference: if context.own_reference() {
                self.q
            } else {
                state.q_d
            },
            derivatives: Derivatives::Joints {
                at: if context.own_reference() {
                    self.q
                } else {
                    state.q_d
                },
                velocity: state.dq_d,
                acceleration: state.ddq_d,
            },
            elbow: None,
            filter: context.filters(),
            cutoff_frequency: context.cutoff_frequency,
            limit: context.limit_rate,
            rate: context.rate,
        }
    }

    open spec fn unchanged(self) -> Shaped<[Double; 7]> {
        Shaped { values: Ok(self.q), homogeneous: true, elbow: Ok(Double { bits: 0 }) }
    }

    open spec fn written(self, shaped: Shaped<[Double; 7]>, command: MotionGeneratorCommand) -> (
        MotionGeneratorCommand,
        Result<(), ErrorView>,
    ) {
        match shaped.values {
            Err(e) => (command, Err(e@)),
            Ok(q) => match control_types::finite_fault(q@) {
                Some(e) => (command, Err(e)),
                None => (MotionGeneratorCommand { q_c: q, ..command }, Ok(())),
            },
        }
    }

    fn move_mode() -> (r: MoveMotionGeneratorMode) {
        move_mode(JointPositions::KIND)
    }

    fn plan(&self, context: &mut ConvertContext, state: &RobotState) -> (r: Shaping<[Double; 7]>) {
        let reference = if !context.initialized_filter && context.first_command_is_its_own_reference {
            self.q
        } else {
            state.q_d
        };
        context.initialized_filter = true;
        Shaping {
            values: self.q,
            reference,
            derivatives: Derivatives::Joints {
                at: reference,
                velocity: state.dq_d,
                acceleration: state.ddq_d,
            },
            elbow: None,
            filter: context.filtering(),
            cutoff_frequency: context.cutoff_frequency,
            limit: context.limit_rate,
            rate: context.rate,
        }
    }

    fn pass(&self) -> (r: Shaped<[Double; 7]>) {
        Shaped { values: Ok(self.q), homogeneous: true, elbow: Ok(Double { bits: 0 }) }
    }

    fn write(&self, shaped: Shaped<[Double; 7]>, command: &mut MotionGeneratorCommand) -> (r: Result<
        (),
        FrankaError,
    >) {
        let q = match shaped.values {
            Ok(q) => q,
            Err(e) => {
                return Err(e);
            },
        };
        match JointPositions::new(q).validate() {
            Ok(()) => {},
            Err(e) => {
                return Err(e);
            },
        }
        command.q_c = q;
        Ok(())
    }
}

impl JointVelocities {
    /// Its kind of setpoint.
    pub const KIND: MotionGeneratorKind = MotionGeneratorKind::JointVelocity;

    /// The motion generator that it asks for.
    pub const MOVE_MODE: MoveMotionGeneratorMode = MoveMotionGeneratorMode::JointVelocity;
}

impl ControlLoopMotion for JointVelocities {
    type Values = [Double; 7];

    open spec fn mode() -> MoveMotionGeneratorMode {
        MoveMotionGeneratorMode::JointVelocity
    }

    open spec fn initializes() -> bool {
        false
    }

    open spec fn shaping(self, context: ConvertContext, state: RobotState) -> Shaping<[Double; 7]> {
        Shaping {
            values: self.dq,
            reference: state.dq_d,
            derivatives: Derivatives::Joints {
                at: state.q_d,
                velocity: state.dq_d,
                acceleration: state.ddq_d,
            },
            elbow: None,
            filter: context.filters(),
            cutoff_frequency: context.cutoff_frequency,
            limit: context.limit_rate,
            rate: context.rate,
        }
    }

    open spec fn unchanged(self) -> Shaped<[Double; 7]> {
        Shaped { values: Ok(self.dq), homogeneous: true, elbow: Ok(Double { bits: 0 }) }
    }

    open spec fn written(self, shaped: Shaped<[Double; 7]>, command: MotionGeneratorCommand) -> (
        MotionGeneratorCommand,
        Result<(), ErrorView>,
    ) {
        match shaped.values {
            Err(e) => (command, Err(e@)),
            Ok(dq) => match control_types::finite_fault(dq@) {
                Some(e) => (command, Err(e)),
                None => (MotionGeneratorCommand { dq_c: dq, ..command }, Ok(())),
            },
        }
    }

    fn move_mode() -> (r: MoveMotionGeneratorMode) {
        move_mode(JointVelocities::KIND)
    }

    fn plan(&self, context: &mut ConvertContext, state: &RobotState) -> (r: Shaping<[Double; 7]>) {
        let reference = state.dq_d;
        Shaping {
            values: self.dq,
            reference,
            derivatives: Derivatives::Joints {
                at: state.q_d,
                velocity: state.dq_d,
                acceleration: state.ddq_d,
            },
            elbow: None,
            filter: context.filtering(),
            cutoff_frequency: context.cutoff_frequency,
            limit: context.limit_rate,
            rate: context.rate,
        }
    }

    fn pass(&self) -> (r: Shaped<[Double; 7]>) {
        Shaped { values: Ok(self.dq), homogeneous: true, elbow: Ok(Double { bits: 0 }) }
    }

    fn write(&self, shaped: Shaped<[Double; 7]>, command: &mut MotionGeneratorCommand) -> (r: Result<
        (),
        FrankaError,
    >) {
        let dq = match shaped.values {
            Ok(dq) => dq,
            Err(e) => {
                return Err(e);
            },
        };
        match JointVelocities::new(dq).validate() {
            Ok(()) => {},
            Err(e) => {
                return Err(e);
            },
        }
        command.dq_c = dq;
        Ok(())
    }
}

impl CartesianPose {
    /// Its kind of setpoint.
    pub const KIND: MotionGeneratorKind = MotionGeneratorKind::CartesianPosition;

    /// The motion generator that it asks for.
    pub const MOVE_MODE: MoveMotionGeneratorMode = MoveMotionGeneratorMode::CartesianPosition;
}

impl ControlLoopMotion for CartesianPose {
    type Values = [Double; 16];

    open spec fn mode() -> MoveMotionGeneratorMode {
        MoveMotionGeneratorMode::CartesianPosition
    }

    open spec fn initializes() -> bool {
        true
    }

    open spec fn shaping(self, context: ConvertContext, state: RobotState) -> Shaping<[Double; 16]> {
        Shaping {
            values: self.O_T_EE,
            reference: if context.own_reference() {
                self.O_T_EE
            } else {
                state.O_T_EE_c
            },
            derivatives: Derivatives::Cartesian {
                twist: state.O_dP_EE_c,
                twist_acceleration: state.O_ddP_EE_c,
            },
            elbow: if self.has_elbow {
                Some(
                    ElbowShaping {
                        value: self.elbow[0],
                        reference: if context.own_reference() { self.elbow[0] } else { state.elbow_c[0] },
                        velocity: state.delbow_c[0],
                        acceleration: state.ddelbow_c[0],
                    },
                )
            } else {
                None
            },
            filter: context.filters(),
            cutoff_frequency: context.cutoff_frequency,
            limit: context.limit_rate,
            rate: context.rate,
        }
    }

    open spec fn unchanged(self) -> Shaped<[Double; 16]> {
        Shaped { values: Ok(self.O_T_EE), homogeneous: self.homogeneous, elbow: Ok(self.elbow[0]) }
    }

    open spec fn written(self, shaped: Shaped<[Double; 16]>, command: MotionGeneratorCommand) -> (
        MotionGeneratorCommand,
        Result<(), ErrorView>,
    ) {
        match shaped.values {
            Err(e) => (command, Err(e@)),
            Ok(O_T_EE) => match (CartesianPose {
                O_T_EE,
                homogeneous: shaped.homogeneous,
                has_elbow: false,
                ..self
            }).fault() {
                Some(e) => (command, Err(e)),
                None => with_elbow(
                    MotionGeneratorCommand { O_T_EE_c: O_T_EE, ..command },
                    self.has_elbow,
                    self.elbow,
                    shaped.elbow,
                ),
            },
        }
    }

    fn move_mode() -> (r: MoveMotionGeneratorMode) {
        move_mode(CartesianPose::KIND)
    }

    fn plan(&self, context: &mut ConvertContext, state: &RobotState) -> (r: Shaping<[Double; 16]>) {
        let own = !context.initialized_filter && context.first_command_is_its_own_reference;
        let reference = if own {
            self.O_T_EE
        } else {
            state.O_T_EE_c
        };
        let elbow = if self.has_elbow {
            Some(
                ElbowShaping {
                    value: self.elbow[0],
                    reference: if own { self.elbow[0] } else { state.elbow_c[0] },
                    velocity: state.delbow_c[0],
                    acceleration: state.ddelbow_c[0],
                },
            )
        } else {
            None
        };
        context.initialized_filter = true;
        Shaping {
            values: self.O_T_EE,
            reference,
            derivatives: Derivatives::Cartesian {
                twist: state.O_dP_EE_c,
                twist_acceleration: state.O_ddP_EE_c,
            },
            elbow,
            filter: context.filtering(),
            cutoff_frequency: context.cutoff_frequency,
            limit: context.limit_rate,
            rate: context.rate,
        }
    }

    fn pass(&self) -> (r: Shaped<[Double; 16]>) {
        Shaped { values: Ok(self.O_T_EE), homogeneous: self.homogeneous, elbow: Ok(self.elbow[0]) }
    }

    fn write(&self, shaped: Shaped<[Double; 16]>, command: &mut MotionGeneratorCommand) -> (r:
        Result<(), FrankaError>) {
        let O_T_EE = match shaped.values {
            Ok(O_T_EE) => O_T_EE,
            Err(e) => {
                return Err(e);
            },
        };
        match CartesianPose::new(O_T_EE, shaped.homogeneous).validate() {
            Ok(()) => {},
            Err(e) => {
                return Err(e);
            },
        }
        command.O_T_EE_c = O_T_EE;
        match convert_elbow(self.has_elbow, &self.elbow, shaped.elbow) {
            Ok(elbow_c) => {
                write_elbow(command, self.has_elbow, &elbow_c);
                Ok(())
            },
            Err(e) => Err(e),
        }
    }
}

impl CartesianVelocities {
    /// Its kind of setpoint.
    pub const KIND: MotionGeneratorKind = MotionGeneratorKind::CartesianVelocity;

    /// The motion generator that it asks for.
    pub const MOVE_MODE: MoveMotionGeneratorMode = MoveMotionGeneratorMode::CartesianVelocity;
}

impl ControlLoopMotion for CartesianVelocities {
    type Values = [Double; 6];

    open spec fn mode() -> MoveMotionGeneratorMode {
        MoveMotionGeneratorMode::CartesianVelocity
    }

    open spec fn initializes() -> bool {
        false
    }

    open spec fn shaping(self, context: ConvertContext, state: RobotState) -> Shaping<[Double; 6]> {
        Shaping {
            values: self.O_dP_EE,
            reference: state.O_dP_EE_c,
            derivatives: Derivatives::Cartesian {
                twist: state.O_dP_EE_c,
                twist_acceleration: state.O_ddP_EE_c,
            },
            elbow: if self.has_elbow {
                Some(
                    ElbowShaping {
                        value: self.elbow[0],
                        reference: state.elbow_c[0],
                        velocity: state.delbow_c[0],
                        acceleration: state.ddelbow_c[0],
                    },
                )
            } else {
                None
            },
            filter: context.filters(),
            cutoff_frequency: context.cutoff_frequency,
            limit: context.limit_rate,
            rate: context.rate,
        }
    }

    open spec fn unchanged(self) -> Shaped<[Double; 6]> {
        Shaped { values: Ok(self.O_dP_EE), homogeneous: true, elbow: Ok(self.elbow[0]) }
    }

    open spec fn written(self, shaped: Shaped<[Double; 6]>, command: MotionGeneratorCommand) -> (
        MotionGeneratorCommand,
        Result<(), ErrorView>,
    ) {
        match shaped.values {
            Err(e) => (command, Err(e@)),
            Ok(O_dP_EE) => match (CartesianVelocities { O_dP_EE, has_elbow: false, ..self }).fault() {
                Some(e) => (command, Err(e)),
                None => with_elbow(
                    MotionGeneratorCommand { O_dP_EE_c: O_dP_EE, ..command },
                    self.has_elbow,
                    self.elbow,
                    shaped.elbow,
                ),
            },
        }
    }

    fn move_mode() -> (r: MoveMotionGeneratorMode) {
        move_mode(CartesianVelocities::KIND)
    }

    fn plan(&self, context: &mut ConvertContext, state: &RobotState) -> (r: Shaping<[Double; 6]>) {
        let reference = state.O_dP_EE_c;
        let elbow = if self.has_elbow {
            Some(
                ElbowShaping {
                    value: self.elbow[0],
                    reference: state.elbow_c[0],
                    velocity: state.delbow_c[0],
                    acceleration: state.ddelbow_c[0],
                },
            )
        } else {
            None
        };
        Shaping {
            values: self.O_dP_EE,
            reference,
            derivatives: Derivatives::Cartesian {
                twist: state.O_dP_EE_c,
                twist_acceleration: state.O_ddP_EE_c,
            },
            elbow,
            filter: context.filtering(),
            cutoff_frequency: context.cutoff_frequency,
            limit: context.limit_rate,
            rate: context.rate,
        }
    }

    fn pass(&self) -> (r: Shaped<[Double; 6]>) {
        Shaped { values: Ok(self.O_dP_EE), homogeneous: true, elbow: Ok(self.elbow[0]) }
    }

    fn write(&self, shaped: Shaped<[Double; 6]>, command: &mut MotionGeneratorCommand) -> (r:
        Result<(), FrankaError>) {
        let O_dP_EE = match shaped.values {
            Ok(O_dP_EE) => O_dP_EE,
            Err(e) => {
                return Err(e);
            },
        };
        match CartesianVelocities::new(O_dP_EE).validate() {
            Ok(()) => {},
            Err(e) => {
                return Err(e);
            },
        }
        command.O_dP_EE_c = O_dP_EE;
        match convert_elbow(self.has_elbow, &self.elbow, shaped.elbow) {
            Ok(elbow_c) => {
                write_elbow(command, self.has_elbow, &elbow_c);
                Ok(())
            },
            Err(e) => Err(e),
        }
    }
}

/// Under version 10 the first position or pose of a motion is its own reference, so that nothing
/// holds it back; every later one, and under version 5 the first one too, is held against the
/// robot's own state.
pub proof fn law_first_command_reference(
    positions: JointPositions,
    pose: CartesianPose,
    context: ConvertContext,
    state: RobotState,
)
    ensures
        context.first_command_is_its_own_reference && !context.initialized_filter ==> {
            &&& positions.shaping(context, state).reference == positions.q
            &&& pose.shaping(context, state).reference == pose.O_T_EE
        },
        context.initialized_filter || !context.first_command_is_its_own_reference ==> {
            &&& positions.shaping(context, state).reference == state.q_d
            &&& pose.shaping(context, state).reference == state.O_T_EE_c
        },
{
}

/// What is filtered and rate limited is what was commanded, for every kind of motion command, in
/// every context and state; the elbow is among it exactly where it is commanded.
pub proof fn law_commanded_numbers_are_shaped(
    positions: JointPositions,
    velocities: JointVelocities,
    pose: CartesianPose,
    twists: CartesianVelocities,
    context: ConvertContext,
    state: RobotState,
)
    ensures
        positions.shaping(context, state).values == positions.q,
        velocities.shaping(context, state).values == velocities.dq,
        pose.shaping(context, state).values == pose.O_T_EE,
        twists.shaping(context, state).values == twists.O_dP_EE,
        positions.shaping(context, state).elbow is None,
        velocities.shaping(context, state).elbow is None,
        pose.shaping(context, state).elbow is Some <==> pose.has_elbow,
        twists.shaping(context, state).elbow is Some <==> twists.has_elbow,
        pose.shaping(context, state).elbow matches Some(elbow) ==> elbow.value == pose.elbow[0],
        twists.shaping(context, state).elbow matches Some(elbow) ==> elbow.value == twists.elbow[0],
{
}

/// Every command is filtered exactly when the cut-off is a number below 1000 Hz and rate limited
/// exactly when the loop was asked to, with the cut-off and the limits that the loop was given.
pub proof fn law_shaping_follows_the_loop(
    positions: JointPositions,
    velocities: JointVelocities,
    pose: CartesianPose,
    twists: CartesianVelocities,
    context: ConvertContext,
    state: RobotState,
)
    ensures
        ({
            // 1000 as a binary64 number
            let thousand = Double { bits: 0x408f_4000_0000_0000 };
            let p = positions.shaping(context, state);
            let v = velocities.shaping(context, state);
            let t = pose.shaping(context, state);
            let w = twists.shaping(context, state);
            &&& p.filter == double::above(thousand, context.cutoff_frequency)
            &&& v.filter == double::above(thousand, context.cutoff_frequency)
            &&& t.filter == double::above(thousand, context.cutoff_frequency)
            &&& w.filter == double::above(thousand, context.cutoff_frequency)
            &&& p.limit == context.limit_rate && v.limit == context.limit_rate
            &&& t.limit == context.limit_rate && w.limit == context.limit_rate
            &&& p.cutoff_frequency == context.cutoff_frequency && p.rate == context.rate
            &&& v.cutoff_frequency == context.cutoff_frequency && v.rate == context.rate
            &&& t.cutoff_frequency == context.cutoff_frequency && t.rate == context.rate
            &&& w.cutoff_frequency == context.cutoff_frequency && w.rate == context.rate
        }),
{
    broadcast use double::group_order;

}

/// Derivatives are held against what the robot last commanded: joint velocities and accelerations
/// for joint motion, twists and their accelerations for Cartesian motion, and likewise for an elbow.
/// Velocities themselves are held against the robot's last commanded ones, whichever command of the
/// motion they are.
pub proof fn law_derivatives_are_the_robots(
    positions: JointPositions,
    velocities: JointVelocities,
    pose: CartesianPose,
    twists: CartesianVelocities,
    context: ConvertContext,
    state: RobotState,
)
    ensures
        velocities.shaping(context, state).reference == state.dq_d,
        twists.shaping(context, state).reference == state.O_dP_EE_c,
        positions.shaping(context, state).derivatives matches Derivatives::Joints {
            at,
            velocity,
            acceleration,
        } && at == positions.shaping(context, state).reference && velocity == state.dq_d
            && acceleration == state.ddq_d,
        velocities.shaping(context, state).derivatives matches Derivatives::Joints {
            at,
            velocity,
            acceleration,
        } && at == state.q_d && velocity == state.dq_d && acceleration == state.ddq_d,
        pose.shaping(context, state).derivatives matches Derivatives::Cartesian {
            twist,
            twist_acceleration,
        } && twist == state.O_dP_EE_c && twist_acceleration == state.O_ddP_EE_c,
        twists.shaping(context, state).derivatives matches Derivatives::Cartesian {
            twist,
            twist_acceleration,
        } && twist == state.O_dP_EE_c && twist_acceleration == state.O_ddP_EE_c,
        pose.shaping(context, state).elbow matches Some(elbow) ==> {
            &&& elbow.velocity == state.delbow_c[0]
            &&& elbow.acceleration == state.ddelbow_c[0]
            &&& elbow.reference == pose.elbow[0] || elbow.reference == state.elbow_c[0]
            &&& context.initialized_filter ==> elbow.reference == state.elbow_c[0]
            &&& !context.first_command_is_its_own_reference ==> elbow.reference == state.elbow_c[0]
            &&& context.first_command_is_its_own_reference && !context.initialized_filter
                ==> elbow.reference == pose.elbow[0]
        },
        twists.shaping(context, state).elbow matches Some(elbow) ==> {
            &&& elbow.velocity == state.delbow_c[0]
            &&& elbow.acceleration == state.ddelbow_c[0]
            &&& elbow.reference == state.elbow_c[0]
        },
{
}

/// A command that is neither filtered nor rate limited is passed on as it was given.
pub proof fn law_unshaped_commands_pass(
    positions: JointPositions,
    velocities: JointVelocities,
    pose: CartesianPose,
    twists: CartesianVelocities,
)
    ensures
        positions.unchanged().values == Ok::<[Double; 7], FrankaError>(positions.q),
        velocities.unchanged().values == Ok::<[Double; 7], FrankaError>(velocities.dq),
        pose.unchanged().values == Ok::<[Double; 16], FrankaError>(pose.O_T_EE),
        pose.unchanged().homogeneous == pose.homogeneous,
        pose.unchanged().elbow == Ok::<Double, FrankaError>(pose.elbow[0]),
        twists.unchanged().values == Ok::<[Double; 6], FrankaError>(twists.O_dP_EE),
        twists.unchanged().elbow == Ok::<Double, FrankaError>(twists.elbow[0]),
{
}

/// The shaped joint positions are written exactly when they could be had and are all finite. They
/// are what stands in the setpoint then, and nothing else of it changes; a setpoint that is refused
/// does not change at all.
pub proof fn law_positions_are_written(
    positions: JointPositions,
    shaped: Shaped<[Double; 7]>,
    command: MotionGeneratorCommand,
)
    ensures
        ({
            let (after, r) = positions.written(shaped, command);
            &&& r is Ok <==> shaped.values is Ok && control_types::all_finite(
                shaped.values->Ok_0@,
            )
            &&& r is Ok ==> after.q_c == shaped.values->Ok_0
            &&& r is Err ==> after == command
            &&& after == MotionGeneratorCommand { q_c: after.q_c, ..command }
            &&& shaped.values matches Err(e) ==> r == Err::<(), ErrorView>(e@)
        }),
{
}

/// The shaped joint velocities likewise.
pub proof fn law_velocities_are_written(
    velocities: JointVelocities,
    shaped: Shaped<[Double; 7]>,
    command: MotionGeneratorCommand,
)
    ensures
        ({
            let (after, r) = velocities.written(shaped, command);
            &&& r is Ok <==> shaped.values is Ok && control_types::all_finite(
                shaped.values->Ok_0@,
            )
            &&& r is Ok ==> after.dq_c == shaped.values->Ok_0
            &&& r is Err ==> after == command
            &&& after == MotionGeneratorCommand { dq_c: after.dq_c, ..command }
            &&& shaped.values matches Err(e) ==> r == Err::<(), ErrorView>(e@)
        }),
{
}

/// An elbow can be written when it is not commanded, and otherwise exactly when it was commanded
/// finite, its shaped position could be had and is finite, and its sign is plus or minus one.
pub open spec fn elbow_can_be_written(
    has_elbow: bool,
    elbow: [Double; 2],
    shaped: Result<Double, FrankaError>,
) -> bool {
    has_elbow ==> {
        &&& elbow[0].finite()
        &&& elbow[1].finite()
        &&& shaped matches Ok(position) && position.finite()
        &&& elbow[1].absolute().value() == (Double { bits: 0x3ff0_0000_0000_0000 }).value()
    }
}

/// An elbow is written exactly when it can be: its shaped position with the sign that was commanded,
/// marked as commanded, or zeros that are not.
proof fn lemma_elbow_is_written(
    command: MotionGeneratorCommand,
    has_elbow: bool,
    elbow: [Double; 2],
    shaped: Result<Double, FrankaError>,
)
    ensures
        ({
            let (after, r) = with_elbow(command, has_elbow, elbow, shaped);
            &&& r is Ok <==> elbow_can_be_written(has_elbow, elbow, shaped)
            &&& r is Ok ==> after.valid_elbow == has_elbow
            &&& r is Ok && has_elbow ==> after.elbow_c[0] == shaped->Ok_0 && after.elbow_c[1]
                == elbow[1]
            &&& r is Ok && !has_elbow ==> after.elbow_c[0].bits == 0 && after.elbow_c[1].bits == 0
            &&& r is Err ==> after == command
            &&& after == MotionGeneratorCommand {
                valid_elbow: after.valid_elbow,
                elbow_c: after.elbow_c,
                ..command
            }
        }),
{
    robot_state::law_zeros::<2>();
    assert(elbow@[0] == elbow[0] && elbow@[1] == elbow[1]);
    assert(control_types::all_finite(elbow@) == (elbow[0].finite() && elbow[1].finite()));
    if let Ok(position) = shaped {
        let pair = [position, elbow[1]];
        assert(pair@ =~= seq![position, elbow[1]]);
        assert(pair[0] == position && pair[1] == elbow[1]);
        control_types::law_elbow_has_a_sign(pair);
    }
}

/// The shaped pose is written exactly when it could be had, is finite and a homogeneous
/// transformation, and its elbow can be written. Only the pose and the elbow of a setpoint change.
pub proof fn law_pose_is_written(
    pose: CartesianPose,
    shaped: Shaped<[Double; 16]>,
    command: MotionGeneratorCommand,
)
    ensures
        ({
            let (after, r) = pose.written(shaped, command);
            &&& r is Ok <==> {
                &&& shaped.values is Ok && control_types::all_finite(shaped.values->Ok_0@)
                &&& shaped.homogeneous
                &&& elbow_can_be_written(pose.has_elbow, pose.elbow, shaped.elbow)
            }
            &&& r is Ok ==> after.O_T_EE_c == shaped.values->Ok_0 && after.valid_elbow
                == pose.has_elbow
            &&& r is Ok && pose.has_elbow ==> after.elbow_c[0] == shaped.elbow->Ok_0
                && after.elbow_c[1] == pose.elbow[1]
            &&& r is Ok && !pose.has_elbow ==> after.elbow_c[0].bits == 0 && after.elbow_c[1].bits
                == 0
            &&& after == MotionGeneratorCommand {
                O_T_EE_c: after.O_T_EE_c,
                valid_elbow: after.valid_elbow,
                elbow_c: after.elbow_c,
                ..command
            }
        }),
{
    if let Ok(O_T_EE) = shaped.values {
        lemma_elbow_is_written(
            MotionGeneratorCommand { O_T_EE_c: O_T_EE, ..command },
            pose.has_elbow,
            pose.elbow,
            shaped.elbow,
        );
    }
}

/// The shaped twist likewise, which needs no transformation.
pub proof fn law_twist_is_written(
    twists: CartesianVelocities,
    shaped: Shaped<[Double; 6]>,
    command: MotionGeneratorCommand,
)
    ensures
        ({
            let (after, r) = twists.written(shaped, command);
            &&& r is Ok <==> {
                &&& shaped.values is Ok && control_types::all_finite(shaped.values->Ok_0@)
                &&& elbow_can_be_written(twists.has_elbow, twists.elbow, shaped.elbow)
            }
            &&& r is Ok ==> after.O_dP_EE_c == shaped.values->Ok_0 && after.valid_elbow
                == twists.has_elbow
            &&& r is Ok && twists.has_elbow ==> after.elbow_c[0] == shaped.elbow->Ok_0
                && after.elbow_c[1] == twists.elbow[1]
            &&& r is Ok && !twists.has_elbow ==> after.elbow_c[0].bits == 0
                && after.elbow_c[1].bits == 0
            &&& after == MotionGeneratorCommand {
                O_dP_EE_c: after.O_dP_EE_c,
                valid_elbow: after.valid_elbow,
                elbow_c: after.elbow_c,
                ..command
            }
        }),
{
    if let Ok(O_dP_EE) = shaped.values {
        lemma_elbow_is_written(
            MotionGeneratorCommand { O_dP_EE_c: O_dP_EE, ..command },
            twists.has_elbow,
            twists.elbow,
            shaped.elbow,
        );
    }
}

/// Each kind of command asks for a motion generator of its own, the one that the state reports for
/// it; positions and poses make the next command a later one of the motion, velocities do not.
pub proof fn law_kinds_of_commands()
    ensures
        JointPositions::mode().reported() == MotionGeneratorMode::JointPosition,
        JointVelocities::mode().reported() == MotionGeneratorMode::JointVelocity,
        CartesianPose::mode().reported() == MotionGeneratorMode::CartesianPosition,
        CartesianVelocities::mode().reported() == MotionGeneratorMode::CartesianVelocity,
        JointPositions::initializes() && CartesianPose::initializes(),
        !JointVelocities::initializes() && !CartesianVelocities::initializes(),
{
}

} // verus!
