//! Converting commands, the limits of both versions, and the exception of a motion.
use franka::control_types::{
    CartesianPose, CartesianVelocities, JointPositions, JointVelocities, Torques,
    DEFAULT_CUTOFF_FREQUENCY, MAX_CUTOFF_FREQUENCY,
};
use franka::double::Double;
use franka::duration::Duration;
use franka::error::{FrankaError, MoveStatus};
use franka::errors::{Errors, ERROR_COUNT};
use franka::rate_limiting::fer;
use franka::robot::control_loop::torque::{convert_torques, plan_torques};
use franka::robot::control_loop::{
    rate_limits, seven, ControlLoopMotion, ConvertContext, Derivatives, Shaped,
};
use franka::robot::logger::RobotStateLogger;
use franka::robot::robot_impl::exception::{create_control_exception, success_rate_of};
use franka::robot::robot_impl::DEFAULT_DEVIATION;
use franka::robot_state::{Record, RobotCommandLog, RobotState};
use franka::wire::codec::{ControllerCommand, FciVersion, MotionGeneratorCommand};
use franka::wire::modes::MoveMotionGeneratorMode;

const IDENTITY: [f64; 16] = [
    1., 0., 0., 0., 0., 1., 0., 0., 0., 0., 1., 0., 0., 0., 0., 1.,
];

fn d(value: f64) -> Double {
    Double { bits: value.to_bits() }
}

fn ds<const N: usize>(values: [f64; N]) -> [Double; N] {
    values.map(d)
}

fn fs<const N: usize>(values: [Double; N]) -> [f64; N] {
    values.map(|v| f64::from_bits(v.bits))
}

fn valid_state() -> RobotState {
    RobotState {
        O_T_EE: ds(IDENTITY),
        O_T_EE_d: ds(IDENTITY),
        F_T_EE: ds(IDENTITY),
        EE_T_K: ds(IDENTITY),
        O_T_EE_c: ds(IDENTITY),
        ..RobotState::default()
    }
}

fn context(limit_rate: bool, filter: bool) -> ConvertContext {
    context_for(FciVersion::V10, limit_rate, filter)
}

fn context_for(version: FciVersion, limit_rate: bool, filter: bool) -> ConvertContext {
    ConvertContext {
        rate: rate_limits(version),
        first_command_is_its_own_reference: version == FciVersion::V10,
        limit_rate,
        cutoff_frequency: Double {
            bits: if filter { DEFAULT_CUTOFF_FREQUENCY } else { MAX_CUTOFF_FREQUENCY },
        },
        initialized_filter: false,
    }
}

/// Converts a command; one that would be shaped passes unchanged.
fn convert<M: ControlLoopMotion>(
    motion: &M,
    context: &mut ConvertContext,
    command: &mut MotionGeneratorCommand,
) -> Result<(), FrankaError> {
    let _ = motion.plan(context, &valid_state());
    motion.write(motion.pass(), command)
}

fn invalid_argument(result: Result<(), FrankaError>) -> String {
    match result {
        Err(FrankaError::InvalidArgument(message)) => message,
        other => panic!("expected InvalidArgument, got {other:?}"),
    }
}

#[test]
fn the_first_setpoint_is_limited_against_q_d_on_v5_but_not_on_v10() {
    let state = valid_state();
    let jump = JointPositions::new(ds([1.0; 7]));

    let mut v10 = context_for(FciVersion::V10, true, false);
    assert_eq!(fs(jump.plan(&mut v10, &state).reference), [1.0; 7]);
    // The second command is held against the state.
    assert_eq!(fs(jump.plan(&mut v10, &state).reference), [0.0; 7]);

    let mut v5 = context_for(FciVersion::V5, true, false);
    for _ in 0..2 {
        let shaping = jump.plan(&mut v5, &state);
        assert_eq!(fs(shaping.reference), [0.0; 7]);
        assert!(shaping.limit);
    }

    let pose = CartesianPose::with_elbow(ds([2.0; 16]), true, ds([0.5, -1.0]));
    let mut v10 = context_for(FciVersion::V10, true, false);
    let first = pose.plan(&mut v10, &state);
    assert_eq!(fs(first.reference), [2.0; 16]);
    assert_eq!(first.elbow.unwrap().reference, d(0.5));
    let second = pose.plan(&mut v10, &state);
    assert_eq!(fs(second.reference), IDENTITY);
    assert_eq!(second.elbow.unwrap().reference, d(0.0));
}

#[test]
fn joint_positions_pass_through_unfiltered() {
    let mut command = MotionGeneratorCommand::default();
    let motion = JointPositions::new(ds([0., 1., 2., 3., 4., 5., 6.]));
    let shaping = motion.plan(&mut context(false, false), &valid_state());
    assert!(!shaping.filter && !shaping.limit);
    convert(&motion, &mut context(false, false), &mut command).unwrap();
    assert_eq!(command.q_c, motion.q);
}

#[test]
fn joint_positions_use_the_command_as_the_first_filter_reference() {
    let state = valid_state();
    let motion = JointPositions::new(ds([0.1; 7]));
    let mut ctx = context(false, true);
    let first = motion.plan(&mut ctx, &state);
    assert!(first.filter);
    assert_eq!(first.reference, motion.q);
    assert!(ctx.initialized_filter);
    // `q_d` is zero, so the second cycle pulls the command towards zero.
    assert_eq!(fs(motion.plan(&mut ctx, &state).reference), [0.0; 7]);
}

#[test]
fn joint_velocities_are_limited_below_the_commanded_value() {
    let state = valid_state();
    let motion = JointVelocities::new(ds([0., 1., 2., 3., 4., 5., 6.]));
    let mut limited = context(true, false);
    let shaping = motion.plan(&mut limited, &state);
    assert!(shaping.limit);
    assert_eq!(shaping.values, motion.dq);
    assert_eq!(fs(shaping.reference), [0.0; 7]);
    assert!(!limited.initialized_filter, "velocities have no first command");
    // What the limiter gave reaches the wire.
    let mut command = MotionGeneratorCommand::default();
    let shaped = Shaped { values: Ok(ds([0.001; 7])), homogeneous: true, elbow: Ok(d(0.0)) };
    motion.write(shaped, &mut command).unwrap();
    assert_eq!(fs(command.dq_c), [0.001; 7]);
    // Unlimited and unfiltered it is passed through verbatim.
    let mut command = MotionGeneratorCommand::default();
    convert(&motion, &mut context(false, false), &mut command).unwrap();
    assert_eq!(command.dq_c, motion.dq);
}

#[test]
fn invalid_motions_are_rejected() {
    for invalid in [f64::NAN, f64::INFINITY] {
        let mut command = MotionGeneratorCommand::default();
        assert_eq!(
            invalid_argument(convert(
                &JointPositions::new(ds([0., 1., invalid, 3., 4., 5., 6.])),
                &mut context(false, false),
                &mut command
            )),
            "Commanding value is infinite or NaN."
        );
        assert_eq!(
            invalid_argument(convert(
                &JointVelocities::new(ds([0., 1., invalid, 3., 4., 5., 6.])),
                &mut context(false, false),
                &mut command
            )),
            "Commanding value is infinite or NaN."
        );
        assert_eq!(
            invalid_argument(convert(
                &CartesianVelocities::new(ds([0., 1., invalid, 3., 4., 5.])),
                &mut context(false, false),
                &mut command
            )),
            "Commanding value is infinite or NaN."
        );
    }
}

#[test]
fn invalid_transformation_matrix_is_rejected() {
    let mut command = MotionGeneratorCommand::default();
    let result = convert(
        &CartesianPose::new(ds([0.0; 16]), false),
        &mut context(false, false),
        &mut command,
    );
    assert_eq!(
        invalid_argument(result),
        "libfranka: Attempt to set invalid transformation in motion generator. Has to be \
         column major!"
    );
}

#[test]
fn invalid_elbow_is_rejected() {
    let mut command = MotionGeneratorCommand::default();
    for limit_rate in [false, true] {
        let result = convert(
            &CartesianPose::with_elbow(ds(IDENTITY), true, ds([0.0, 0.5])),
            &mut context(limit_rate, false),
            &mut command,
        );
        assert_eq!(
            invalid_argument(result),
            "Invalid elbow configuration given! Only +1 or -1 are allowed for the sign of \
             the 4th joint."
        );
        let result = convert(
            &CartesianVelocities::with_elbow(ds([0.0; 6]), ds([f64::NAN, 1.0])),
            &mut context(limit_rate, false),
            &mut command,
        );
        assert_eq!(invalid_argument(result), "Commanding value is infinite or NaN.");
    }
}

#[test]
fn elbow_is_only_written_when_present() {
    let mut command = MotionGeneratorCommand::default();
    convert(
        &CartesianPose::new(ds(IDENTITY), true),
        &mut context(false, false),
        &mut command,
    )
    .unwrap();
    assert!(!command.valid_elbow);
    assert_eq!(fs(command.elbow_c), [0.0, 0.0]);

    convert(
        &CartesianPose::with_elbow(ds(IDENTITY), true, ds([0.25, -1.0])),
        &mut context(false, false),
        &mut command,
    )
    .unwrap();
    assert!(command.valid_elbow);
    assert_eq!(fs(command.elbow_c), [0.25, -1.0]);
}

#[test]
fn move_modes_match_the_motion_generator_traits() {
    assert_eq!(JointPositions::MOVE_MODE, MoveMotionGeneratorMode::JointPosition);
    assert_eq!(JointVelocities::MOVE_MODE, MoveMotionGeneratorMode::JointVelocity);
    assert_eq!(CartesianPose::MOVE_MODE, MoveMotionGeneratorMode::CartesianPosition);
    assert_eq!(CartesianVelocities::MOVE_MODE, MoveMotionGeneratorMode::CartesianVelocity);
    assert_eq!(JointPositions::move_mode(), JointPositions::MOVE_MODE);
    assert_eq!(JointVelocities::move_mode(), JointVelocities::MOVE_MODE);
    assert_eq!(CartesianPose::move_mode(), CartesianPose::MOVE_MODE);
    assert_eq!(CartesianVelocities::move_mode(), CartesianVelocities::MOVE_MODE);
}

#[test]
fn the_v5_envelope_is_the_fer_one_and_skips_the_f32_torque_margin() {
    let v5_rate = rate_limits(FciVersion::V5);
    let v10_rate = rate_limits(FciVersion::V10);
    assert!(!v5_rate.torque_f32_margin);
    assert!(v10_rate.torque_f32_margin);

    assert_eq!(v5_rate.max_joint_acceleration, seven(fer::MAX_JOINT_ACCELERATION));
    assert_eq!(v5_rate.max_joint_jerk, seven(fer::MAX_JOINT_JERK));
    assert_eq!(v5_rate.max_elbow_velocity.bits, fer::MAX_ELBOW_VELOCITY);
    assert_eq!(
        f64::from_bits(v5_rate.min_elbow_velocity.bits),
        -f64::from_bits(fer::MAX_ELBOW_VELOCITY)
    );
    assert_eq!(v5_rate.max_translational_velocity.bits, fer::MAX_TRANSLATIONAL_VELOCITY);
    assert_eq!(v5_rate.max_rotational_velocity.bits, fer::MAX_ROTATIONAL_VELOCITY);
    assert_eq!(v5_rate.max_torque_rate, seven(fer::MAX_TORQUE_RATE));

    // The two envelopes really differ: the FR3's joint 1 jerk budget is not the FER's.
    assert_ne!(v5_rate.max_joint_jerk[0], v10_rate.max_joint_jerk[0]);
}

#[test]
fn torques_are_passed_through_without_limiting_or_filtering() {
    let mut command = ControllerCommand::default();
    let torques = Torques::new(ds([0., 1., 2., 3., 4., 5., 6.]));
    let shaping = plan_torques(&torques, &context(false, false), &valid_state());
    assert!(!shaping.filter && !shaping.limit);
    convert_torques(Ok(shaping.values), &mut command).unwrap();
    assert_eq!(command.tau_J_d, torques.tau_J);
}

#[test]
fn torques_are_filtered_towards_the_last_command() {
    let torques = Torques::new(ds([0., 1., 2., 3., 4., 5., 6.]));
    let state = RobotState { tau_J_d: ds([0.5; 7]), ..valid_state() };
    let shaping = plan_torques(&torques, &context(false, true), &state);
    assert!(shaping.filter && !shaping.limit);
    assert_eq!(fs(shaping.reference), [0.5; 7]);
}

#[test]
fn invalid_torques_are_rejected() {
    let mut command = ControllerCommand::default();
    for invalid in [f64::NAN, f64::INFINITY] {
        let result = convert_torques(Ok(ds([0., invalid, 2., 3., 4., 5., 6.])), &mut command);
        assert_eq!(invalid_argument(result), "Commanding value is infinite or NaN.");
    }
    let result = convert_torques(
        Err(FrankaError::InvalidArgument("the limiter said no".to_string())),
        &mut command,
    );
    assert_eq!(invalid_argument(result), "the limiter said no");
}

#[test]
fn default_deviation_matches_libfranka() {
    assert_eq!(f64::from_bits(DEFAULT_DEVIATION.0), 10.0);
    assert_eq!(f64::from_bits(DEFAULT_DEVIATION.1), 3.12);
    assert_eq!(f64::from_bits(DEFAULT_DEVIATION.2), 2.0 * std::f64::consts::PI);
}

#[test]
fn control_exception_text_without_reflex_is_the_bare_message() {
    let exception = create_control_exception(
        "libfranka: Move command preempted!",
        MoveStatus::Preempted,
        Errors::default(),
        Vec::new(),
        "",
    );
    assert_eq!(exception.message, "libfranka: Move command preempted!");
    assert_eq!(exception.move_status, Some(MoveStatus::Preempted));
}

#[test]
fn control_exception_text_with_reflex_lists_errors_and_success_rate() {
    let mut flags = [false; ERROR_COUNT];
    flags[3] = true;
    let errors = Errors(flags);

    let first = RobotState {
        time: Duration::from_millis(10),
        control_command_success_rate: d(0.5),
        ..RobotState::default()
    };
    let second = RobotState { time: Duration::from_millis(13), ..RobotState::default() };

    let log = vec![Record { state: first, command: None }, Record { state: second, command: None }];
    let estimate = success_rate_of(&log).expect("two lines");
    assert_eq!(estimate.lost_packets, 2);
    let rate = f64::from_bits(estimate.rate.bits) * (1.0 - estimate.lost_packets as f64 / 100.0);
    let exception = create_control_exception(
        "libfranka: Move command aborted: motion aborted by reflex!",
        MoveStatus::ReflexAborted,
        errors,
        log,
        &format!("{rate}"),
    );
    assert_eq!(
        exception.message,
        "libfranka: Move command aborted: motion aborted by reflex! \
         [\"joint_velocity_violation\"]\ncontrol_command_success_rate: 0.49 packets lost in a \
         row in the last sample: 2"
    );
    assert!(exception.last_motion_errors.get("joint_velocity_violation"));
    assert!(!exception.last_motion_errors.get("joint_reflex"));
    assert!(!exception.last_motion_errors.get("no_such_error"));
}

#[test]
fn errors_are_listed_in_order() {
    let mut flags = [false; ERROR_COUNT];
    assert_eq!(Errors(flags).text(), "[]");
    flags[6] = true;
    flags[40] = true;
    assert_eq!(Errors(flags).text(), "[\"joint_reflex\", \"base_acceleration_invalid_reading\"]");
}

fn state(time_ms: u64) -> RobotState {
    RobotState { time: Duration::from_millis(time_ms), ..RobotState::default() }
}

#[test]
fn zero_size_logger_records_nothing() {
    let mut logger = RobotStateLogger::new(0);
    logger.log(&state(1), &RobotCommandLog::default());
    assert!(logger.flush().is_empty());
}

#[test]
fn ring_buffer_keeps_the_newest_entries_in_order() {
    let mut logger = RobotStateLogger::new(3);
    for t in 1..=5 {
        logger.log(&state(t), &RobotCommandLog::default());
    }
    let log = logger.flush();
    let times: Vec<u64> = log.iter().map(|r| r.state.time.as_millis()).collect();
    assert_eq!(times, vec![3, 4, 5]);
    // Flushing empties the buffer.
    assert!(logger.flush().is_empty());
}

#[test]
fn partially_filled_buffer_is_ordered() {
    let mut logger = RobotStateLogger::new(4);
    for t in 1..=2 {
        logger.log(&state(t), &RobotCommandLog::default());
    }
    let times: Vec<u64> = logger.flush().iter().map(|r| r.state.time.as_millis()).collect();
    assert_eq!(times, vec![1, 2]);
}

#[test]
fn doubles_order_like_numbers() {
    let numbers = [
        f64::NEG_INFINITY,
        -1.5e300,
        -1.0,
        -5e-324,
        -0.0,
        0.0,
        5e-324,
        2.2250738585072014e-308,
        1.0,
        1.0000000000000002,
        f64::MAX,
        f64::INFINITY,
        f64::NAN,
    ];
    for a in numbers {
        for b in numbers {
            assert_eq!(d(a).less(d(b)), a < b, "{a} < {b}");
            assert_eq!(d(a).less_or_equal(d(b)), a <= b, "{a} <= {b}");
            assert_eq!(d(a).equals(d(b)), a == b, "{a} == {b}");
        }
        assert_eq!(d(a).is_finite(), a.is_finite());
        assert_eq!(d(a).is_nan(), a.is_nan());
        assert_eq!(d(a).abs().bits, a.abs().to_bits());
    }
}

#[test]
fn the_limiter_is_given_the_state_of_the_robot() {
    let mut state = valid_state();
    state.q_d = ds([0.1; 7]);
    state.dq_d = ds([0.2; 7]);
    state.ddq_d = ds([0.3; 7]);
    state.O_dP_EE_c = ds([0.4; 6]);
    state.O_ddP_EE_c = ds([0.5; 6]);
    state.delbow_c = ds([0.6, 0.0]);
    state.ddelbow_c = ds([0.7, 0.0]);
    let joints = |at: f64| Derivatives::Joints {
        at: ds([at; 7]),
        velocity: ds([0.2; 7]),
        acceleration: ds([0.3; 7]),
    };
    let cartesian = Derivatives::Cartesian {
        twist: ds([0.4; 6]),
        twist_acceleration: ds([0.5; 6]),
    };

    let positions = JointPositions::new(ds([1.0; 7]));
    let mut v10 = context_for(FciVersion::V10, true, false);
    // The velocity limits are taken where the reference is.
    assert_eq!(positions.plan(&mut v10, &state).derivatives, joints(1.0));
    assert_eq!(positions.plan(&mut v10, &state).derivatives, joints(0.1));
    let velocities = JointVelocities::new(ds([1.0; 7]));
    assert_eq!(velocities.plan(&mut v10, &state).derivatives, joints(0.1));

    let pose = CartesianPose::with_elbow(ds([2.0; 16]), true, ds([0.5, -1.0]));
    let shaping = pose.plan(&mut v10, &state);
    assert_eq!(shaping.derivatives, cartesian);
    assert_eq!(shaping.elbow.unwrap().velocity, d(0.6));
    assert_eq!(shaping.elbow.unwrap().acceleration, d(0.7));
    let twist = CartesianVelocities::new(ds([1.0; 6]));
    assert_eq!(twist.plan(&mut v10, &state).derivatives, cartesian);

    for version in [FciVersion::V5, FciVersion::V10] {
        let context = context_for(version, true, true);
        let torques = plan_torques(&Torques::new(ds([1.0; 7])), &context, &state);
        assert_eq!(torques.derivatives, Derivatives::Torques);
        assert_eq!(torques.cutoff_frequency, context.cutoff_frequency);
        assert_eq!(torques.rate, rate_limits(version));
        // Only version 10 reports torques in single precision.
        assert_eq!(torques.rate.torque_f32_margin, version == FciVersion::V10);
    }
}
