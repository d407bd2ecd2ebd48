//! Target control: the mailbox, the runner, the options, and the decisions of the streams and of
//! the inverse kinematics.
use franka::control_types::{CartesianPose, ControllerMode};
use franka::double::Double;
use franka::error::{FrankaError, MoveStatus};
use franka::otg::OtgLimits;
use franka::rate_limiting;
use franka::rate_limiting::fer;
use franka::realtime::RealtimeConfig;
use franka::robot::target_control::cartesian::{
    anchor, axis_limits, join, set_orientation, set_position, split, Echo, Placement, PoseAction, PoseEvent,
    PoseLoop,
};
use franka::robot::target_control::fault::OptionFault;
use franka::robot::target_control::ik::active_set::{
    clip, Found, Measures, Search, SolveEvent, MAX_ACTIVE_SET_PASSES,
};
use franka::robot::target_control::ik::cycle::{
    Frames, Ik, IkAction, IkCycle, IkEvent, Solution, Task,
};
use franka::robot::target_control::ik::stall::{
    pressures, Block, Push, Stall, STALL_ON, STALL_QUIET_CYCLES, WALL_FLOOR,
};
use franka::robot::target_control::ik::IkOptions;
use franka::robot::target_control::impedance::{Backend, ImpedanceGains, ImpedanceOptions, Leash};
use franka::robot::target_control::joint::{
    set_joints, JointAction, JointEvent, JointRefusal, PositionLoop,
};
use franka::robot::target_control::options::{
    JointTargetControlOptions, StartFault, TargetControlOptions,
};
use franka::robot::target_control::position::{CycleBox, Side};
use franka::robot::target_control::rotation::{checked_pose, unit_quaternion, PoseFault};
use franka::robot::target_control::runner::{
    identity, Generated, Runner, RunnerAction, RunnerEvent, Step,
};
use franka::robot::target_control::session::{
    modify_target, published_tuning, schedule, spawn_failure, start_failure, stop, tune, Refusal,
    TargetRead, ThreadEnd, ENDED_MESSAGE, NO_TUNING_MESSAGE,
};
use franka::robot::target_control::slot::{Access, Load, Publish, TargetSlot};
use franka::robot::target_control::{
    check_joint_limits, joint_limit_error, joint_limit_inset, joint_position_limits,
    max_joint_velocity, validate_common_within, Scheduling, Settle, DEVIATION_MESSAGE,
    STOP_TIMEOUT_CYCLES,
};
use franka::step::Progress;
use franka::wire::codec::FciVersion;
use nalgebra::{Rotation3, UnitQuaternion, Vector3};

fn d(value: f64) -> Double {
    Double { bits: value.to_bits() }
}

fn f(value: Double) -> f64 {
    f64::from_bits(value.bits)
}

fn ds<const N: usize>(values: [f64; N]) -> [Double; N] {
    values.map(d)
}

fn fs<const N: usize>(values: [Double; N]) -> [f64; N] {
    values.map(f)
}

// -- The mailbox ----------------------------------------------------------------------------

#[test]
fn an_unwritten_slot_reports_nothing_and_leaves_the_output_alone() {
    let slot = TargetSlot::<3>::default();
    let mut into = ds([1.0, 2.0, 3.0]);
    assert!(!slot.load(&mut into));
    assert_eq!(fs(into), [1.0, 2.0, 3.0]);
    assert_eq!(slot.sequence(), 0);
}

#[test]
fn publish_then_load_round_trips_every_bit_pattern() {
    let mut slot = TargetSlot::<4>::new(ds([0.0, -0.0, f64::MIN_POSITIVE, -1e300]));
    let mut into = ds([f64::NAN; 4]);
    assert!(slot.load(&mut into));
    assert_eq!(
        into.map(|x| x.bits),
        [0.0, -0.0, f64::MIN_POSITIVE, -1e300].map(f64::to_bits)
    );
    assert_eq!(slot.sequence(), 2);
    slot.publish(ds([1.0, 2.0, 3.0, 4.0]));
    assert!(slot.load(&mut into));
    assert_eq!(fs(into), [1.0, 2.0, 3.0, 4.0]);
    assert_eq!(slot.sequence(), 4);
}

/// A sequence of pseudo-random numbers.
struct Rng(u64);

impl Rng {
    fn next(&mut self) -> u64 {
        self.0 ^= self.0 << 13;
        self.0 ^= self.0 >> 7;
        self.0 ^= self.0 << 17;
        self.0
    }
}

#[test]
fn a_reader_never_sees_a_torn_triple_under_a_busy_writer() {
    // Every published triple is `[k, 2k, 3k]`; a torn read would break that invariant. The writer
    // and the reader take their accesses in a random order.
    const ROUNDS: u32 = 200;
    const WRITES_PER_ROUND: u32 = 1_000;
    let mut slot = TargetSlot::<3>::new(ds([0.0; 3]));
    let mut rng = Rng(0x2545_F491_4F6C_DD1D);
    let mut load = Load::<3>::new();
    let (mut loaded, mut torn) = (0, 0);
    for round in 1..=ROUNDS {
        let last = round * WRITES_PER_ROUND;
        for k in last - WRITES_PER_ROUND + 1..=last {
            let k = f64::from(k);
            let mut write = Some(Publish::new(ds([k, 2.0 * k, 3.0 * k])));
            while let Some(publish) = write {
                slot.perform(publish.action());
                write = publish.advance();
                for _ in 0..rng.next() % 9 {
                    let word = slot.perform(load.action());
                    load = match load.resume(word) {
                        Progress::Continue(next, _) => next,
                        Progress::Done(result) => {
                            match result {
                                None => torn += 1,
                                Some(target) => {
                                    let target = fs(target);
                                    assert_eq!(target[1], 2.0 * target[0], "torn read {target:?}");
                                    assert_eq!(target[2], 3.0 * target[0], "torn read {target:?}");
                                    loaded += 1;
                                }
                            }
                            Load::new()
                        }
                    };
                }
            }
        }
        // The paused writer gives every round a successful read.
        let mut target = ds([0.0; 3]);
        assert!(slot.load(&mut target));
        let last = f64::from(last);
        assert_eq!(fs(target), [last, 2.0 * last, 3.0 * last]);
    }
    assert!(loaded > 0 && torn > 0, "{loaded} loads, {torn} given up");
}

#[test]
fn a_load_gives_up_after_three_tries() {
    let mut slot = TargetSlot::<2>::new(ds([1.0, 2.0]));
    slot.perform(Access::Advance);
    let mut load = Load::<2>::new();
    let mut accesses = 0;
    let result = loop {
        accesses += 1;
        match load.resume(slot.perform(load.action())) {
            Progress::Continue(next, _) => load = next,
            Progress::Done(result) => break result,
        }
    };
    assert_eq!(result, None);
    assert_eq!(accesses, 3);
    let mut into = ds([7.0; 2]);
    assert!(!slot.load(&mut into));
    assert_eq!(fs(into), [7.0; 2]);
}

// -- The options ----------------------------------------------------------------------------

type Options = TargetControlOptions<()>;
type JointOptions = JointTargetControlOptions<()>;

fn is_invalid_argument(result: Result<(), OptionFault>, needle: &str) -> bool {
    match result {
        Err(fault) => match fault.error("the value") {
            FrankaError::InvalidArgument(message) => message.contains(needle),
            _ => false,
        },
        Ok(()) => false,
    }
}

fn limits(max_velocity: f64, max_acceleration: f64, max_jerk: f64) -> OtgLimits {
    OtgLimits {
        max_velocity: d(max_velocity),
        max_acceleration: d(max_acceleration),
        max_jerk: d(max_jerk),
    }
}

#[test]
fn default_options_are_valid_and_documented() {
    let cartesian = Options::default();
    assert!(cartesian.validate().is_ok());
    assert_eq!(f(cartesian.limits.max_velocity), 0.3);
    assert_eq!(f(cartesian.limits.max_acceleration), 0.5);
    assert_eq!(f(cartesian.limits.max_jerk), 20.0);
    assert_eq!(f(cartesian.rotation_limits.max_velocity), 0.5);
    assert_eq!(f(cartesian.rotation_limits.max_acceleration), 1.0);
    assert_eq!(f(cartesian.rotation_limits.max_jerk), 20.0);
    assert_eq!(f(cartesian.max_deviation), 0.30);
    assert_eq!(f(cartesian.max_angular_deviation), 0.5);
    assert_eq!(cartesian.settle, Settle::default());
    assert!(cartesian.limit_rate);
    assert_eq!(cartesian.realtime_priority, None);
    assert!(cartesian.observer.is_none());

    let joint = JointOptions::default();
    assert!(joint.validate().is_ok());
    assert_eq!(joint.limits, None);
    assert_eq!(f(joint.max_deviation), 1.0);
    assert!(joint.limit_rate);

    assert_eq!(f(Settle::default().tolerance), 1e-3);
    assert_eq!(Settle::default().cycles, 250);
}

#[test]
fn cartesian_options_reject_bad_fields() {
    let bad_limits = Options::default().with_limits(limits(0.0, 0.5, 20.0));
    assert!(is_invalid_argument(bad_limits.validate(), "otg: limits"));
    let bad_rotation = Options::default().with_rotation_limits(limits(0.5, f64::NAN, 20.0));
    assert!(is_invalid_argument(bad_rotation.validate(), "rotation_limits"));
    let deviation = Options::default().with_max_deviation(d(f64::NAN));
    assert!(is_invalid_argument(deviation.validate(), "max_deviation"));
    let angular = Options::default().with_max_angular_deviation(d(0.0));
    assert!(is_invalid_argument(angular.validate(), "max_angular_deviation"));
    let settle = Options::default().with_settle(Settle { tolerance: d(1e-3), cycles: 0 });
    assert!(is_invalid_argument(settle.validate(), "settle"));
    let settle = Options::default().with_settle(Settle { tolerance: d(-1.0), cycles: 10 });
    assert!(is_invalid_argument(settle.validate(), "settle"));
    for priority in [0, 100, -5] {
        let options = Options::default().with_realtime_priority(Some(priority));
        assert!(is_invalid_argument(options.validate(), "realtime_priority"));
    }
    let fine = Options::default()
        .with_realtime_priority(Some(80))
        .with_controller_mode(ControllerMode::JointImpedance)
        .with_limit_rate(false)
        .with_observer(());
    assert!(fine.validate().is_ok());
    assert!(fine.observer.is_some());
}

#[test]
fn joint_options_reject_bad_fields() {
    let mut limits = scaled_limits(FciVersion::V10, 0.2);
    limits[6].max_jerk = d(f64::INFINITY);
    let bad = JointOptions::default().with_limits(limits);
    assert!(is_invalid_argument(bad.validate(), "otg: limits"));
    let deviation = JointOptions::default().with_max_deviation(d(0.0));
    assert!(is_invalid_argument(deviation.validate(), "max_deviation"));
    let priority = JointOptions::default().with_realtime_priority(Some(200));
    assert!(is_invalid_argument(priority.validate(), "realtime_priority"));
}

/// A fraction of the version's joint limits.
fn scaled_limits(version: FciVersion, fraction: f64) -> [OtgLimits; 7] {
    JointOptions::full_limits(version).map(|l| {
        limits(
            f(l.max_velocity) * fraction,
            f(l.max_acceleration) * fraction,
            f(l.max_jerk) * fraction,
        )
    })
}

#[test]
fn scaled_joint_limits_follow_the_version() {
    let fr3 = scaled_limits(FciVersion::V10, 0.2);
    let number = |bits: u64| f64::from_bits(bits);
    assert!((f(fr3[0].max_velocity) - 0.2 * 2.62).abs() < 1e-12);
    assert!((f(fr3[4].max_velocity) - 0.2 * 5.26).abs() < 1e-12);
    assert!(
        (f(fr3[0].max_acceleration) - 0.2 * number(rate_limiting::MAX_JOINT_ACCELERATION[0])).abs()
            < 1e-12
    );
    assert!((f(fr3[0].max_jerk) - 0.2 * number(rate_limiting::MAX_JOINT_JERK[0])).abs() < 1e-12);

    let fer = scaled_limits(FciVersion::V5, 0.5);
    for (i, limits) in fer.iter().enumerate() {
        let (v, a, j) = (
            number(fer::MAX_JOINT_VELOCITY[i]),
            number(fer::MAX_JOINT_ACCELERATION[i]),
            number(fer::MAX_JOINT_JERK[i]),
        );
        assert!((f(limits.max_velocity) - 0.5 * v).abs() < 1e-12);
        assert!((f(limits.max_acceleration) - 0.5 * a).abs() < 1e-12);
        assert!((f(limits.max_jerk) - 0.5 * j).abs() < 1e-12);
    }
    for version in [FciVersion::V5, FciVersion::V10] {
        let options = JointOptions::default().with_limits(scaled_limits(version, 0.2));
        assert!(options.validate().is_ok());
    }
}

#[test]
fn the_core_is_checked_against_the_platform() {
    let settle = Settle::default();
    let check = |cpu| {
        let scheduling = Scheduling { priority: None, cpu };
        validate_common_within(d(1.0), settle, scheduling, &Backend::RobotController, 8)
    };
    assert_eq!(check(Some(7)), Ok(()));
    let fault = check(Some(8)).unwrap_err();
    match fault.error("") {
        FrankaError::InvalidArgument(message) => {
            assert_eq!(message, "target control: cpu must be below 8, got 8")
        }
        other => panic!("expected InvalidArgument, got {other:?}"),
    }
    // No platform has a core of this number, and every one has a first.
    assert!(is_invalid_argument(
        Options::default().with_cpu(Some(usize::MAX)).validate(),
        "cpu must be below"
    ));
    assert!(Options::default().with_cpu(Some(0)).validate().is_ok());
    assert!(JointOptions::default().with_cpu(Some(0)).validate().is_ok());
}

#[test]
fn every_refused_option_names_its_field() {
    let impedance = |change: &dyn Fn(ImpedanceOptions) -> ImpedanceOptions| {
        JointOptions::default()
            .with_backend(Backend::Impedance(change(ImpedanceOptions::joint())))
            .validate()
    };
    let gains = |k: f64| {
        let mut gains = ImpedanceGains::of(ImpedanceGains::DROID);
        gains.joint_damping[6] = d(k);
        gains
    };
    assert!(is_invalid_argument(impedance(&|o| o.with_gains(gains(-1.0))), "impedance gains"));
    assert!(impedance(&|o| o.with_gains(gains(0.0))).is_ok());
    let mut torques = fs(ImpedanceOptions::joint().torque_limits);
    assert_eq!(torques, [86.0, 86.0, 86.0, 86.0, 11.5, 11.5, 11.5]);
    torques[4] = 12.5;
    assert!(is_invalid_argument(
        impedance(&|o| o.with_torque_limits(ds(torques))),
        "at most the rated [87.0, 87.0, 87.0, 87.0, 12.0, 12.0, 12.0] Nm, got the value"
    ));
    assert!(is_invalid_argument(
        impedance(&|o| o.with_cutoff_frequency(d(0.0))),
        "cutoff_frequency"
    ));
    let leash = Leash { rotation: d(f64::NAN), ..Leash::default() };
    assert!(is_invalid_argument(impedance(&|o| o.with_leash(leash)), "leash"));
    let posture = Some(ds([f64::INFINITY; 7]));
    assert!(is_invalid_argument(impedance(&|o| o.with_posture(posture)), "posture must be finite"));
    for ik in [
        IkOptions { damping: d(0.0), ..IkOptions::default() },
        IkOptions { nullspace_gain: d(-1.0), ..IkOptions::default() },
        IkOptions { tolerance: d(f64::NAN), ..IkOptions::default() },
        IkOptions { rotation_weight: d(1.5), ..IkOptions::default() },
        IkOptions { rotation_weight: d(0.0), ..IkOptions::default() },
        IkOptions { iterations: 0, ..IkOptions::default() },
    ] {
        assert!(is_invalid_argument(impedance(&|o| o.with_ik(ik)), "ik needs"));
    }
    let built = ImpedanceOptions::cartesian()
        .with_velocity_feedforward(false)
        .with_project_joint_gains(true);
    assert!(!built.velocity_feedforward && built.project_joint_gains);
    assert_eq!(fs(built.gains.cartesian_damping), [50.0, 50.0, 90.0, 2.0, 2.0, 2.0]);
    match (OptionFault::RealtimePriority { priority: -5 }).error("") {
        FrankaError::InvalidArgument(message) => assert_eq!(
            message,
            "target control: realtime_priority must be within 1..=99, got -5"
        ),
        other => panic!("expected InvalidArgument, got {other:?}"),
    }
}

// -- The runner -----------------------------------------------------------------------------

const LIMITS: [f64; 3] = [0.3, 0.5, 20.0];

/// A stand-in for the generator: one profile from rest to rest under the limits, common to all
/// axes; a new target while moving makes the axes coast to it exponentially.
struct Profile<const N: usize> {
    limits: [[f64; 3]; N],
    start: [f64; N],
    target: [f64; N],
    time: f64,
    coast: Option<([f64; N], [f64; N])>,
}

const DELTA_T: f64 = 1e-3;

impl<const N: usize> Profile<N> {
    fn new(limits: [[f64; 3]; N]) -> Self {
        Profile { limits, start: [0.0; N], target: [0.0; N], time: 0.0, coast: None }
    }

    /// Peak velocity, peak acceleration and the times of a unit profile on the slowest axis.
    fn shape(&self) -> (f64, f64, f64, f64, f64) {
        let mut slowest = (0.0, 1.0, 1.0, 1.0, 1.0);
        for i in 0..N {
            let distance = (self.target[i] - self.start[i]).abs();
            if distance == 0.0 {
                continue;
            }
            let [v, a, j] = self.limits[i].map(|x| x / distance);
            let ramp = a / j;
            let peak = {
                let free = (-ramp + (ramp * ramp + 4.0 / a).sqrt()) * a / 2.0;
                free.min(v)
            };
            let (ramp, plateau) = if peak >= a * ramp {
                (ramp, peak / a - ramp)
            } else {
                let ramp = (0.5 / j).cbrt();
                (ramp, 0.0)
            };
            let peak = j * ramp * (ramp + plateau);
            let cruise = ((1.0 - peak * (2.0 * ramp + plateau)) / peak).max(0.0);
            let total = 2.0 * (2.0 * ramp + plateau) + cruise;
            if total > slowest.0 {
                slowest = (total, ramp, plateau, cruise, j);
            }
        }
        slowest
    }

    /// The unit profile at a time: position, velocity, acceleration.
    fn at(&self, time: f64) -> (f64, f64, f64) {
        let (total, ramp, plateau, cruise, j) = self.shape();
        if total == 0.0 || time >= total {
            return (if total == 0.0 { 0.0 } else { 1.0 }, 0.0, 0.0);
        }
        let phases = [
            (ramp, j),
            (plateau, 0.0),
            (ramp, -j),
            (cruise, 0.0),
            (ramp, -j),
            (plateau, 0.0),
            (ramp, j),
        ];
        let (mut p, mut v, mut a, mut left) = (0.0, 0.0, 0.0, time);
        for (duration, jerk) in phases {
            let t = left.min(duration);
            p += v * t + a * t * t / 2.0 + jerk * t * t * t / 6.0;
            v += a * t + jerk * t * t / 2.0;
            a += jerk * t;
            left -= t;
            if left <= 0.0 {
                break;
            }
        }
        (p, v, a)
    }

    fn step(&mut self, anchor: [f64; N], target: [f64; N], far: bool) -> Generated<N> {
        if target != self.target {
            let (_, v, _) = self.at(self.time);
            let moving = self.time > 0.0 && v > 0.0;
            let velocity = std::array::from_fn(|i| v * (self.target[i] - self.start[i]));
            if moving || self.coast.is_some() {
                self.coast = Some((anchor, velocity));
            }
            (self.start, self.target, self.time) = (anchor, target, 0.0);
        }
        self.time += DELTA_T;
        let mut generated = Generated {
            position: ds(anchor),
            velocity: ds([0.0; N]),
            acceleration: ds([0.0; N]),
            distance: ds([0.0; N]),
        };
        if let Some((position, velocity)) = &mut self.coast {
            for i in 0..N {
                let old = velocity[i];
                velocity[i] = 20.0 * (target[i] - position[i]);
                position[i] += velocity[i] * DELTA_T;
                generated.position[i] = d(position[i]);
                generated.velocity[i] = d(velocity[i]);
                generated.acceleration[i] = d((velocity[i] - old) * 20.0);
                generated.distance[i] = d((position[i] - target[i]).abs());
            }
            return generated;
        }
        let (p, v, a) = self.at(self.time);
        for i in 0..N {
            let way = self.target[i] - self.start[i];
            let position = if p == 1.0 { target[i] } else { self.start[i] + way * p };
            generated.position[i] = d(position);
            generated.velocity[i] = d(way * v);
            generated.acceleration[i] = d(way * a);
            let from = if far { anchor[i] } else { position };
            generated.distance[i] = d((from - target[i]).abs());
        }
        generated
    }
}

/// A runner with its mailbox and its generator; the robot's echo is handed in.
struct Rig<const N: usize> {
    runner: Runner<N, N>,
    slot: TargetSlot<N>,
    otg: Profile<N>,
    stop: bool,
    started: u32,
    /// The generator is always as far from its target as the echo is.
    far: bool,
}

impl<const N: usize> Rig<N> {
    fn new(settle: Settle, limits: [[f64; 3]; N]) -> Self {
        Rig {
            runner: Runner::new(settle),
            slot: TargetSlot::default(),
            otg: Profile::new(limits),
            stop: false,
            started: 0,
            far: false,
        }
    }

    fn cycle(&mut self, commanded: [f64; N], strayed: bool) -> Step<N, N> {
        let mut progress = self.runner.cycle(ds(commanded), ds(commanded), strayed, self.stop);
        loop {
            match progress {
                Progress::Done((runner, step)) => {
                    self.runner = runner;
                    return step;
                }
                Progress::Continue(cycle, action) => {
                    assert_eq!(cycle.action(), action);
                    let event = match action {
                        RunnerAction::Anchor { commanded } => {
                            self.slot.publish(commanded);
                            self.otg.start = fs(commanded);
                            self.otg.target = fs(commanded);
                            self.started += 1;
                            RunnerEvent::Anchored
                        }
                        RunnerAction::Load => {
                            let mut target = ds([0.0; N]);
                            let loaded = self.slot.load(&mut target);
                            RunnerEvent::Loaded(if loaded { Some(target) } else { None })
                        }
                        RunnerAction::Generate { target, commanded } => {
                            let (anchor, goal) = identity(&target, &commanded);
                            let generated = self.otg.step(fs(anchor), fs(goal), self.far);
                            RunnerEvent::Generated(generated)
                        }
                    };
                    assert!(cycle.answered_by(&event));
                    progress = cycle.resume(event);
                }
            }
        }
    }
}

#[test]
fn the_runner_anchors_on_the_first_echo_and_signals_the_start() {
    let mut rig = Rig::new(Settle::default(), [LIMITS; 3]);
    let step = rig.cycle([0.4, 0.1, 0.3], false);
    assert_eq!(fs(step.position), [0.4, 0.1, 0.3]);
    assert_eq!(fs(step.target), [0.4, 0.1, 0.3]);
    assert_eq!(fs(step.velocity), [0.0; 3]);
    assert!(!step.finished);
    assert_eq!(rig.started, 1, "the start must be signalled");
    let mut target = ds([0.0; 3]);
    assert!(rig.slot.load(&mut target));
    assert_eq!(fs(target), [0.4, 0.1, 0.3], "the slot starts at the anchor");
    rig.cycle([0.4, 0.1, 0.3], false);
    assert_eq!(rig.started, 1, "and only once");
}

#[test]
fn the_runner_follows_the_slot_settles_after_a_stop_and_finishes() {
    let settle = Settle { tolerance: d(1e-3), cycles: 20 };
    let mut rig = Rig::new(settle, [LIMITS; 3]);
    let mut echo = [0.0; 3];
    rig.cycle(echo, false);
    rig.slot.publish(ds([0.05, 0.0, 0.0]));
    let mut cycles = 0;
    let mut peak_speed = 0.0f64;
    let mut finished = false;
    while !finished {
        let step = rig.cycle(echo, false);
        peak_speed = peak_speed.max(f(step.velocity[0]).abs());
        echo = fs(step.position);
        cycles += 1;
        if cycles == 300 {
            rig.stop = true;
        }
        finished = step.finished;
        assert!(cycles < 2000, "the runner never finished");
    }
    assert!((echo[0] - 0.05).abs() < 1e-6 && echo[1..] == [0.0, 0.0], "{echo:?}");
    assert!(peak_speed <= LIMITS[0] / 3f64.sqrt() + 1e-9);
    // The 5 cm S-curve takes 0.658 s, then the hold of `settle.cycles` and the finish.
    assert!((640..=720).contains(&cycles), "finished after {cycles} cycles");
    assert!(rig.runner.finish(Ok(())).is_ok());
}

#[test]
fn the_runner_freezes_the_target_on_a_deviation_and_reports_it() {
    let mut rig = Rig::new(Settle { tolerance: d(1e-3), cycles: 5 }, [LIMITS; 3]);
    let mut echo = [0.0; 3];
    rig.cycle(echo, false);
    rig.slot.publish(ds([0.10, 0.0, 0.0]));
    for _ in 0..200 {
        echo = fs(rig.cycle(echo, false).position);
    }
    let moving = rig.cycle(echo, true);
    assert!(
        f(moving.target[0]) < 0.10 && f(moving.target[0]) > 0.0,
        "frozen where the command is"
    );
    let frozen = moving.target;
    rig.slot.publish(ds([0.0, 0.0, 0.0])); // ignored from now on
    let mut cycles = 0;
    loop {
        let step = rig.cycle(echo, true);
        echo = fs(step.position);
        cycles += 1;
        assert_eq!(step.target, frozen);
        if step.finished {
            break;
        }
        assert!(cycles < 2000);
    }
    assert!((echo[0] - f(frozen[0])).abs() < 1e-3);
    match rig.runner.finish(Ok(())) {
        Err(FrankaError::Control(e)) => assert_eq!(e.message, DEVIATION_MESSAGE),
        other => panic!("expected the deviation error, got {other:?}"),
    }
    match rig.runner.finish(Err(FrankaError::Network("gone".into()))) {
        Err(FrankaError::Network(m)) => assert_eq!(m, "gone"),
        other => panic!("a loop error wins over the deviation, got {other:?}"),
    }
}

/// Runs a stopping runner against `echo_of` (the "robot") until it finishes, returning every
/// sent position; asserts the last `settle.cycles + 1` are bit-identical and sent at rest.
fn run_to_finish<const N: usize>(
    rig: &mut Rig<N>,
    target: [f64; N],
    settle: Settle,
    mut echo_of: impl FnMut([f64; N]) -> [f64; N],
) -> Vec<[f64; N]> {
    // Anchor first (which publishes the anchor into the slot), then set the target.
    let mut echo = fs(rig.cycle([0.0; N], false).position);
    rig.slot.publish(ds(target));
    rig.stop = true;
    let mut sent = vec![echo];
    loop {
        let step = rig.cycle(echo_of(echo), false);
        echo = fs(step.position);
        sent.push(echo);
        assert!(sent.len() < 8000, "the runner never finished");
        if step.hold {
            assert_eq!(fs(step.velocity), [0.0; N]);
            assert_eq!(fs(step.acceleration), [0.0; N]);
        }
        if step.finished {
            break;
        }
    }
    let window = settle.cycles as usize + 1;
    let held = &sent[sent.len() - window..];
    let bits = |p: &[f64; N]| p.map(f64::to_bits);
    assert!(
        held.iter().all(|p| bits(p) == bits(&held[0])),
        "the last {window} commands are not bit-identical"
    );
    sent
}

/// The commands shortly before the held window were still moving: the hold began at the
/// window (the held echo equals the one command before it, never the ten before).
fn assert_hold_began_at_window<const N: usize>(sent: &[[f64; N]], settle: Settle) {
    let window = settle.cycles as usize + 1;
    let bits = |p: &[f64; N]| p.map(f64::to_bits);
    assert_ne!(
        bits(&sent[sent.len() - window - 10]),
        bits(&sent[sent.len() - 1]),
        "the hold started earlier than the settle window"
    );
}

#[test]
fn a_stop_that_never_lands_times_out_and_still_holds_before_finishing() {
    let settle = Settle::default();
    let mut rig = Rig::new(settle, [LIMITS; 3]);
    rig.far = true;
    // The "robot" echoes a position a metre away every cycle, so the generator never lands.
    let sent = run_to_finish(&mut rig, [0.0; 3], settle, |_| [1.0; 3]);
    assert_eq!(sent.len() as u32, 1 + STOP_TIMEOUT_CYCLES + settle.cycles);
}

#[test]
fn the_cartesian_stop_holds_an_identical_pose_for_the_settle_window_then_finishes() {
    let settle = Settle::default();
    let mut rig = Rig::new(settle, [LIMITS; 3]);
    let target = [0.05, -0.02, 0.01];
    let sent = run_to_finish(&mut rig, target, settle, |p| p);
    assert_hold_began_at_window(&sent, settle);
    let last = sent[sent.len() - 1];
    for (a, b) in last.iter().zip(&target) {
        assert!((a - b).abs() < 1e-6, "held away from the target: {last:?}");
    }
    // Landing plus the hold: well before the timeout.
    assert!((sent.len() as u32) < 1200 + settle.cycles, "{} cycles", sent.len());
}

#[test]
fn the_stop_lands_through_a_float32_echo_with_reference_noise() {
    // What an FR3 does to the command: float32 on the wire, an ulp of dither on top.
    let settle = Settle::default();
    let mut rig = Rig::new(settle, [LIMITS; 3]);
    let mut k = 0u32;
    let sent = run_to_finish(&mut rig, [0.4, 0.0, 0.5], settle, |p| {
        k += 1;
        let noise = if k % 3 == 0 { 3e-8 } else { -2e-8 };
        p.map(|x| f64::from(x as f32) + noise)
    });
    let last = sent[sent.len() - 1];
    assert!(
        (last[0] - 0.4).abs() < 1e-6 && (last[2] - 0.5).abs() < 1e-6,
        "{last:?}"
    );
    assert_hold_began_at_window(&sent, settle);
    assert!(
        (sent.len() as u32) < STOP_TIMEOUT_CYCLES,
        "took the timeout: {} cycles",
        sent.len()
    );
}

#[test]
fn the_joint_stop_holds_an_identical_configuration_then_finishes() {
    let settle = Settle { tolerance: d(1e-3), cycles: 100 };
    let limits = scaled_limits(FciVersion::V10, 0.2)
        .map(|l| [f(l.max_velocity), f(l.max_acceleration), f(l.max_jerk)]);
    let mut rig = Rig::new(settle, limits);
    let target = [0.3, -0.1, 0.0, -0.2, 0.0, 0.4, 0.05];
    let sent = run_to_finish(&mut rig, target, settle, |q| q.map(|x| f64::from(x as f32)));
    assert_hold_began_at_window(&sent, settle);
    let last = sent[sent.len() - 1];
    for (a, b) in last.iter().zip(&target) {
        assert!((a - b).abs() < 1e-6, "{last:?}");
    }
    assert!((sent.len() as u32) < 3000, "{} cycles", sent.len());
}

#[test]
fn a_torn_read_keeps_the_target_and_a_stop_waits_for_the_last_one() {
    let runner = Runner::<1, 1> {
        anchored: true,
        target: ds([1.0]),
        ..Runner::new(Settle::default())
    };
    for (stop, again) in [(false, false), (true, true)] {
        let cycle = match runner.cycle(ds([0.0]), ds([0.0]), false, stop) {
            Progress::Continue(cycle, RunnerAction::Load) => cycle,
            other => panic!("expected a load, got {other:?}"),
        };
        match cycle.resume(RunnerEvent::Loaded(None)) {
            Progress::Continue(_, RunnerAction::Load) => assert!(again),
            Progress::Continue(_, RunnerAction::Generate { target, .. }) => {
                assert!(!again);
                assert_eq!(fs(target), [1.0]);
            }
            other => panic!("unexpected {other:?}"),
        }
        match cycle.resume(RunnerEvent::Loaded(Some(ds([2.0])))) {
            Progress::Continue(_, RunnerAction::Generate { target, .. }) => {
                assert_eq!(fs(target), [2.0])
            }
            other => panic!("unexpected {other:?}"),
        }
    }
}

/// 0.5 rad/s, 1 rad/s^2, 20 rad/s^3.
const ROTATION_LIMITS: [f64; 3] = [0.5, 1.0, 20.0];

/// A pose runner (six axes, seven slot values) with its mailbox and a generator that moves along x
/// and turns about z, synchronised; the robot is an exact one: its echo is the composed pose itself.
struct PoseRig {
    runner: Runner<6, 7>,
    slot: TargetSlot<7>,
    otg: Profile<2>,
    stop: bool,
    position: [f64; 3],
    rotation: Rotation3<f64>,
}

fn slot_values(position: &[f64; 3], rotation: &Rotation3<f64>) -> [Double; 7] {
    let q = UnitQuaternion::from_rotation_matrix(rotation);
    join(&ds(*position), &ds([q.i, q.j, q.k, q.w]))
}

impl PoseRig {
    fn new(settle: Settle) -> Self {
        let per_axis = |limits: [f64; 3], factor: f64| limits.map(|x| x * factor / 3f64.sqrt());
        PoseRig {
            runner: Runner::new(settle),
            slot: TargetSlot::default(),
            otg: Profile::new([per_axis(LIMITS, 1.0), per_axis(ROTATION_LIMITS, 0.99)]),
            stop: false,
            position: [0.0; 3],
            rotation: Rotation3::identity(),
        }
    }

    fn cycle(&mut self) -> Step<6, 7> {
        let commanded = slot_values(&self.position, &self.rotation);
        let mut progress = self.runner.cycle(commanded, anchor(&commanded), false, self.stop);
        let step = loop {
            let (cycle, action) = match progress {
                Progress::Done((runner, step)) => {
                    self.runner = runner;
                    break step;
                }
                Progress::Continue(cycle, action) => (cycle, action),
            };
            let event = match action {
                RunnerAction::Anchor { commanded } => {
                    self.slot.publish(commanded);
                    RunnerEvent::Anchored
                }
                RunnerAction::Load => {
                    let mut target = commanded;
                    let loaded = self.slot.load(&mut target);
                    RunnerEvent::Loaded(if loaded { Some(target) } else { None })
                }
                RunnerAction::Generate { target, .. } => {
                    RunnerEvent::Generated(self.generate(&target))
                }
            };
            assert!(cycle.answered_by(&event));
            progress = cycle.resume(event);
        };
        if !step.hold {
            let [x, y, z, a, b, c] = fs(step.position);
            self.position = [x, y, z];
            self.rotation = Rotation3::new(Vector3::new(a, b, c)) * self.rotation;
        }
        step
    }

    fn generate(&mut self, target: &[Double; 7]) -> Generated<6> {
        let (position, orientation) = split(target);
        let [i, j, k, w] = fs(orientation);
        let q = UnitQuaternion::from_quaternion(nalgebra::Quaternion::new(w, i, j, k));
        let at = [self.position[0], self.rotation.scaled_axis()[2]];
        let goal = [f(position[0]), q.scaled_axis()[2]];
        let two = self.otg.step(at, goal, false);
        let six = |values: [Double; 2]| ds([f(values[0]), 0.0, 0.0, 0.0, 0.0, f(values[1])]);
        Generated {
            position: six([two.position[0], d(f(two.position[1]) - at[1])]),
            velocity: six(two.velocity),
            acceleration: six(two.acceleration),
            distance: six(two.distance),
        }
    }
}

#[test]
fn the_cartesian_stop_waits_for_the_orientation_to_land_and_holds_the_echo() {
    let settle = Settle::default();
    let mut rig = PoseRig::new(settle);
    rig.cycle();
    // A translation and a rotation together: synchronised, they land in the same cycle.
    let target = Rotation3::new(Vector3::new(0.0, 0.0, 0.3));
    rig.slot.publish(slot_values(&[0.05, 0.0, 0.0], &target));
    rig.stop = true;
    let (mut cycles, mut first_hold) = (0u32, None);
    let (mut translated, mut turned) = (None, None);
    loop {
        let step = rig.cycle();
        cycles += 1;
        if translated.is_none() && (rig.position[0] - 0.05).abs() < 1e-4 {
            translated = Some(cycles);
        }
        if turned.is_none() && rig.rotation.angle_to(&target) < 1e-4 {
            turned = Some(cycles);
        }
        if step.hold && first_hold.is_none() {
            first_hold = Some(cycles);
            assert_eq!(
                fs(step.position),
                [rig.position[0], rig.position[1], rig.position[2], 0.0, 0.0, 0.0]
            );
        }
        if step.finished {
            break;
        }
        assert!(cycles < STOP_TIMEOUT_CYCLES);
    }
    // 0.3 rad about z under 0.289 rad/s per axis takes 1.6 s; the 5 cm alone would take 0.85 s
    // and is stretched to arrive with it.
    let (first_hold, translated, turned) =
        (first_hold.unwrap(), translated.unwrap(), turned.unwrap());
    assert!(
        (1400..1700).contains(&first_hold),
        "held after {first_hold} cycles"
    );
    assert!(
        translated.abs_diff(turned) < 50,
        "landed at {translated} and {turned}"
    );
    assert!(first_hold >= turned.max(translated));
    assert_eq!(cycles, first_hold + settle.cycles);
    assert!(rig.rotation.angle_to(&target) < f(settle.tolerance));
    assert!((rig.position[0] - 0.05).abs() < f(settle.tolerance));
}

#[test]
fn a_stop_waits_for_the_last_axis_to_land() {
    // The translation is there at once, the rotation takes three cycles more.
    let settle = Settle { tolerance: d(1e-3), cycles: 2 };
    let mut runner = Runner::<6, 7>::new(settle);
    let mut held = Vec::new();
    for (k, turn) in [0.4, 0.2, 0.1, 0.0, 0.0, 0.0].into_iter().enumerate() {
        let commanded = ds([k as f64, 0.0, 0.0, 0.0, 0.0, 0.0, 1.0]);
        let mut progress = runner.cycle(commanded, anchor(&commanded), false, true);
        let step = loop {
            let (cycle, action) = match progress {
                Progress::Done((next, step)) => {
                    runner = next;
                    break step;
                }
                Progress::Continue(cycle, action) => (cycle, action),
            };
            progress = cycle.resume(match action {
                RunnerAction::Anchor { .. } => RunnerEvent::Anchored,
                RunnerAction::Load => RunnerEvent::Loaded(Some(commanded)),
                RunnerAction::Generate { .. } => RunnerEvent::Generated(Generated {
                    distance: ds([0.0, 0.0, 0.0, 0.0, 0.0, turn]),
                    ..at_rest([9.0; 6], 0.0)
                }),
            });
        };
        held.push((step.hold, f(step.position[0]), step.finished));
    }
    assert_eq!(
        held,
        vec![
            (false, 9.0, false),
            (false, 9.0, false),
            (false, 9.0, false),
            (true, 3.0, false),
            (true, 3.0, false),
            (true, 3.0, true),
        ]
    );
}

#[test]
fn a_deviation_ends_the_motion_whatever_the_generator_does() {
    let settle = Settle { tolerance: d(1e-3), cycles: 5 };
    let mut runner = Runner::<3, 3> { anchored: true, ..Runner::new(settle) };
    let mut cycles = 0;
    let finished = loop {
        // The arm strays in the first cycle only; nobody asks for a stop and nothing ever lands.
        let echo = ds([cycles as f64; 3]);
        let step = match runner.cycle(echo, echo, cycles == 0, false) {
            Progress::Done((next, step)) => {
                runner = next;
                step
            }
            Progress::Continue(cycle, RunnerAction::Generate { target, .. }) => {
                assert_eq!(fs(target), [0.0; 3]);
                match cycle.resume(RunnerEvent::Generated(at_rest([9.0; 3], 1.0))) {
                    Progress::Done((next, step)) => {
                        runner = next;
                        step
                    }
                    other => panic!("unexpected {other:?}"),
                }
            }
            other => panic!("unexpected {other:?}"),
        };
        cycles += 1;
        assert!(cycles <= STOP_TIMEOUT_CYCLES + settle.cycles);
        if step.finished {
            break step;
        }
    };
    assert_eq!(cycles, STOP_TIMEOUT_CYCLES + settle.cycles);
    assert_eq!(fs(finished.position), [f64::from(STOP_TIMEOUT_CYCLES - 1); 3]);
    assert!(runner.finish(Ok(())).is_err());
}

// -- The user side --------------------------------------------------------------------------

#[test]
fn the_handle_rejects_targets_once_the_loop_has_ended() {
    let mut slot = TargetSlot::<3>::default();
    slot.publish(ds([1.0, 2.0, 3.0]));
    let target = |slot: &TargetSlot<3>| {
        let mut read = TargetRead::new();
        loop {
            let mut into = ds([0.0; 3]);
            let loaded = slot.load(&mut into);
            match read.resume(if loaded { Some(into) } else { None }) {
                Progress::Continue(next, ()) => read = next,
                Progress::Done(target) => return fs(target),
            }
        }
    };
    assert_eq!(target(&slot), [1.0, 2.0, 3.0]);
    match modify_target(false, ds([0.0; 3])).unwrap_err().error("") {
        FrankaError::InvalidOperation(m) => assert_eq!(m, ENDED_MESSAGE),
        other => panic!("expected InvalidOperation, got {other:?}"),
    }
    match modify_target(true, ds([f64::NAN, 0.0, 0.0])).unwrap_err().error("[NaN]") {
        FrankaError::InvalidArgument(m) => {
            assert_eq!(m, "target control: the target must be finite, got [NaN]")
        }
        other => panic!("expected InvalidArgument, got {other:?}"),
    }
    slot.publish(modify_target(true, ds([4.0, 5.0, 6.0])).unwrap());
    assert_eq!(target(&slot), [4.0, 5.0, 6.0]);
    assert!(stop(None).is_ok(), "no thread to join is a regular end");
    // A slot that nothing was published to is read as zeros in the end.
    assert_eq!(target(&TargetSlot::default()), [0.0; 3]);
}

fn control_message(error: FrankaError) -> String {
    match error {
        FrankaError::Control(exception) => {
            assert_eq!(exception.move_status, None::<MoveStatus>);
            exception.message
        }
        other => panic!("expected a ControlException, got {other:?}"),
    }
}

#[test]
fn a_thread_ends_with_its_result_or_the_error_of_its_panic() {
    assert!(stop(Some(ThreadEnd::Returned(Ok(())))).is_ok());
    match stop(Some(ThreadEnd::Returned(Err(FrankaError::Network("gone".into()))))) {
        Err(FrankaError::Network(m)) => assert_eq!(m, "gone"),
        other => panic!("expected the loop's error, got {other:?}"),
    }
    assert_eq!(
        control_message(stop(Some(ThreadEnd::Panicked)).unwrap_err()),
        "franka target control: the control thread panicked"
    );
    assert_eq!(
        control_message(start_failure(ThreadEnd::Returned(Ok(())))),
        "franka target control: the control loop ended before its first cycle"
    );
    match start_failure(ThreadEnd::Returned(Err(FrankaError::Realtime("no".into())))) {
        FrankaError::Realtime(m) => assert_eq!(m, "no"),
        other => panic!("expected the loop's error, got {other:?}"),
    }
    match spawn_failure("out of threads") {
        FrankaError::InvalidOperation(m) => assert_eq!(
            m,
            "franka target control: cannot spawn the control thread: out of threads"
        ),
        other => panic!("expected InvalidOperation, got {other:?}"),
    }
}

#[test]
fn scheduling_failures_are_fatal_only_where_realtime_is_insisted_on() {
    let failed = |what: &str| Err(what.to_string());
    assert!(schedule(RealtimeConfig::Ignore, failed("raise"), failed("pin")).is_ok());
    assert!(schedule(RealtimeConfig::Enforce, Ok(()), Ok(())).is_ok());
    for (priority, pin, expected) in [
        (failed("raise"), failed("pin"), "raise"),
        (Ok(()), failed("pin"), "pin"),
        (failed("raise"), Ok(()), "raise"),
    ] {
        match schedule(RealtimeConfig::Enforce, priority, pin) {
            Err(FrankaError::Realtime(m)) => assert_eq!(m, expected),
            other => panic!("expected a realtime error, got {other:?}"),
        }
    }
}

#[test]
fn tuning_is_for_running_sessions_that_have_one() {
    assert_eq!(tune(true, Some(7)).unwrap(), 7);
    match tune(false, Some(7)) {
        Err(FrankaError::InvalidOperation(m)) => assert_eq!(m, ENDED_MESSAGE),
        other => panic!("expected InvalidOperation, got {other:?}"),
    }
    match tune(true, None::<u8>) {
        Err(FrankaError::InvalidOperation(m)) => assert_eq!(m, NO_TUNING_MESSAGE),
        other => panic!("expected InvalidOperation, got {other:?}"),
    }
    assert!(published_tuning(Some(())).is_ok());
}

#[test]
fn joint_targets_and_postures_stay_inside_the_limits() {
    let (lower, upper) = joint_position_limits(FciVersion::V10);
    assert_eq!(f(upper[3]), -0.1169);
    assert_eq!(f(joint_position_limits(FciVersion::V5).1[5]), 3.7525);
    assert_eq!(fs(max_joint_velocity(FciVersion::V10))[5], 4.18);
    let inset = f(joint_limit_inset(&Backend::RobotController));
    assert_eq!(inset, 0.02);
    assert_eq!(
        f(joint_limit_inset(&Backend::Impedance(ImpedanceOptions::joint()))),
        0.05
    );
    let bounds = (lower.map(|x| d(f(x) + inset)), upper.map(|x| d(f(x) - inset)));
    let mut q = [0.0, 0.0, 0.0, -1.5, 0.0, 1.5, 0.0];
    assert_eq!(check_joint_limits(&ds(q), &bounds), Ok(()));
    q[3] = -0.12;
    q[6] = 4.0;
    assert_eq!(check_joint_limits(&ds(q), &bounds), Err(3));
    match joint_limit_error("target", 3, "-0.12", "-3.057", "-0.1369", "0.02") {
        FrankaError::InvalidArgument(m) => assert_eq!(
            m,
            "target control: the target puts joint 4 at -0.12 rad, outside [-3.057, -0.1369] \
             (0.02 rad inside the arm's limits)"
        ),
        other => panic!("expected InvalidArgument, got {other:?}"),
    }
    // The limits come first, then whether the loop runs, then whether the target is finite.
    assert_eq!(set_joints(false, ds(q), &bounds), Err(JointRefusal::Limit(3)));
    q[3] = -1.5;
    q[6] = 0.0;
    assert_eq!(
        set_joints(false, ds(q), &bounds),
        Err(JointRefusal::Target(Refusal::Ended))
    );
    assert_eq!(set_joints(true, ds(q), &bounds), Ok(ds(q)));
    q[0] = f64::NAN;
    assert_eq!(
        set_joints(true, ds(q), &bounds),
        Err(JointRefusal::Target(Refusal::NotFinite))
    );

    let posture = |q: [f64; 7]| {
        let options = ImpedanceOptions::cartesian().with_posture(Some(ds(q)));
        Options::default().with_backend(Backend::Impedance(options)).start(&bounds)
    };
    let outside = [0.0, 0.0, 0.0, 0.0, 0.0, 1.5, 0.0];
    assert_eq!(posture(outside), Err(StartFault::Posture(3)));
    assert!(posture([0.0, 0.0, 0.0, -1.5, 0.0, 1.5, 0.0]).is_ok());
    assert_eq!(
        JointOptions::default().with_backend(Backend::RobotController).start(&bounds),
        Ok(Backend::RobotController)
    );
    assert_eq!(
        JointOptions::default().with_max_deviation(d(-1.0)).start(&bounds),
        Err(StartFault::Option(OptionFault::MaxDeviation))
    );
}

#[test]
fn poses_and_quaternions_are_refused_beyond_the_tolerance() {
    let text = |fault: PoseFault| match fault.error("shown", "2") {
        FrankaError::InvalidArgument(m) => m,
        other => panic!("expected InvalidArgument, got {other:?}"),
    };
    assert_eq!(unit_quaternion(&ds([0.0, 0.0, 0.0, 1.0005]), d(0.0005)), Ok(()));
    let fault = unit_quaternion(&ds([0.0, 0.0, 0.0, 2.0]), d(1.0)).unwrap_err();
    assert_eq!(
        text(fault),
        "target control: the orientation shown is not a unit quaternion (norm 2); the order is \
         [x, y, z, w]"
    );
    let fault = unit_quaternion(&ds([f64::INFINITY, 0.0, 0.0, 1.0]), d(f64::INFINITY)).unwrap_err();
    assert!(text(fault).contains("orientation must be finite"));

    let mut pose = [0.0; 16];
    for i in 0..4 {
        pose[5 * i] = 1.0;
    }
    let exact = ds([0.0; 4]);
    assert_eq!(checked_pose(&ds(pose), &exact, d(6e-4)), Ok(()));
    let fault = checked_pose(&ds(pose), &exact, d(2e-2)).unwrap_err();
    assert!(text(fault).contains("not orthonormal (error shown against a tolerance of 1e-3)"));
    let fault = checked_pose(&ds(pose), &ds([0.1, 0.0, 0.0, 0.0]), d(2e-2)).unwrap_err();
    assert!(text(fault).contains("last row"));
    pose[5] = f64::NAN;
    let fault = checked_pose(&ds(pose), &exact, d(0.0)).unwrap_err();
    assert!(text(fault).contains("pose must be finite"));
}

// -- The streams ----------------------------------------------------------------------------

fn at_rest<const N: usize>(position: [f64; N], distance: f64) -> Generated<N> {
    Generated {
        position: ds(position),
        velocity: ds([0.0; N]),
        acceleration: ds([0.0; N]),
        distance: ds([distance; N]),
    }
}

#[test]
fn the_position_stream_is_limited_until_it_holds() {
    let limits = [limits(1.0, 2.0, 3.0); 7];
    let settle = Settle { tolerance: d(1e-3), cycles: 2 };
    let mut control = PositionLoop::new(settle, d(1.0), true, &limits);
    let mut log = Vec::new();
    let mut run = |control: PositionLoop, echo: [f64; 7], stop: bool, far: f64, limited: Option<f64>| {
        let mut cycle = control.cycle(ds(echo), stop, ds([0.7; 7]), ds([-2.0; 7]));
        loop {
            let event = match cycle.action() {
                JointAction::Measure { start } => {
                    log.push(format!("measure {}", f(start[0])));
                    JointEvent::Measured(d(far))
                }
                JointAction::Run(action) => JointEvent::Ran(match action {
                    RunnerAction::Anchor { .. } => RunnerEvent::Anchored,
                    RunnerAction::Load => RunnerEvent::Loaded(Some(ds([9.0; 7]))),
                    RunnerAction::Generate { .. } => {
                        RunnerEvent::Generated(at_rest([5.0; 7], 0.0))
                    }
                }),
                JointAction::Limit { position, upper, lower } => {
                    assert_eq!(fs(position), [5.0; 7]);
                    assert_eq!(fs(upper), [0.7; 7]);
                    assert_eq!(fs(lower), [-1.0; 7]);
                    log.push("limit".to_string());
                    JointEvent::Limited(limited.map(|q| ds([q; 7])))
                }
            };
            assert!(cycle.answered_by(&event));
            match cycle.resume(event) {
                Progress::Continue(next, _) => cycle = next,
                Progress::Done((control, output)) => return (control, output),
            }
        }
    };
    let (next, output) = run(control, [1.0; 7], false, 0.0, Some(4.0));
    assert_eq!(fs(output.output.q), [4.0; 7]);
    assert_eq!(output.limited_from, Some(ds([5.0; 7])));
    assert_eq!(fs(output.sent.target), [1.0; 7]);
    let record = output.record(d(0.25));
    assert_eq!(fs(record.q), [4.0; 7]);
    assert_eq!(f(record.backstop_alteration), 0.25);
    control = next;
    // A limiter that fails leaves the arm where it is.
    let (next, output) = run(control, [2.0; 7], false, 0.0, None);
    assert_eq!(fs(output.output.q), [2.0; 7]);
    assert_eq!(fs(output.sent.target), [9.0; 7]);
    control = next;
    // A stop that has landed holds the echo, past the limiter, and finishes after the window.
    let mut finished = Vec::new();
    for echo in [3.0, 7.0, 8.0] {
        let (next, output) = run(control, [echo; 7], true, 0.0, None);
        assert_eq!(fs(output.output.q), [3.0; 7]);
        assert_eq!(output.limited_from, None);
        assert_eq!(fs(output.record(d(0.25)).q), [3.0; 7]);
        assert_eq!(f(output.record(d(0.25)).backstop_alteration), 0.0);
        finished.push(output.output.motion_finished);
        control = next;
    }
    assert_eq!(finished, vec![false, false, true]);

    // An arm that strays further than allowed freezes the target.
    let mut control = PositionLoop::new(settle, d(1.0), false, &limits);
    for far in [0.5, 1.5] {
        assert!(!control.runner.deviated);
        control = run(control, [1.0; 7], false, far, None).0;
    }
    assert!(control.runner.deviated);
    assert_eq!(log.iter().filter(|line| *line == "limit").count(), 2);
    assert!(log.iter().all(|line| line == "limit" || line == "measure 1"));
}

#[test]
fn the_pose_stream_holds_one_pose() {
    let settle = Settle { tolerance: d(1e-3), cycles: 1 };
    let mut control = PoseLoop::new(settle, d(0.3), d(0.5), true);
    let echo_at = |x: f64| Echo {
        pose: ds([x; 16]),
        placement: Placement { position: ds([x; 3]), rotation: ds([0.0; 9]) },
        slot: ds([x; 7]),
    };
    let run = |control: PoseLoop, x: f64, stop: bool, limited: Option<f64>| {
        let mut cycle = control.cycle(echo_at(x), stop);
        loop {
            let event = match cycle.action() {
                PoseAction::Measure { start } => {
                    assert_eq!(f(start.position[0]), 1.0);
                    PoseEvent::Measured { distance: d(0.1), angle: d(0.1) }
                }
                PoseAction::Run(action) => PoseEvent::Ran(match action {
                    RunnerAction::Anchor { .. } => RunnerEvent::Anchored,
                    RunnerAction::Load => RunnerEvent::Loaded(Some(ds([9.0; 7]))),
                    RunnerAction::Generate { .. } => {
                        RunnerEvent::Generated(at_rest([5.0; 6], 0.0))
                    }
                }),
                PoseAction::Compose { position, echo } => {
                    assert_eq!(fs(position), [5.0; 6]);
                    assert_eq!(echo, echo_at(x).placement);
                    PoseEvent::Composed(ds([6.0; 16]))
                }
                PoseAction::Limit { pose } => {
                    assert_eq!(fs(pose), [6.0; 16]);
                    PoseEvent::Limited(limited.map(|x| ds([x; 16])))
                }
            };
            assert!(cycle.answered_by(&event));
            match cycle.resume(event) {
                Progress::Continue(next, _) => cycle = next,
                Progress::Done((control, output)) => return (control, output),
            }
        }
    };
    let (next, output) = run(control, 1.0, false, Some(4.0));
    assert_eq!(fs(output.pose), [4.0; 16]);
    assert_eq!(output.limited_from, Some(ds([6.0; 16])));
    let orientation = ds([0.0, 0.0, 0.0, 1.0]);
    let record = output.record(orientation, d(0.25), d(0.5));
    assert_eq!(fs(record.pose), [4.0; 16]);
    assert_eq!(record.orientation, orientation);
    assert_eq!(fs(record.target), [1.0; 3]);
    assert_eq!(f(record.backstop_alteration), 0.25);
    assert_eq!(f(record.backstop_angular_alteration), 0.5);
    let command = output.command(true);
    assert_eq!(command, CartesianPose::new(record.pose, true));
    assert!(!output.command(false).homogeneous);
    control = next;
    let (next, output) = run(control, 2.0, false, None);
    assert_eq!(fs(output.pose), [2.0; 16]);
    control = next;
    let mut finished = Vec::new();
    for x in [3.0, 7.0] {
        let (next, output) = run(control, x, true, None);
        assert_eq!(fs(output.pose), [3.0; 16]);
        let record = output.record(orientation, d(0.25), d(0.5));
        assert_eq!(fs(record.pose), [3.0; 16]);
        assert_eq!(f(record.backstop_alteration), 0.0);
        assert_eq!(f(record.backstop_angular_alteration), 0.0);
        assert_eq!(fs(output.command(true).O_T_EE), [3.0; 16]);
        finished.push(output.command(true).motion_finished);
        control = next;
    }
    assert_eq!(finished, vec![false, true]);

    // Without the rate limiter the generator's pose goes out as it is.
    let control = PoseLoop::new(settle, d(0.3), d(0.5), false);
    let (_, output) = run(control, 1.0, false, Some(4.0));
    let record = output.record(orientation, d(0.25), d(0.5));
    assert_eq!(fs(output.command(true).O_T_EE), [6.0; 16]);
    assert_eq!(fs(record.pose), [6.0; 16]);
    assert_eq!(f(record.backstop_alteration), 0.0);
    assert_eq!(f(record.backstop_angular_alteration), 0.0);
}

#[test]
fn a_pose_target_is_a_position_and_an_orientation() {
    let target = join(&ds([1.0, 2.0, 3.0]), &ds([0.0, 0.0, 0.0, 1.0]));
    assert_eq!(fs(target), [1.0, 2.0, 3.0, 0.0, 0.0, 0.0, 1.0]);
    assert_eq!(split(&target), (ds([1.0, 2.0, 3.0]), ds([0.0, 0.0, 0.0, 1.0])));
    let moved = set_position(&target, &ds([4.0, 5.0, 6.0]));
    assert_eq!(fs(moved), [4.0, 5.0, 6.0, 0.0, 0.0, 0.0, 1.0]);
    let turned = set_orientation(&moved, &ds([0.0, 1.0, 0.0, 0.0]));
    assert_eq!(fs(turned), [4.0, 5.0, 6.0, 0.0, 1.0, 0.0, 0.0]);
    let (translational, rotational) = (limits(1.0, 2.0, 3.0), limits(4.0, 5.0, 6.0));
    let axes = axis_limits(translational, rotational);
    assert_eq!(axes[2], translational);
    assert_eq!(axes[3], rotational);
}

// -- The inverse kinematics -----------------------------------------------------------------

#[test]
fn the_stall_flag_clears_on_a_pin_no_longer_pushed_and_holds_while_it_is() {
    let (on, floor) = (f64::from_bits(STALL_ON), f64::from_bits(WALL_FLOOR));
    assert_eq!(on, 2e-5);
    assert_eq!(floor, 1e-12);
    let mut stall = Stall::default();
    stall.record(d(2.0 * on), d(0.0));
    assert!(stall.stalled);
    // Pushed every cycle: held, however lightly.
    for _ in 0..1000 {
        stall.record(d(2.0 * floor), d(0.0));
    }
    assert!(stall.stalled, "a pushed pin cleared the flag");
    // Resting on its margin, brushed every fourth cycle: 30 of the last 40 are quiet.
    for k in 0..1000 {
        stall.record(d(if k % 4 == 0 { 2.0 * floor } else { 0.0 }), d(0.0));
    }
    assert!(!stall.stalled, "a pin at rest never cleared the flag");
    // And pushing again sets it at once.
    stall.record(d(2.0 * on), d(0.0));
    assert!(stall.stalled);
    for _ in 0..STALL_QUIET_CYCLES - 1 {
        stall.record(d(0.0), d(0.0));
    }
    assert!(stall.stalled, "the flag cleared inside the window");
    stall.record(d(0.0), d(0.0));
    assert!(!stall.stalled);
}

#[test]
fn the_harder_of_two_pressures_counts_and_only_into_the_bound() {
    let pinned = [0, 1, -1, 2, -2, 1, -1];
    let whole = ds([9.0, 1.0, -1.0, 3.0, -4.0, 2.0, -5.0]);
    let part = ds([9.0, 0.5, 4.0, 1.0, -3.0, 1.0, -6.0]);
    let r = pressures(&pinned, &whole, &part);
    assert_eq!(f(r.position), 4.0);
    assert_eq!(f(r.velocity), 3.0);
    assert_eq!(
        r.pushes,
        [Push::Free, Push::Whole, Push::Part, Push::Idle, Push::Idle, Push::Whole, Push::Idle]
    );
    let block = |size: f64| {
        Some(Block {
            size: d(size),
            least: d(0.4),
            normal: ds([1.0, 0.0, 0.0]),
            along: ds([0.0, 0.9, 0.3, 0.0, 0.0, 0.05, 0.0]),
            least_along: d(0.1),
        })
    };
    let mut stall = Stall::default();
    stall.update(&pinned, &whole, &part, d(4.0), &[block(1.0), block(0.4)]);
    let wall = stall.withheld[0].expect("a wall");
    assert_eq!(wall.joints, [0, 1, -1, 0, 0, 0, 0]);
    assert_eq!(stall.withheld[1], None);
    assert!(stall.stalled);
    stall.update(&pinned, &whole, &part, d(0.0), &[block(1.0), block(1.0)]);
    assert_eq!(stall.withheld, [None, None]);
}

#[test]
fn the_active_set_pins_the_worst_and_releases_the_most_inward() {
    let measures = |violation: [f64; 7], multiplier: [f64; 7]| {
        SolveEvent::Solved(Measures {
            violation: ds(violation),
            below: [true, false, true, false, true, false, true],
            multiplier: ds(multiplier),
        })
    };
    let none = [0.0; 7];
    let search = Search::new([0, 0, 0, -1, 1, 0, 0], MAX_ACTIVE_SET_PASSES);
    // Joint 1 and joint 6 are equally bad: the first is pinned. The pinned joint 4 is not looked at.
    let next = match search.resume(measures([0.0, 0.2, 0.1, 0.0, 9.0, 0.2, f64::NAN], none)) {
        Progress::Continue(next, ()) => next,
        other => panic!("expected another solve, got {other:?}"),
    };
    assert_eq!(next.act, [0, 1, 0, -1, 1, 0, 0]);
    // Nothing violates: of the pinned joints whose multipliers point inward, the largest goes.
    let next = match next.resume(measures(none, [0.0, 0.0, 5.0, -0.3, 0.4, 0.0, 0.0])) {
        Progress::Continue(next, ()) => next,
        other => panic!("expected another solve, got {other:?}"),
    };
    assert_eq!(next.act, [0, 1, 0, -1, 0, 0, 0]);
    assert_eq!(next.passes, 2);
    match next.resume(measures(none, none)) {
        Progress::Done(found) => {
            assert_eq!(found.outcome, Some((3, true)));
            assert_eq!(found.act, [0, 1, 0, -1, 0, 0, 0]);
            assert_eq!(found.concluded(false).act, [0, 0, 0, -1, 1, 0, 0]);
            assert_eq!(found.concluded(false).outcome, None);
        }
        other => panic!("expected the end, got {other:?}"),
    }
    // A solve that fails leaves the set as it was.
    match next.resume(SolveEvent::Failed) {
        Progress::Done(found) => {
            assert_eq!(found.outcome, None);
            assert_eq!(found.act, [0, 0, 0, -1, 1, 0, 0]);
        }
        other => panic!("expected the end, got {other:?}"),
    }
    // The last pass's change is not solved on.
    match Search::new([0; 7], 1).resume(measures([1.0; 7], none)) {
        Progress::Done(found) => {
            assert_eq!(found.outcome, Some((1, false)));
            assert_eq!(found.act, [0; 7]);
        }
        other => panic!("expected the end, got {other:?}"),
    }
    match Search::new([0; 7], 0).resume(measures([1.0; 7], none)) {
        Progress::Done(found) => assert_eq!(found.outcome, Some((0, true))),
        other => panic!("expected the end, got {other:?}"),
    }
    let clipped = clip(&ds([-2.0, -0.5, 0.0, 0.5, 2.0, 1.0, -1.0]), &ds([-1.0; 7]), &ds([1.0; 7]));
    assert_eq!(fs(clipped), [-1.0, -0.5, 0.0, 0.5, 1.0, 1.0, -1.0]);
}

#[test]
fn the_cycle_box_stops_at_the_margin() {
    let side = |distance: f64, velocity: f64, braking: f64| Side {
        distance: d(distance),
        velocity: d(velocity),
        braking: d(braking),
        least: d(velocity - 1e-12),
    };
    let mut lower = [side(1.0, 0.002, 0.01); 7];
    let mut upper = lower;
    lower[1] = side(1.0, 0.002, 0.001);
    upper[1] = side(0.0005, 0.002, 0.001);
    lower[2] = side(-0.1, 0.002, 0.0);
    let b = CycleBox::of(&lower, &upper);
    assert_eq!(f(b.lower[0]), -0.002);
    assert_eq!(f(b.upper[0]), 0.002);
    assert_eq!(f(b.lower[1]), -0.001);
    assert_eq!(f(b.upper[1]), 0.0005);
    assert_eq!(f(b.lower[2]), 0.0);
    assert_eq!(f(b.velocity_lower[2]), -0.002);
    assert_eq!((b.pin(0, -1), b.pin(0, 0), b.pin(0, 1)), (-2, 0, 2));
    assert_eq!((b.pin(1, -1), b.pin(1, 0), b.pin(1, 1)), (-1, 0, 1));
}

fn free_box() -> CycleBox {
    let side = Side { distance: d(1.0), velocity: d(0.002), braking: d(0.01), least: d(0.002) };
    CycleBox::of(&[side; 7], &[side; 7])
}

fn found(act: [i8; 7], outcome: Option<(u32, bool)>) -> Found {
    Found { act, saved: [0; 7], outcome }
}

/// Runs a cycle of the inverse kinematics: each solve takes one pass and moves the goal by one;
/// `residual` of the goal is what is measured.
fn ik_cycle(
    ik: Ik,
    blended: bool,
    fail_at: Option<usize>,
    residual: &dyn Fn(f64) -> f64,
    scale: f64,
) -> (Ik, f64, Vec<Task>) {
    let mut cycle: IkCycle = ik.step(free_box(), blended);
    let mut solves = Vec::new();
    loop {
        let event = match cycle.action() {
            IkAction::Solve { task, q, first, .. } => {
                assert_eq!(first, fs(q) == fs(ik.q) && solves.len() < 2);
                solves.push(task);
                let failed = fail_at == Some(solves.len());
                let outcome = if failed { None } else { Some((1, true)) };
                let n = solves.len() as f64;
                let act = [solves.len() as i8, 0, 0, 0, 0, 0, 0];
                IkEvent::Solved(Solution { found: found(act, outcome), step: d(n), clipped: d(0.1 * n) })
            }
            IkAction::Move { q } => IkEvent::Moved(fs(q).map(|x| d(x + 1.0))),
            IkAction::Measure { q } => IkEvent::Measured(d(residual(f(q[0])))),
            IkAction::Backstop { goal } => {
                IkEvent::Scaled { cut: fs(goal).map(|x| d(x * scale)), scale: d(scale) }
            }
            IkAction::Press { goal, pinned } => {
                assert_eq!(goal, cycle.goal);
                let whole = pinned.map(|pin| d(if pin == 0 { 0.0 } else { 1.0 }));
                IkEvent::Pressed { whole, part: ds([0.0; 7]), pushed: d(0.0), blocks: [None, None] }
            }
        };
        assert!(cycle.answered_by(&event));
        match cycle.resume(event) {
            Progress::Continue(next, action) => {
                assert_eq!(next.action(), action);
                cycle = next;
            }
            Progress::Done((ik, residual)) => return (ik, f(residual), solves),
        }
    }
}

#[test]
fn a_cycle_refines_until_the_residual_is_small() {
    let ik = Ik::new(IkOptions::default(), ds([0.0; 7]));
    let (after, residual, solves) = ik_cycle(ik, false, None, &|q| 1.0 / (1.0 + q), 1.0);
    assert_eq!(solves, vec![Task::Weighted; 3]);
    assert_eq!(fs(after.q), [3.0; 7]);
    assert_eq!(residual, 0.25);
    assert_eq!(after.passes, 3);
    assert_eq!((f(after.step_norm), f(after.clipped_norm)), (3.0, 0.1 * 3.0));
    assert_eq!(after.position_act, after.act);
    assert_eq!(after.pinned, [2, 0, 0, 0, 0, 0, 0]);
    assert_eq!(f(after.stall.velocity), 1.0);
    // The first solve always runs, and the tolerance ends the rest.
    let (after, _, solves) = ik_cycle(ik, false, None, &|_| 1e-9, 1.0);
    assert_eq!(solves.len(), 1);
    assert_eq!(fs(after.q), [1.0; 7]);
    // Position first solves twice.
    let (after, _, solves) = ik_cycle(ik, true, None, &|_| 1e-9, 1.0);
    assert_eq!(solves, vec![Task::Position, Task::Held]);
    assert_eq!(after.position_act[0], 1);
    assert_eq!(after.act[0], 2);
    assert_eq!(after.passes, 2);
}

#[test]
fn a_failed_solve_undoes_the_cycle() {
    let start = Ik { act: [1, 0, 0, 0, 0, 0, 0], ..Ik::new(IkOptions::default(), ds([0.5; 7])) };
    for (blended, fail_at) in [(false, 1), (false, 2), (true, 1), (true, 2), (true, 4)] {
        let (after, residual, solves) = ik_cycle(start, blended, Some(fail_at), &|q| q, 1.0);
        assert_eq!(solves.len(), fail_at);
        assert_eq!(after.q, start.q);
        assert_eq!(after.act, start.act);
        assert_eq!(after.position_act, start.position_act);
        assert_eq!(after.passes, 0);
        assert_eq!(f(after.step_norm), 0.0);
        assert_eq!(residual, 0.5);
    }
}

#[test]
fn the_backstop_takes_only_a_real_cut() {
    let ik = Ik::new(IkOptions::default(), ds([0.0; 7]));
    let (after, residual, _) = ik_cycle(ik, false, None, &|q| 0.5 * q, 0.5);
    assert_eq!(fs(after.q), [1.5; 7]);
    assert_eq!(f(after.cap_scale), 0.5);
    assert_eq!(residual, 0.75);
    let (after, _, _) = ik_cycle(ik, false, None, &|q| 0.5 * q, 1.0 - 1e-12);
    assert_eq!(fs(after.q), [3.0; 7]);
    assert_eq!(f(after.cap_scale), 1.0);
}

#[test]
fn frames_are_taken_when_they_change() {
    let mut frames = Frames { f_t_ee: ds([0.0; 16]), ee_t_k: ds([0.0; 16]) };
    assert_eq!(frames.set_frames(&ds([0.0; 16]), &ds([0.0; 16])), None);
    // Minus zero is another bit pattern.
    assert_eq!(frames.set_frames(&ds([-0.0; 16]), &ds([0.0; 16])), Some(ds([0.0; 16])));
    assert_eq!(frames.set_frames(&ds([-0.0; 16]), &ds([1.0; 16])), Some(ds([-0.0; 16])));
    assert_eq!(fs(frames.ee_t_k), [1.0; 16]);
}
