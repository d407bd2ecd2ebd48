//! The options of the two target control interfaces and their builders.
use crate::control_types::ControllerMode;
use crate::double::Double;
use crate::otg::OtgLimits;
use crate::robot::control_loop;
use crate::robot::control_loop::{rate_limits, seven};
use crate::robot::target_control;
use crate::robot::target_control::fault;
use crate::robot::target_control::fault::OptionFault;
use crate::robot::target_control::impedance::{Backend, ImpedanceGains, ImpedanceOptions};
use crate::robot::target_control::{
    check_posture, max_joint_velocity, validate_common, Scheduling, Settle, FEWEST_CORES, MOST_CORES,
};
use crate::wire::codec::FciVersion;
use crate::double;
use vstd::prelude::*;

verus! {

/// The fraction of the robot's joint limits that the joint interface budgets unless told otherwise:
/// 0.2, as a bit pattern.
pub const DEFAULT_LIMIT_FRACTION: u64 = 0x3fc9_9999_9999_999a;

/// Options of a Cartesian target control. [`Default`] is the documented starting point and the
/// `with_*` methods change one field each. `O` is whoever watches the cycles.
#[derive(Clone, Copy, PartialEq, Debug)]
pub struct TargetControlOptions<O> {
    /// The translational budget as a norm: m/s, m/s^2, m/s^3.
    pub limits: OtgLimits,
    /// The rotational budget as a norm: rad/s, rad/s^2, rad/s^3.
    pub rotation_limits: OtgLimits,
    /// What turns the generator's pose into a command.
    pub backend: Backend,
    /// The robot's internal controller, with [`Backend::RobotController`] only.
    pub controller_mode: ControllerMode,
    /// How far, m, the measured position may stray from the start before the target is frozen and
    /// the loop ends with an error.
    pub max_deviation: Double,
    /// How far, rad, the measured orientation may turn from the start before the same guard fires.
    pub max_angular_deviation: Double,
    /// When a stop counts as settled.
    pub settle: Settle,
    /// Whether the rate limiters run.
    pub limit_rate: bool,
    /// `SCHED_FIFO` priority for the loop thread; `None` is the highest.
    pub realtime_priority: Option<i32>,
    /// The core that the loop thread is pinned to, if any.
    pub cpu: Option<usize>,
    /// Called every cycle on the realtime thread.
    pub observer: Option<O>,
}

/// Options of a joint target control. [`Default`] is the documented starting point and the
/// `with_*` methods change one field each. `O` is whoever watches the cycles.
#[derive(Clone, Copy, PartialEq, Debug)]
pub struct JointTargetControlOptions<O> {
    /// Per-joint limits, rad/s, rad/s^2, rad/s^3; `None` is [`DEFAULT_LIMIT_FRACTION`] of the limits
    /// of the negotiated version, taken when the loop starts.
    pub limits: Option<[OtgLimits; 7]>,
    /// What turns the generator's joint positions into a command.
    pub backend: Backend,
    /// The robot's internal controller, with [`Backend::RobotController`] only.
    pub controller_mode: ControllerMode,
    /// How far, rad, any measured joint may stray from its start before the target is frozen and
    /// the loop ends with an error.
    pub max_deviation: Double,
    /// When a stop counts as settled.
    pub settle: Settle,
    /// Whether the rate limiters run.
    pub limit_rate: bool,
    /// `SCHED_FIFO` priority for the loop thread; `None` is the highest.
    pub realtime_priority: Option<i32>,
    /// The core that the loop thread is pinned to, if any.
    pub cpu: Option<usize>,
    /// Called every cycle on the realtime thread.
    pub observer: Option<O>,
}

impl<O> TargetControlOptions<O> {
    /// The documented starting point: 0.3 m/s, 0.5 m/s^2 and 20 m/s^3, 0.5 rad/s, 1 rad/s^2 and
    /// 20 rad/s^3, the impedance law, guards at 0.3 m and 0.5 rad.
    pub open spec fn usual() -> Self {
        TargetControlOptions {
            limits: OtgLimits {
                max_velocity: Double { bits: 0x3fd3_3333_3333_3333 },
                max_acceleration: Double { bits: 0x3fe0_0000_0000_0000 },
                max_jerk: Double { bits: 0x4034_0000_0000_0000 },
            },
            rotation_limits: OtgLimits {
                max_velocity: Double { bits: 0x3fe0_0000_0000_0000 },
                max_acceleration: Double { bits: 0x3ff0_0000_0000_0000 },
                max_jerk: Double { bits: 0x4034_0000_0000_0000 },
            },
            backend: Backend::Impedance(
                ImpedanceOptions::usual(ImpedanceGains::tabled(ImpedanceGains::CARTESIAN)),
            ),
            controller_mode: ControllerMode::CartesianImpedance,
            max_deviation: Double { bits: 0x3fd3_3333_3333_3333 },
            max_angular_deviation: Double { bits: 0x3fe0_0000_0000_0000 },
            settle: Settle::usual(),
            limit_rate: true,
            realtime_priority: None,
            cpu: None,
            observer: None,
        }
    }

    /// Sets the translational norm budget.
    pub fn with_limits(self, limits: OtgLimits) -> (options: Self)
        ensures
            options == (TargetControlOptions { limits, ..self }),
    {
        TargetControlOptions { limits, ..self }
    }

    /// Sets the rotational norm budget (rad/s, rad/s^2, rad/s^3).
    pub fn with_rotation_limits(self, limits: OtgLimits) -> (options: Self)
        ensures
            options == (TargetControlOptions { rotation_limits: limits, ..self }),
    {
        TargetControlOptions { rotation_limits: limits, ..self }
    }

    /// Sets the backend.
    pub fn with_backend(self, backend: Backend) -> (options: Self)
        ensures
            options == (TargetControlOptions { backend, ..self }),
    {
        TargetControlOptions { backend, ..self }
    }

    /// Sets the robot's internal controller ([`Backend::RobotController`] only).
    pub fn with_controller_mode(self, mode: ControllerMode) -> (options: Self)
        ensures
            options == (TargetControlOptions { controller_mode: mode, ..self }),
    {
        TargetControlOptions { controller_mode: mode, ..self }
    }

    /// Sets the deviation guard on the position, m.
    pub fn with_max_deviation(self, metres: Double) -> (options: Self)
        ensures
            options == (TargetControlOptions { max_deviation: metres, ..self }),
    {
        TargetControlOptions { max_deviation: metres, ..self }
    }

    /// Sets the deviation guard on the orientation, rad.
    pub fn with_max_angular_deviation(self, radians: Double) -> (options: Self)
        ensures
            options == (TargetControlOptions { max_angular_deviation: radians, ..self }),
    {
        TargetControlOptions { max_angular_deviation: radians, ..self }
    }

    /// Sets the settle criterion.
    pub fn with_settle(self, settle: Settle) -> (options: Self)
        ensures
            options == (TargetControlOptions { settle, ..self }),
    {
        TargetControlOptions { settle, ..self }
    }

    /// Switches the rate limiters.
    pub fn with_limit_rate(self, limit_rate: bool) -> (options: Self)
        ensures
            options == (TargetControlOptions { limit_rate, ..self }),
    {
        TargetControlOptions { limit_rate, ..self }
    }

    /// Sets the loop thread's `SCHED_FIFO` priority (`None`: the highest).
    pub fn with_realtime_priority(self, priority: Option<i32>) -> (options: Self)
        ensures
            options == (TargetControlOptions { realtime_priority: priority, ..self }),
    {
        TargetControlOptions { realtime_priority: priority, ..self }
    }

    /// Sets the core that the loop thread is pinned to.
    pub fn with_cpu(self, cpu: Option<usize>) -> (options: Self)
        ensures
            options == (TargetControlOptions { cpu, ..self }),
    {
        TargetControlOptions { cpu, ..self }
    }

    /// Installs the observer.
    pub fn with_observer(self, observer: O) -> (options: Self)
        ensures
            options == (TargetControlOptions { observer: Some(observer), ..self }),
    {
        TargetControlOptions { observer: Some(observer), ..self }
    }

    /// How the loop thread is to be scheduled.
    pub fn scheduling(&self) -> (scheduling: Scheduling)
        ensures
            scheduling == (Scheduling { priority: self.realtime_priority, cpu: self.cpu }),
    {
        Scheduling { priority: self.realtime_priority, cpu: self.cpu }
    }

    /// What is wrong with the options where sets of cores hold `cores`: the limits, the rotational
    /// limits, the guard on the orientation, then what both interfaces share.
    pub open spec fn fault(self, cores: u64) -> Option<OptionFault> {
        if !self.limits.usable() {
            Some(OptionFault::Limits)
        } else if !self.rotation_limits.usable() {
            Some(OptionFault::RotationLimits)
        } else if !self.max_angular_deviation.positive() {
            Some(OptionFault::MaxAngularDeviation)
        } else {
            target_control::common_fault(
                self.max_deviation,
                self.settle,
                Scheduling { priority: self.realtime_priority, cpu: self.cpu },
                self.backend,
                cores,
            )
        }
    }

    /// Checks the options without starting anything. How many cores a set of cores holds is the
    /// platform's.
    pub fn validate(&self) -> (r: Result<(), OptionFault>)
        ensures
            exists|cores: u64|
                FEWEST_CORES <= cores <= MOST_CORES && r == fault::verdict(#[trigger] self.fault(cores)),
            self.cpu is None ==> forall|cores: u64| r == fault::verdict(#[trigger] self.fault(cores)),
    {
        let ghost scheduling = Scheduling { priority: self.realtime_priority, cpu: self.cpu };
        if !self.limits.is_usable() {
            assert(self.fault(FEWEST_CORES) == Some(OptionFault::Limits));
            return Err(OptionFault::Limits);
        }
        if !self.rotation_limits.is_usable() {
            assert(self.fault(FEWEST_CORES) == Some(OptionFault::RotationLimits));
            return Err(OptionFault::RotationLimits);
        }
        if !self.max_angular_deviation.is_positive() {
            assert(self.fault(FEWEST_CORES) == Some(OptionFault::MaxAngularDeviation));
            return Err(OptionFault::MaxAngularDeviation);
        }
        let r = validate_common(self.max_deviation, self.settle, self.scheduling(), &self.backend);
        proof {
            let cores = choose|cores: u64|
                FEWEST_CORES <= cores <= MOST_CORES && r == fault::verdict(
                    #[trigger] target_control::common_fault(
                        self.max_deviation,
                        self.settle,
                        scheduling,
                        self.backend,
                        cores,
                    ),
                );
            assert(r == fault::verdict(self.fault(cores)));
        }
        r
    }
}

impl<O> Default for TargetControlOptions<O> {
    /// The documented starting point.
    fn default() -> (options: Self)
        ensures
            options == Self::usual(),
    {
        TargetControlOptions {
            limits: OtgLimits {
                max_velocity: Double { bits: 0x3fd3_3333_3333_3333 },
                max_acceleration: Double { bits: 0x3fe0_0000_0000_0000 },
                max_jerk: Double { bits: 0x4034_0000_0000_0000 },
            },
            rotation_limits: OtgLimits {
                max_velocity: Double { bits: 0x3fe0_0000_0000_0000 },
                max_acceleration: Double { bits: 0x3ff0_0000_0000_0000 },
                max_jerk: Double { bits: 0x4034_0000_0000_0000 },
            },
            backend: Backend::Impedance(ImpedanceOptions::cartesian()),
            controller_mode: ControllerMode::CartesianImpedance,
            max_deviation: Double { bits: 0x3fd3_3333_3333_3333 },
            max_angular_deviation: Double { bits: 0x3fe0_0000_0000_0000 },
            settle: Settle::default(),
            limit_rate: true,
            realtime_priority: None,
            cpu: None,
            observer: None,
        }
    }
}

/// The joint limits of a version, whole: velocity, acceleration and jerk per joint.
pub open spec fn whole_limits(version: FciVersion) -> Seq<OtgLimits> {
    Seq::new(
        7,
        |i: int|
            OtgLimits {
                max_velocity: target_control::velocity_limits_of(version)@[i],
                max_acceleration: control_loop::limits_of(version).max_joint_acceleration@[i],
                max_jerk: control_loop::limits_of(version).max_joint_jerk@[i],
            },
    )
}

/// Whether every axis can run under its limits.
pub open spec fn all_usable(limits: Seq<OtgLimits>) -> bool {
    forall|i: int| 0 <= i < limits.len() ==> (#[trigger] limits[i]).usable()
}

impl<O> JointTargetControlOptions<O> {
    /// The documented starting point: the version's limits, the impedance law, a guard at 1 rad.
    pub open spec fn usual() -> Self {
        JointTargetControlOptions {
            limits: None,
            backend: Backend::Impedance(
                ImpedanceOptions::usual(ImpedanceGains::tabled(ImpedanceGains::JOINT)),
            ),
            controller_mode: ControllerMode::JointImpedance,
            max_deviation: Double { bits: 0x3ff0_0000_0000_0000 },
            settle: Settle::usual(),
            limit_rate: true,
            realtime_priority: None,
            cpu: None,
            observer: None,
        }
    }

    /// The joint limits of a version, of which a session takes a fraction.
    pub fn full_limits(version: FciVersion) -> (limits: [OtgLimits; 7])
        ensures
            limits@ == whole_limits(version),
    {
        let rate = rate_limits(version);
        let velocity = max_joint_velocity(version);
        let none = Double { bits: 0 };
        let mut limits = [OtgLimits { max_velocity: none, max_acceleration: none, max_jerk: none }; 7];
        let mut i: usize = 0;
        while i < 7
            invariant
                i <= 7,
                rate == control_loop::limits_of(version),
                velocity == target_control::velocity_limits_of(version),
                forall|j: int| 0 <= j < i ==> limits@[j] == whole_limits(version)[j],
            decreases 7 - i,
        {
            limits[i] = OtgLimits {
                max_velocity: velocity[i],
                max_acceleration: rate.max_joint_acceleration[i],
                max_jerk: rate.max_joint_jerk[i],
            };
            i = i + 1;
        }
        assert(limits@ =~= whole_limits(version));
        limits
    }

    /// Sets the per-joint limits.
    pub fn with_limits(self, limits: [OtgLimits; 7]) -> (options: Self)
        ensures
            options == (JointTargetControlOptions { limits: Some(limits), ..self }),
    {
        JointTargetControlOptions { limits: Some(limits), ..self }
    }

    /// Sets the backend.
    pub fn with_backend(self, backend: Backend) -> (options: Self)
        ensures
            options == (JointTargetControlOptions { backend, ..self }),
    {
        JointTargetControlOptions { backend, ..self }
    }

    /// Sets the robot's internal controller ([`Backend::RobotController`] only).
    pub fn with_controller_mode(self, mode: ControllerMode) -> (options: Self)
        ensures
            options == (JointTargetControlOptions { controller_mode: mode, ..self }),
    {
        JointTargetControlOptions { controller_mode: mode, ..self }
    }

    /// Sets the deviation guard, rad.
    pub fn with_max_deviation(self, radians: Double) -> (options: Self)
        ensures
            options == (JointTargetControlOptions { max_deviation: radians, ..self }),
    {
        JointTargetControlOptions { max_deviation: radians, ..self }
    }

    /// Sets the settle criterion.
    pub fn with_settle(self, settle: Settle) -> (options: Self)
        ensures
            options == (JointTargetControlOptions { settle, ..self }),
    {
        JointTargetControlOptions { settle, ..self }
    }

    /// Switches the rate limiters.
    pub fn with_limit_rate(self, limit_rate: bool) -> (options: Self)
        ensures
            options == (JointTargetControlOptions { limit_rate, ..self }),
    {
        JointTargetControlOptions { limit_rate, ..self }
    }

    /// Sets the loop thread's `SCHED_FIFO` priority (`None`: the highest).
    pub fn with_realtime_priority(self, priority: Option<i32>) -> (options: Self)
        ensures
            options == (JointTargetControlOptions { realtime_priority: priority, ..self }),
    {
        JointTargetControlOptions { realtime_priority: priority, ..self }
    }

    /// Sets the core that the loop thread is pinned to.
    pub fn with_cpu(self, cpu: Option<usize>) -> (options: Self)
        ensures
            options == (JointTargetControlOptions { cpu, ..self }),
    {
        JointTargetControlOptions { cpu, ..self }
    }

    /// Installs the observer.
    pub fn with_observer(self, observer: O) -> (options: Self)
        ensures
            options == (JointTargetControlOptions { observer: Some(observer), ..self }),
    {
        JointTargetControlOptions { observer: Some(observer), ..self }
    }

    /// How the loop thread is to be scheduled.
    pub fn scheduling(&self) -> (scheduling: Scheduling)
        ensures
            scheduling == (Scheduling { priority: self.realtime_priority, cpu: self.cpu }),
    {
        Scheduling { priority: self.realtime_priority, cpu: self.cpu }
    }

    /// What is wrong with the options where sets of cores hold `cores`: the limits, then what both
    /// interfaces share.
    pub open spec fn fault(self, cores: u64) -> Option<OptionFault> {
        if self.limits matches Some(limits) && !all_usable(limits@) {
            Some(OptionFault::Limits)
        } else {
            target_control::common_fault(
                self.max_deviation,
                self.settle,
                Scheduling { priority: self.realtime_priority, cpu: self.cpu },
                self.backend,
                cores,
            )
        }
    }

    /// Checks the options without starting anything. How many cores a set of cores holds is the
    /// platform's.
    pub fn validate(&self) -> (r: Result<(), OptionFault>)
        ensures
            exists|cores: u64|
                FEWEST_CORES <= cores <= MOST_CORES && r == fault::verdict(#[trigger] self.fault(cores)),
            self.cpu is None ==> forall|cores: u64| r == fault::verdict(#[trigger] self.fault(cores)),
    {
        let ghost scheduling = Scheduling { priority: self.realtime_priority, cpu: self.cpu };
        if let Some(limits) = self.limits {
            let mut i: usize = 0;
            while i < 7
                invariant
                    i <= 7,
                    self.limits == Some(limits),
                    forall|j: int| 0 <= j < i ==> (#[trigger] limits@[j]).usable(),
                decreases 7 - i,
            {
                if !limits[i].is_usable() {
                    assert(!limits@[i as int].usable());
                    assert(self.fault(FEWEST_CORES) == Some(OptionFault::Limits));
                    return Err(OptionFault::Limits);
                }
                i = i + 1;
            }
        }
        let r = validate_common(self.max_deviation, self.settle, self.scheduling(), &self.backend);
        proof {
            let cores = choose|cores: u64|
                FEWEST_CORES <= cores <= MOST_CORES && r == fault::verdict(
                    #[trigger] target_control::common_fault(
                        self.max_deviation,
                        self.settle,
                        scheduling,
                        self.backend,
                        cores,
                    ),
                );
            assert(r == fault::verdict(self.fault(cores)));
        }
        r
    }
}

impl<O> Default for JointTargetControlOptions<O> {
    /// The documented starting point.
    fn default() -> (options: Self)
        ensures
            options == Self::usual(),
    {
        JointTargetControlOptions {
            limits: None,
            backend: Backend::Impedance(ImpedanceOptions::joint()),
            controller_mode: ControllerMode::JointImpedance,
            max_deviation: Double { bits: 0x3ff0_0000_0000_0000 },
            settle: Settle::default(),
            limit_rate: true,
            realtime_priority: None,
            cpu: None,
            observer: None,
        }
    }
}

/// Why a session was not started.
#[derive(Clone, Copy, PartialEq, Eq, Structural, Debug)]
pub enum StartFault {
    /// An option was refused.
    Option(OptionFault),
    /// The posture puts this joint, counted from zero, outside the arm's limits less the inset.
    Posture(usize),
}

/// Whether every joint of a configuration lies within its bounds.
pub open spec fn all_within(q: Seq<Double>, bounds: ([Double; 7], [Double; 7])) -> bool {
    forall|i: int| 0 <= i < 7 ==> #[trigger] target_control::within(q, bounds, i)
}

/// Whether a start came out so: the options are looked at first, then the posture of an impedance
/// backend, and what is left is the backend to run.
pub open spec fn started(
    fault: Option<OptionFault>,
    backend: Backend,
    bounds: ([Double; 7], [Double; 7]),
    r: Result<Backend, StartFault>,
) -> bool {
    let posture = match backend {
        Backend::Impedance(impedance) => impedance.posture,
        Backend::RobotController => None,
    };
    match fault {
        Some(fault) => r == Err::<Backend, StartFault>(StartFault::Option(fault)),
        None => match r {
            Ok(taken) => taken == backend && (posture matches Some(q) ==> all_within(q@, bounds)),
            Err(StartFault::Posture(joint)) => posture matches Some(q)
                && target_control::first_outside(q@, bounds, joint as int),
            Err(StartFault::Option(_)) => false,
        },
    }
}

impl<O> TargetControlOptions<O> {
    /// The backend to run, once the options and the posture have been looked at.
    pub fn start(&self, bounds: &([Double; 7], [Double; 7])) -> (r: Result<Backend, StartFault>)
        ensures
            exists|cores: u64|
                FEWEST_CORES <= cores <= MOST_CORES && started(
                    #[trigger] self.fault(cores),
                    self.backend,
                    *bounds,
                    r,
                ),
            self.cpu is None ==> forall|cores: u64|
                started(#[trigger] self.fault(cores), self.backend, *bounds, r),
    {
        match self.validate() {
            Err(fault) => Err(StartFault::Option(fault)),
            Ok(()) => match check_posture(&self.backend, bounds) {
                Err(joint) => Err(StartFault::Posture(joint)),
                Ok(()) => Ok(self.backend),
            },
        }
    }
}

impl<O> JointTargetControlOptions<O> {
    /// The backend to run, once the options and the posture have been looked at.
    pub fn start(&self, bounds: &([Double; 7], [Double; 7])) -> (r: Result<Backend, StartFault>)
        ensures
            exists|cores: u64|
                FEWEST_CORES <= cores <= MOST_CORES && started(
                    #[trigger] self.fault(cores),
                    self.backend,
                    *bounds,
                    r,
                ),
            self.cpu is None ==> forall|cores: u64|
                started(#[trigger] self.fault(cores), self.backend, *bounds, r),
    {
        match self.validate() {
            Err(fault) => Err(StartFault::Option(fault)),
            Ok(()) => match check_posture(&self.backend, bounds) {
                Err(joint) => Err(StartFault::Posture(joint)),
                Ok(()) => Ok(self.backend),
            },
        }
    }
}

/// A Cartesian session is accepted exactly where both budgets are usable, both guards are finite and
/// above zero, and what both interfaces share is accepted.
pub proof fn law_cartesian_options_are_accepted<O>(options: TargetControlOptions<O>, cores: u64)
    ensures
        options.fault(cores) is None <==> {
            &&& options.limits.usable()
            &&& options.rotation_limits.usable()
            &&& options.max_angular_deviation.finite() && options.max_angular_deviation.value() > 0
            &&& options.max_deviation.finite() && options.max_deviation.value() > 0
            &&& options.settle.tolerance.finite() && options.settle.tolerance.value() > 0
            &&& options.settle.cycles >= 1
            &&& options.realtime_priority matches Some(priority) ==> 1 <= priority && priority <= 99
            &&& options.cpu matches Some(cpu) ==> cpu < cores
            &&& options.backend matches Backend::Impedance(impedance) ==> impedance.fault() is None
        },
        options.fault(cores) == Some(OptionFault::Limits) ==> !options.limits.usable(),
        options.fault(cores) == Some(OptionFault::RotationLimits)
            ==> !options.rotation_limits.usable(),
        options.fault(cores) == Some(OptionFault::MaxAngularDeviation) ==> !(
        options.max_angular_deviation.finite() && options.max_angular_deviation.value() > 0),
{
    double::law_signs(options.max_angular_deviation);
    let scheduling = Scheduling { priority: options.realtime_priority, cpu: options.cpu };
    target_control::law_common_options_are_accepted(
        options.max_deviation,
        options.settle,
        scheduling,
        options.backend,
        cores,
    );
    target_control::law_common_fault_names_its_option(
        options.max_deviation,
        options.settle,
        scheduling,
        options.backend,
        cores,
    );
    if let Backend::Impedance(impedance) = options.backend {
        crate::robot::target_control::impedance::law_impedance_fault_names_its_option(impedance);
    }
}

/// A joint session is accepted exactly where the limits of every joint are usable, if they are given,
/// the guard is finite and above zero, and what both interfaces share is accepted.
pub proof fn law_joint_options_are_accepted<O>(options: JointTargetControlOptions<O>, cores: u64)
    ensures
        options.fault(cores) is None <==> {
            &&& options.limits matches Some(limits) ==> forall|i: int|
                0 <= i < 7 ==> (#[trigger] limits@[i]).usable()
            &&& options.max_deviation.finite() && options.max_deviation.value() > 0
            &&& options.settle.tolerance.finite() && options.settle.tolerance.value() > 0
            &&& options.settle.cycles >= 1
            &&& options.realtime_priority matches Some(priority) ==> 1 <= priority && priority <= 99
            &&& options.cpu matches Some(cpu) ==> cpu < cores
            &&& options.backend matches Backend::Impedance(impedance) ==> impedance.fault() is None
        },
{
    target_control::law_common_options_are_accepted(
        options.max_deviation,
        options.settle,
        Scheduling { priority: options.realtime_priority, cpu: options.cpu },
        options.backend,
        cores,
    );
}

/// A session that is started has options without a fault and a posture inside the bounds, and runs
/// the backend that was asked for. One that is not says why: the option, or the first joint of the
/// posture that is outside its bounds.
pub proof fn law_start_is_within_the_limits(
    fault: Option<OptionFault>,
    backend: Backend,
    bounds: ([Double; 7], [Double; 7]),
    r: Result<Backend, StartFault>,
)
    requires
        started(fault, backend, bounds, r),
    ensures
        fault is Some ==> r == Err::<Backend, StartFault>(StartFault::Option(fault->0)),
        r matches Ok(taken) ==> fault is None && taken == backend,
        r is Ok ==> (backend matches Backend::Impedance(law) ==> (law.posture matches Some(q)
            ==> forall|i: int|
            0 <= i < 7 ==> bounds.0@[i].value() <= (#[trigger] q@[i]).value()
                <= bounds.1@[i].value())),
        r matches Err(StartFault::Posture(joint)) ==> {
            &&& backend matches Backend::Impedance(law)
            &&& law.posture matches Some(q)
            &&& joint < 7
            &&& q@[joint as int].finite() && bounds.0@[joint as int].finite()
                && bounds.1@[joint as int].finite() ==> q@[joint as int].value()
                < bounds.0@[joint as int].value() || q@[joint as int].value()
                > bounds.1@[joint as int].value()
        },
{
    broadcast use double::group_order;

    if let Backend::Impedance(impedance) = backend {
        if let Some(q) = impedance.posture {
            if r is Ok {
                assert(fault is None);
                assert(all_within(q@, bounds));
                assert forall|i: int| 0 <= i < 7 implies bounds.0@[i].value() <= (
                #[trigger] q@[i]).value() <= bounds.1@[i].value() by {
                    assert(target_control::within(q@, bounds, i));
                }
            }
        }
    }
}

/// The whole joint limits of a version are that version's own, joint by joint: its velocity limits
/// and the accelerations and jerks that its rate limiter knows.
pub proof fn law_whole_limits_are_of_the_version(version: FciVersion, i: int)
    requires
        0 <= i < 7,
    ensures
        whole_limits(version).len() == 7,
        version is V5 ==> whole_limits(version)[i] == (OtgLimits {
            max_velocity: Double { bits: crate::rate_limiting::fer::MAX_JOINT_VELOCITY@[i] },
            max_acceleration: Double { bits: crate::rate_limiting::fer::MAX_JOINT_ACCELERATION@[i] },
            max_jerk: Double { bits: crate::rate_limiting::fer::MAX_JOINT_JERK@[i] },
        }),
        version is V10 ==> whole_limits(version)[i] == (OtgLimits {
            max_velocity: Double { bits: target_control::FR3_MAX_JOINT_VELOCITY@[i] },
            max_acceleration: Double { bits: crate::rate_limiting::MAX_JOINT_ACCELERATION@[i] },
            max_jerk: Double { bits: crate::rate_limiting::MAX_JOINT_JERK@[i] },
        }),
{
    control_loop::law_seven_of(crate::rate_limiting::fer::MAX_JOINT_VELOCITY, i);
    control_loop::law_seven_of(crate::rate_limiting::fer::MAX_JOINT_ACCELERATION, i);
    control_loop::law_seven_of(crate::rate_limiting::fer::MAX_JOINT_JERK, i);
    control_loop::law_seven_of(target_control::FR3_MAX_JOINT_VELOCITY, i);
    control_loop::law_seven_of(crate::rate_limiting::MAX_JOINT_ACCELERATION, i);
    control_loop::law_seven_of(crate::rate_limiting::MAX_JOINT_JERK, i);
}

} // verus!
