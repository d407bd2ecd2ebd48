//! The torque backend's impedance law: its gains, its options and what is refused of them.
//!
//! ```text
//! Kp  = J^T Kx J + diag(Kq)        Kd = J^T Kxd J + diag(Kqd)
//! tau = Kp (q_goal - q) + Kd (dq_goal - dq) + coriolis        clamped to torque_limits
//! ```
use crate::double::Double;
use crate::robot::control_loop;
use crate::robot::control_loop::seven;
use crate::robot::target_control::fault;
use crate::robot::target_control::fault::OptionFault;
use crate::robot::target_control::ik::IkOptions;
use crate::double;
use vstd::prelude::*;

verus! {

/// The bit patterns of six Cartesian stiffnesses and dampings and seven joint stiffnesses and
/// dampings.
pub type GainTable = ([u64; 6], [u64; 6], [u64; 7], [u64; 7]);

/// The stiffness and damping of the law, all finite and non-negative.
#[derive(Clone, Copy, PartialEq, Debug)]
pub struct ImpedanceGains {
    /// `Kx`, base frame, translation first: N/m, then Nm/rad.
    pub cartesian_stiffness: [Double; 6],
    /// `Kxd`, base frame, translation first: N s/m, then Nm s/rad.
    pub cartesian_damping: [Double; 6],
    /// `Kq`, per joint, Nm/rad.
    pub joint_stiffness: [Double; 7],
    /// `Kqd`, per joint, Nm s/rad.
    pub joint_damping: [Double; 7],
}

/// Six numbers from their bit patterns.
pub open spec fn six_of(bits: [u64; 6]) -> [Double; 6] {
    [
        Double { bits: bits[0] },
        Double { bits: bits[1] },
        Double { bits: bits[2] },
        Double { bits: bits[3] },
        Double { bits: bits[4] },
        Double { bits: bits[5] },
    ]
}

/// Six numbers from their bit patterns.
pub fn six(bits: [u64; 6]) -> (r: [Double; 6])
    ensures
        r == six_of(bits),
{
    [
        Double { bits: bits[0] },
        Double { bits: bits[1] },
        Double { bits: bits[2] },
        Double { bits: bits[3] },
        Double { bits: bits[4] },
        Double { bits: bits[5] },
    ]
}

/// Every number is finite and not below zero.
pub open spec fn all_non_negative(values: Seq<Double>) -> bool {
    forall|i: int| 0 <= i < values.len() ==> (#[trigger] values[i]).non_negative()
}

/// Whether every number is finite and not below zero.
fn are_non_negative(values: &[Double]) -> (b: bool)
    ensures
        b == all_non_negative(values@),
{
    let mut i: usize = 0;
    while i < values.len()
        invariant
            i <= values@.len(),
            forall|j: int| 0 <= j < i ==> (#[trigger] values@[j]).non_negative(),
        decreases values@.len() - i,
    {
        if !values[i].is_non_negative() {
            assert(!values@[i as int].non_negative());
            return false;
        }
        i = i + 1;
    }
    true
}

impl ImpedanceGains {
    /// For a Cartesian target: a medium spring (750 N/m) and soft joint springs that settle the
    /// redundancy, with a damping ratio of about 0.8 at the ready pose.
    pub const CARTESIAN: GainTable = (
        [0x4087_7000_0000_0000,
         0x4087_7000_0000_0000,
         0x4087_7000_0000_0000,
         0x402e_0000_0000_0000,
         0x402e_0000_0000_0000,
         0x402e_0000_0000_0000],
        [0x4049_0000_0000_0000,
         0x4049_0000_0000_0000,
         0x4056_8000_0000_0000,
         0x4000_0000_0000_0000,
         0x4000_0000_0000_0000,
         0x4000_0000_0000_0000],
        [0x4044_0000_0000_0000,
         0x403e_0000_0000_0000,
         0x4049_0000_0000_0000,
         0x4039_0000_0000_0000,
         0x4041_8000_0000_0000,
         0x4039_0000_0000_0000,
         0x4024_0000_0000_0000],
        [0x4010_0000_0000_0000,
         0x4018_0000_0000_0000,
         0x4014_0000_0000_0000,
         0x4014_0000_0000_0000,
         0x4008_0000_0000_0000,
         0x4000_0000_0000_0000,
         0x3ff0_0000_0000_0000],
    );

    /// DROID's production gains as they are.
    pub const DROID: GainTable = (
        [0x4087_7000_0000_0000,
         0x4087_7000_0000_0000,
         0x4087_7000_0000_0000,
         0x402e_0000_0000_0000,
         0x402e_0000_0000_0000,
         0x402e_0000_0000_0000],
        [0x4042_8000_0000_0000,
         0x4042_8000_0000_0000,
         0x4042_8000_0000_0000,
         0x4000_0000_0000_0000,
         0x4000_0000_0000_0000,
         0x4000_0000_0000_0000],
        [0x4044_0000_0000_0000,
         0x403e_0000_0000_0000,
         0x4049_0000_0000_0000,
         0x4039_0000_0000_0000,
         0x4041_8000_0000_0000,
         0x4039_0000_0000_0000,
         0x4024_0000_0000_0000],
        [0x4010_0000_0000_0000,
         0x4018_0000_0000_0000,
         0x4014_0000_0000_0000,
         0x4014_0000_0000_0000,
         0x4008_0000_0000_0000,
         0x4000_0000_0000_0000,
         0x3ff0_0000_0000_0000],
    );

    /// A joint PD for a joint target.
    pub const JOINT: GainTable = (
        [0x0000_0000_0000_0000,
         0x0000_0000_0000_0000,
         0x0000_0000_0000_0000,
         0x0000_0000_0000_0000,
         0x0000_0000_0000_0000,
         0x0000_0000_0000_0000],
        [0x0000_0000_0000_0000,
         0x0000_0000_0000_0000,
         0x0000_0000_0000_0000,
         0x0000_0000_0000_0000,
         0x0000_0000_0000_0000,
         0x0000_0000_0000_0000],
        [0x4082_c000_0000_0000,
         0x4082_c000_0000_0000,
         0x4082_c000_0000_0000,
         0x4082_c000_0000_0000,
         0x406f_4000_0000_0000,
         0x4062_c000_0000_0000,
         0x4049_0000_0000_0000],
        [0x4049_0000_0000_0000,
         0x4049_0000_0000_0000,
         0x4049_0000_0000_0000,
         0x4049_0000_0000_0000,
         0x403e_0000_0000_0000,
         0x4039_0000_0000_0000,
         0x402e_0000_0000_0000],
    );

    /// The gains of a table.
    pub open spec fn tabled(table: GainTable) -> ImpedanceGains {
        ImpedanceGains {
            cartesian_stiffness: six_of(table.0),
            cartesian_damping: six_of(table.1),
            joint_stiffness: control_loop::seven_of(table.2),
            joint_damping: control_loop::seven_of(table.3),
        }
    }

    /// The gains of a table.
    pub fn of(table: GainTable) -> (gains: ImpedanceGains)
        ensures
            gains == Self::tabled(table),
    {
        ImpedanceGains {
            cartesian_stiffness: six(table.0),
            cartesian_damping: six(table.1),
            joint_stiffness: seven(table.2),
            joint_damping: seven(table.3),
        }
    }

    /// What is wrong with the gains: one that is not finite or negative.
    pub open spec fn fault(self) -> Option<OptionFault> {
        if all_non_negative(self.cartesian_stiffness@) && all_non_negative(self.cartesian_damping@)
            && all_non_negative(self.joint_stiffness@) && all_non_negative(self.joint_damping@) {
            None
        } else {
            Some(OptionFault::Gains)
        }
    }

    /// Checks the gains.
    pub fn validate(&self) -> (r: Result<(), OptionFault>)
        ensures
            r == fault::verdict(self.fault()),
    {
        if are_non_negative(&self.cartesian_stiffness) && are_non_negative(&self.cartesian_damping)
            && are_non_negative(&self.joint_stiffness) && are_non_negative(&self.joint_damping) {
            Ok(())
        } else {
            Err(OptionFault::Gains)
        }
    }
}

/// How far the desired state may run ahead of the measured one. Every cycle the generator is
/// anchored on the measured state pulled toward the previous desired by at most this.
#[derive(Clone, Copy, PartialEq, Eq, Structural, Debug)]
pub struct Leash {
    /// Cartesian interface, translation, m.
    pub translation: Double,
    /// Cartesian interface, rotation, rad.
    pub rotation: Double,
    /// Joint interface, per joint, rad.
    pub joint: Double,
}

impl Leash {
    /// 0.025 m, 0.15 rad, and 0.1 rad per joint.
    pub open spec fn usual() -> Leash {
        Leash {
            translation: Double { bits: 0x3f99_9999_9999_999a },
            rotation: Double { bits: 0x3fc3_3333_3333_3333 },
            joint: Double { bits: 0x3fb9_9999_9999_999a },
        }
    }
}

impl Default for Leash {
    /// 0.025 m, 0.15 rad, and 0.1 rad per joint.
    fn default() -> (leash: Leash)
        ensures
            leash == Leash::usual(),
    {
        Leash {
            translation: Double { bits: 0x3f99_9999_9999_999a },
            rotation: Double { bits: 0x3fc3_3333_3333_3333 },
            joint: Double { bits: 0x3fb9_9999_9999_999a },
        }
    }
}

/// Options of [`Backend::Impedance`].
#[derive(Clone, Copy, PartialEq, Debug)]
pub struct ImpedanceOptions {
    /// The gains of the law.
    pub gains: ImpedanceGains,
    /// Per-joint clamp on the commanded torque, Nm, at most [`RATED_TORQUES`].
    pub torque_limits: [Double; 7],
    /// Cutoff, Hz, of the first-order low-pass on the commanded torque.
    pub cutoff_frequency: Double,
    /// The configuration the Cartesian nullspace bias pulls toward; `None` is the configuration
    /// the loop starts in. Ignored by the joint interface.
    pub posture: Option<[Double; 7]>,
    /// The Cartesian interface's inverse kinematics. Ignored by the joint interface.
    pub ik: IkOptions,
    /// Whether the damping acts on the velocity error; `false` damps the absolute velocity.
    pub velocity_feedforward: bool,
    /// How far the desired state may run ahead of the measured one.
    pub leash: Leash,
    /// Whether the joint gains are projected into the nullspace of the Jacobian.
    pub project_joint_gains: bool,
    /// How far, rad, inside the joint position limits the joint goal stops.
    pub joint_position_margin: Double,
}

/// The clamp unless told otherwise, as bit patterns: 86 Nm on joints 1 to 4, 11.5 on 5 to 7.
pub const TORQUE_LIMITS: [u64; 7] = [
        0x4055_8000_0000_0000,
        0x4055_8000_0000_0000,
        0x4055_8000_0000_0000,
        0x4055_8000_0000_0000,
        0x4027_0000_0000_0000,
        0x4027_0000_0000_0000,
        0x4027_0000_0000_0000,
    ];

/// The rated joint torques, Nm, as bit patterns: 87 on joints 1 to 4, 12 on 5 to 7.
pub const RATED_TORQUES: [u64; 7] = [
        0x4055_c000_0000_0000,
        0x4055_c000_0000_0000,
        0x4055_c000_0000_0000,
        0x4055_c000_0000_0000,
        0x4028_0000_0000_0000,
        0x4028_0000_0000_0000,
        0x4028_0000_0000_0000,
    ];

/// The distance, rad, the joint goal keeps from the joint position limits: 0.05, as a bit pattern.
pub const DEFAULT_JOINT_POSITION_MARGIN: u64 = 0x3fa9_9999_9999_999a;

/// Whether every torque is positive and at most the rated one.
pub open spec fn within_rated(torques: Seq<Double>) -> bool {
    forall|i: int|
        0 <= i < 7 ==> (#[trigger] torques[i]).positive() && torques[i].le(
            Double { bits: RATED_TORQUES@[i] },
        )
}

/// Whether every torque is positive and at most the rated one.
fn are_within_rated(torques: &[Double; 7]) -> (b: bool)
    ensures
        b == within_rated(torques@),
{
    let mut i: usize = 0;
    while i < 7
        invariant
            i <= 7,
            forall|j: int|
                0 <= j < i ==> (#[trigger] torques@[j]).positive() && torques@[j].le(
                    Double { bits: RATED_TORQUES@[j] },
                ),
        decreases 7 - i,
    {
        if !(torques[i].is_positive() && torques[i].less_or_equal(
            Double { bits: RATED_TORQUES[i] },
        )) {
            assert(!(torques@[i as int].positive() && torques@[i as int].le(
                Double { bits: RATED_TORQUES@[i as int] },
            )));
            return false;
        }
        i = i + 1;
    }
    true
}

/// Every number is finite.
fn are_finite(values: &[Double; 7]) -> (b: bool)
    ensures
        b == crate::control_types::all_finite(values@),
{
    let mut i: usize = 0;
    while i < 7
        invariant
            i <= 7,
            forall|j: int| 0 <= j < i ==> (#[trigger] values@[j]).finite(),
        decreases 7 - i,
    {
        if !values[i].is_finite() {
            assert(!values@[i as int].finite());
            return false;
        }
        i = i + 1;
    }
    true
}

impl ImpedanceOptions {
    /// The usual options with these gains.
    pub open spec fn usual(gains: ImpedanceGains) -> ImpedanceOptions {
        ImpedanceOptions {
            gains,
            torque_limits: control_loop::seven_of(TORQUE_LIMITS),
            cutoff_frequency: Double { bits: 0x4059_0000_0000_0000 },
            posture: None,
            ik: IkOptions::usual(),
            velocity_feedforward: true,
            leash: Leash::usual(),
            project_joint_gains: false,
            joint_position_margin: Double { bits: DEFAULT_JOINT_POSITION_MARGIN },
        }
    }

    /// The defaults of the Cartesian interface: [`ImpedanceGains::CARTESIAN`].
    pub fn cartesian() -> (options: Self)
        ensures
            options == Self::usual(ImpedanceGains::tabled(ImpedanceGains::CARTESIAN)),
    {
        Self::with_default_gains(ImpedanceGains::of(ImpedanceGains::CARTESIAN))
    }

    /// The defaults of the joint interface: [`ImpedanceGains::JOINT`].
    pub fn joint() -> (options: Self)
        ensures
            options == Self::usual(ImpedanceGains::tabled(ImpedanceGains::JOINT)),
    {
        Self::with_default_gains(ImpedanceGains::of(ImpedanceGains::JOINT))
    }

    fn with_default_gains(gains: ImpedanceGains) -> (options: Self)
        ensures
            options == Self::usual(gains),
    {
        ImpedanceOptions {
            gains,
            torque_limits: seven(TORQUE_LIMITS),
            cutoff_frequency: Double { bits: 0x4059_0000_0000_0000 },
            posture: None,
            ik: IkOptions::default(),
            velocity_feedforward: true,
            leash: Leash::default(),
            project_joint_gains: false,
            joint_position_margin: Double { bits: DEFAULT_JOINT_POSITION_MARGIN },
        }
    }

    /// Sets the gains.
    pub fn with_gains(self, gains: ImpedanceGains) -> (options: Self)
        ensures
            options == (ImpedanceOptions { gains, ..self }),
    {
        ImpedanceOptions { gains, ..self }
    }

    /// Sets the per-joint torque clamp, Nm.
    pub fn with_torque_limits(self, torque_limits: [Double; 7]) -> (options: Self)
        ensures
            options == (ImpedanceOptions { torque_limits, ..self }),
    {
        ImpedanceOptions { torque_limits, ..self }
    }

    /// Sets the torque low-pass cutoff, Hz.
    pub fn with_cutoff_frequency(self, cutoff_frequency: Double) -> (options: Self)
        ensures
            options == (ImpedanceOptions { cutoff_frequency, ..self }),
    {
        ImpedanceOptions { cutoff_frequency, ..self }
    }

    /// Sets the posture (`None`: the start configuration).
    pub fn with_posture(self, posture: Option<[Double; 7]>) -> (options: Self)
        ensures
            options == (ImpedanceOptions { posture, ..self }),
    {
        ImpedanceOptions { posture, ..self }
    }

    /// Sets the options of the inverse kinematics.
    pub fn with_ik(self, ik: IkOptions) -> (options: Self)
        ensures
            options == (ImpedanceOptions { ik, ..self }),
    {
        ImpedanceOptions { ik, ..self }
    }

    /// Switches the damping between the velocity error (`true`) and the absolute velocity.
    pub fn with_velocity_feedforward(self, velocity_feedforward: bool) -> (options: Self)
        ensures
            options == (ImpedanceOptions { velocity_feedforward, ..self }),
    {
        ImpedanceOptions { velocity_feedforward, ..self }
    }

    /// Sets the leash.
    pub fn with_leash(self, leash: Leash) -> (options: Self)
        ensures
            options == (ImpedanceOptions { leash, ..self }),
    {
        ImpedanceOptions { leash, ..self }
    }

    /// Switches the projection of the joint gains into the Jacobian's nullspace.
    pub fn with_project_joint_gains(self, project_joint_gains: bool) -> (options: Self)
        ensures
            options == (ImpedanceOptions { project_joint_gains, ..self }),
    {
        ImpedanceOptions { project_joint_gains, ..self }
    }

    /// What is wrong with the options, the first in the order of the message texts: a gain that is
    /// not finite or negative, a torque limit, cutoff frequency or leash that is not finite and
    /// positive (or a torque limit above the rated torque), a posture that is not finite, or invalid
    /// [`IkOptions`].
    pub open spec fn fault(self) -> Option<OptionFault> {
        if self.gains.fault() is Some {
            self.gains.fault()
        } else if !within_rated(self.torque_limits@) {
            Some(OptionFault::TorqueLimits)
        } else if !self.cutoff_frequency.positive() {
            Some(OptionFault::CutoffFrequency)
        } else if !(self.leash.translation.positive() && self.leash.rotation.positive()
            && self.leash.joint.positive()) {
            Some(OptionFault::Leash)
        } else if self.posture matches Some(posture) && !crate::control_types::all_finite(posture@) {
            Some(OptionFault::Posture)
        } else {
            self.ik.fault()
        }
    }

    /// Checks the options without starting anything.
    pub fn validate(&self) -> (r: Result<(), OptionFault>)
        ensures
            r == fault::verdict(self.fault()),
    {
        match self.gains.validate() {
            Ok(()) => {},
            Err(fault) => {
                return Err(fault);
            },
        }
        if !are_within_rated(&self.torque_limits) {
            return Err(OptionFault::TorqueLimits);
        }
        if !self.cutoff_frequency.is_positive() {
            return Err(OptionFault::CutoffFrequency);
        }
        if !(self.leash.translation.is_positive() && self.leash.rotation.is_positive()
            && self.leash.joint.is_positive()) {
            return Err(OptionFault::Leash);
        }
        if let Some(posture) = self.posture {
            if !are_finite(&posture) {
                return Err(OptionFault::Posture);
            }
        }
        self.ik.validate()
    }
}

/// What tracks the target: the robot's controller or torques of the impedance law.
#[derive(Clone, Copy, PartialEq, Debug)]
pub enum Backend {
    /// The robot's own impedance controller tracks a pose or joint-position stream.
    RobotController,
    /// Torques from the impedance law.
    Impedance(ImpedanceOptions),
}

/// The options of the impedance law are accepted exactly where every gain is finite and not negative,
/// every torque limit is above zero and at most the rated torque of its joint (87 Nm on the first four
/// and 12 Nm on the others), the cutoff and the
/// three leashes are finite and above zero, the posture is finite where there is one, and the inverse
/// kinematics can run.
pub proof fn law_impedance_options_are_accepted(options: ImpedanceOptions)
    ensures
        options.fault() is None <==> {
            &&& forall|i: int|
                0 <= i < 6 ==> (#[trigger] options.gains.cartesian_stiffness@[i]).finite()
                    && options.gains.cartesian_stiffness@[i].value() >= 0
            &&& forall|i: int|
                0 <= i < 6 ==> (#[trigger] options.gains.cartesian_damping@[i]).finite()
                    && options.gains.cartesian_damping@[i].value() >= 0
            &&& forall|i: int|
                0 <= i < 7 ==> (#[trigger] options.gains.joint_stiffness@[i]).finite()
                    && options.gains.joint_stiffness@[i].value() >= 0
            &&& forall|i: int|
                0 <= i < 7 ==> (#[trigger] options.gains.joint_damping@[i]).finite()
                    && options.gains.joint_damping@[i].value() >= 0
            &&& forall|i: int|
                0 <= i < 7 ==> (#[trigger] options.torque_limits@[i]).finite()
                    && options.torque_limits@[i].value() > 0 && options.torque_limits@[i].value() <= (
                Double {
                    bits: if i < 4 {
                        0x4055_c000_0000_0000
                    } else {
                        0x4028_0000_0000_0000
                    },
                }).value()
            &&& options.cutoff_frequency.finite() && options.cutoff_frequency.value() > 0
            &&& options.leash.translation.finite() && options.leash.translation.value() > 0
            &&& options.leash.rotation.finite() && options.leash.rotation.value() > 0
            &&& options.leash.joint.finite() && options.leash.joint.value() > 0
            &&& options.posture matches Some(q) ==> forall|i: int|
                0 <= i < 7 ==> (#[trigger] q@[i]).finite()
            &&& options.ik.fault() is None
        },
{
    broadcast use {double::group_order, double::law_non_negative_is_of_values};

    double::law_signs(options.cutoff_frequency);
    double::law_signs(options.leash.translation);
    double::law_signs(options.leash.rotation);
    double::law_signs(options.leash.joint);
    assert forall|i: int| 0 <= i < 7 implies (#[trigger] options.torque_limits@[i]).positive() == (
    options.torque_limits@[i].finite() && options.torque_limits@[i].value() > 0) && !(Double {
        bits: RATED_TORQUES@[i],
    }).nan() by {
        double::law_signs(options.torque_limits@[i]);
        lemma_rated_torques_are_numbers(i);
    }
    let gains = options.gains;
    assert(all_non_negative(gains.cartesian_stiffness@) <==> forall|i: int|
        0 <= i < 6 ==> (#[trigger] gains.cartesian_stiffness@[i]).finite()
            && gains.cartesian_stiffness@[i].value() >= 0);
    assert(all_non_negative(gains.cartesian_damping@) <==> forall|i: int|
        0 <= i < 6 ==> (#[trigger] gains.cartesian_damping@[i]).finite()
            && gains.cartesian_damping@[i].value() >= 0);
    assert(all_non_negative(gains.joint_stiffness@) <==> forall|i: int|
        0 <= i < 7 ==> (#[trigger] gains.joint_stiffness@[i]).finite()
            && gains.joint_stiffness@[i].value() >= 0);
    assert(all_non_negative(gains.joint_damping@) <==> forall|i: int|
        0 <= i < 7 ==> (#[trigger] gains.joint_damping@[i]).finite()
            && gains.joint_damping@[i].value() >= 0);
    assert(within_rated(options.torque_limits@) <==> forall|i: int|
        0 <= i < 7 ==> (#[trigger] options.torque_limits@[i]).finite()
            && options.torque_limits@[i].value() > 0 && options.torque_limits@[i].value() <= (Double {
            bits: RATED_TORQUES@[i],
        }).value());
}

/// The rated torques are numbers.
proof fn lemma_rated_torques_are_numbers(i: int)
    requires
        0 <= i < 7,
    ensures
        !(Double { bits: RATED_TORQUES@[i] }).nan(),
{
    assert(RATED_TORQUES@[0] == 0x4055_c000_0000_0000);
    assert(RATED_TORQUES@[1] == 0x4055_c000_0000_0000);
    assert(RATED_TORQUES@[2] == 0x4055_c000_0000_0000);
    assert(RATED_TORQUES@[3] == 0x4055_c000_0000_0000);
    assert(RATED_TORQUES@[4] == 0x4028_0000_0000_0000);
    assert(RATED_TORQUES@[5] == 0x4028_0000_0000_0000);
    assert(RATED_TORQUES@[6] == 0x4028_0000_0000_0000);
}

/// Each fault of the impedance law names an option that is at fault, and is one of the impedance
/// law's own.
pub proof fn law_impedance_fault_names_its_option(options: ImpedanceOptions)
    ensures
        match options.fault() {
            None => true,
            Some(OptionFault::Gains) => options.gains.fault() is Some,
            Some(OptionFault::TorqueLimits) => exists|i: int|
                0 <= i < 7 && !((#[trigger] options.torque_limits@[i]).positive()
                    && options.torque_limits@[i].le(Double { bits: RATED_TORQUES@[i] })),
            Some(OptionFault::CutoffFrequency) => !(options.cutoff_frequency.finite()
                && options.cutoff_frequency.value() > 0),
            Some(OptionFault::Leash) => !(options.leash.translation.positive()
                && options.leash.rotation.positive() && options.leash.joint.positive()),
            Some(OptionFault::Posture) => options.posture matches Some(q) && exists|i: int|
                0 <= i < 7 && !(#[trigger] q@[i]).finite(),
            Some(OptionFault::Ik) => options.ik.fault() is Some,
            Some(_) => false,
        },
{
    double::law_signs(options.cutoff_frequency);
    if options.fault() == Some(OptionFault::TorqueLimits) {
        assert(!within_rated(options.torque_limits@));
    }
}

} // verus!
