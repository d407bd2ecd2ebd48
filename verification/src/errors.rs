//! The error flags of a robot state.
use vstd::prelude::*;

verus! {

/// Number of error flags.
pub const ERROR_COUNT: usize = 41;

/// One flag per kind of robot error.
#[derive(Clone, Copy, PartialEq, Eq, Debug, Hash)]
pub struct Errors(pub [bool; 41]);

/// The name of the flag at `index`.
#[verifier::opaque]
pub open spec fn name_of(index: usize) -> Seq<char> {
    match index {
        0 => "joint_position_limits_violation"@,
        1 => "cartesian_position_limits_violation"@,
        2 => "self_collision_avoidance_violation"@,
        3 => "joint_velocity_violation"@,
        4 => "cartesian_velocity_violation"@,
        5 => "force_control_safety_violation"@,
        6 => "joint_reflex"@,
        7 => "cartesian_reflex"@,
        8 => "max_goal_pose_deviation_violation"@,
        9 => "max_path_deviation_violation"@,
        10 => "cartesian_velocity_profile_safety_violation"@,
        11 => "joint_position_motion_generator_start_pose_invalid"@,
        12 => "joint_motion_generator_position_limits_violation"@,
        13 => "joint_motion_generator_velocity_limits_violation"@,
        14 => "joint_motion_generator_velocity_discontinuity"@,
        15 => "joint_motion_generator_acceleration_discontinuity"@,
        16 => "cartesian_position_motion_generator_start_pose_invalid"@,
        17 => "cartesian_motion_generator_elbow_limit_violation"@,
        18 => "cartesian_motion_generator_velocity_limits_violation"@,
        19 => "cartesian_motion_generator_velocity_discontinuity"@,
        20 => "cartesian_motion_generator_acceleration_discontinuity"@,
        21 => "cartesian_motion_generator_elbow_sign_inconsistent"@,
        22 => "cartesian_motion_generator_start_elbow_invalid"@,
        23 => "cartesian_motion_generator_joint_position_limits_violation"@,
        24 => "cartesian_motion_generator_joint_velocity_limits_violation"@,
        25 => "cartesian_motion_generator_joint_velocity_discontinuity"@,
        26 => "cartesian_motion_generator_joint_acceleration_discontinuity"@,
        27 => "cartesian_position_motion_generator_invalid_frame"@,
        28 => "force_controller_desired_force_tolerance_violation"@,
        29 => "controller_torque_discontinuity"@,
        30 => "start_elbow_sign_inconsistent"@,
        31 => "communication_constraints_violation"@,
        32 => "power_limit_violation"@,
        33 => "joint_p2p_insufficient_torque_for_planning"@,
        34 => "tau_j_range_violation"@,
        35 => "instability_detected"@,
        36 => "joint_move_in_wrong_direction"@,
        37 => "cartesian_spline_motion_generator_violation"@,
        38 => "joint_via_motion_generator_planning_joint_limit_violation"@,
        39 => "base_acceleration_initialization_timeout"@,
        _ => "base_acceleration_invalid_reading"@,
    }
}

/// The name of the flag at `index`.
pub fn error_name(index: usize) -> (name: &'static str)
    requires
        index < ERROR_COUNT,
    ensures
        name@ == name_of(index),
{
    proof {
        reveal(name_of);
    }
    match index {
        0 => "joint_position_limits_violation",
        1 => "cartesian_position_limits_violation",
        2 => "self_collision_avoidance_violation",
        3 => "joint_velocity_violation",
        4 => "cartesian_velocity_violation",
        5 => "force_control_safety_violation",
        6 => "joint_reflex",
        7 => "cartesian_reflex",
        8 => "max_goal_pose_deviation_violation",
        9 => "max_path_deviation_violation",
        10 => "cartesian_velocity_profile_safety_violation",
        11 => "joint_position_motion_generator_start_pose_invalid",
        12 => "joint_motion_generator_position_limits_violation",
        13 => "joint_motion_generator_velocity_limits_violation",
        14 => "joint_motion_generator_velocity_discontinuity",
        15 => "joint_motion_generator_acceleration_discontinuity",
        16 => "cartesian_position_motion_generator_start_pose_invalid",
        17 => "cartesian_motion_generator_elbow_limit_violation",
        18 => "cartesian_motion_generator_velocity_limits_violation",
        19 => "cartesian_motion_generator_velocity_discontinuity",
        20 => "cartesian_motion_generator_acceleration_discontinuity",
        21 => "cartesian_motion_generator_elbow_sign_inconsistent",
        22 => "cartesian_motion_generator_start_elbow_invalid",
        23 => "cartesian_motion_generator_joint_position_limits_violation",
        24 => "cartesian_motion_generator_joint_velocity_limits_violation",
        25 => "cartesian_motion_generator_joint_velocity_discontinuity",
        26 => "cartesian_motion_generator_joint_acceleration_discontinuity",
        27 => "cartesian_position_motion_generator_invalid_frame",
        28 => "force_controller_desired_force_tolerance_violation",
        29 => "controller_torque_discontinuity",
        30 => "start_elbow_sign_inconsistent",
        31 => "communication_constraints_violation",
        32 => "power_limit_violation",
        33 => "joint_p2p_insufficient_torque_for_planning",
        34 => "tau_j_range_violation",
        35 => "instability_detected",
        36 => "joint_move_in_wrong_direction",
        37 => "cartesian_spline_motion_generator_violation",
        38 => "joint_via_motion_generator_planning_joint_limit_violation",
        39 => "base_acceleration_initialization_timeout",
        _ => "base_acceleration_invalid_reading",
    }
}

/// Whether any of the first `n` flags is set.
pub open spec fn any_set(flags: Seq<bool>, n: nat) -> bool {
    exists|i: int| 0 <= i < n && flags[i]
}

/// The quoted names of the set flags among the first `n`, in order, separated by commas.
pub open spec fn listed(flags: Seq<bool>, n: nat) -> Seq<char>
    decreases n,
{
    if n == 0 {
        Seq::empty()
    } else {
        let before = listed(flags, (n - 1) as nat);
        if flags[n - 1] {
            let separator = if any_set(flags, (n - 1) as nat) {
                ", "@
            } else {
                Seq::empty()
            };
            before + separator + "\""@ + name_of((n - 1) as usize) + "\""@
        } else {
            before
        }
    }
}

impl Default for Errors {
    /// No flag is set.
    fn default() -> (r: Errors)
        ensures
            r == Errors::none(),
    {
        Errors([false; 41])
    }
}

impl Errors {
    /// No flag is set.
    pub open spec fn none() -> Errors {
        Errors(vstd::array::spec_array_fill_for_copy_type(false))
    }

    /// The flags as text: a bracketed list of the quoted names of those that are set.
    pub open spec fn shown(self) -> Seq<char> {
        "["@ + listed(self.0@, ERROR_COUNT as nat) + "]"@
    }

    /// The flags as text.
    pub fn text(&self) -> (s: String)
        ensures
            s@ == self.shown(),
    {
        let mut s = String::from_str("[");
        let mut any = false;
        let mut i: usize = 0;
        while i < ERROR_COUNT
            invariant
                i <= ERROR_COUNT,
                self.0@.len() == ERROR_COUNT,
                any == any_set(self.0@, i as nat),
                s@ == "["@ + listed(self.0@, i as nat),
            decreases ERROR_COUNT - i,
        {
            let ghost before = s@;
            if self.0[i] {
                if any {
                    s.append(", ");
                }
                s.append("\"");
                s.append(error_name(i));
                s.append("\"");
                any = true;
                assert(self.0@[i as int]);
            }
            proof {
                assert(s@ =~= "["@ + listed(self.0@, (i + 1) as nat));
                if any_set(self.0@, (i + 1) as nat) {
                    let k = choose|k: int| 0 <= k < i + 1 && self.0@[k];
                    if k < i {
                        assert(any_set(self.0@, i as nat));
                    }
                }
                if any_set(self.0@, i as nat) {
                    let k = choose|k: int| 0 <= k < i && self.0@[k];
                    assert(0 <= k < i + 1 && self.0@[k]);
                }
            }
            i = i + 1;
        }
        s.append("]");
        s
    }

    /// Whether the flag called `name` is set; false when there is no flag of that name.
    pub fn get(&self, name: &str) -> (b: bool)
        ensures
            b == exists|i: usize| i < ERROR_COUNT && #[trigger] name_of(i) == name@ && self.0@[i as int],
    {
        let mut i: usize = 0;
        while i < ERROR_COUNT
            invariant
                i <= ERROR_COUNT,
                self.0@.len() == ERROR_COUNT,
                forall|j: usize| j < i ==> !(#[trigger] name_of(j) == name@ && self.0@[j as int]),
            decreases ERROR_COUNT - i,
        {
            let own = String::from_str(error_name(i));
            if self.0[i] && own == String::from_str(name) {
                return true;
            }
            i = i + 1;
        }
        false
    }
}

/// The list of the set flags holds the quoted name of each of them.
proof fn lemma_set_flags_are_listed(flags: Seq<bool>, n: nat, i: int)
    requires
        0 <= i < n,
        flags[i],
    ensures
        crate::text::mentions(listed(flags, n), "\""@ + name_of(i as usize) + "\""@),
    decreases n,
{
    let quoted = "\""@ + name_of(i as usize) + "\""@;
    let before = listed(flags, (n - 1) as nat);
    let whole = listed(flags, n);
    if i == n - 1 {
        let at = whole.len() - quoted.len();
        assert(whole.subrange(at, at + quoted.len()) =~= quoted);
    } else {
        lemma_set_flags_are_listed(flags, (n - 1) as nat, i);
        let at = choose|start: int|
            0 <= start && start + quoted.len() <= before.len() && #[trigger] before.subrange(
                start,
                start + quoted.len(),
            ) == quoted;
        assert(whole.subrange(at, at + quoted.len()) =~= before.subrange(at, at + quoted.len()));
    }
}

/// A list of flags of which none is set is empty, and of which one is, is not.
proof fn lemma_list_is_empty_without_flags(flags: Seq<bool>, n: nat)
    ensures
        listed(flags, n).len() == 0 <==> !any_set(flags, n),
    decreases n,
{
    reveal_strlit("\"");
    if n > 0 {
        lemma_list_is_empty_without_flags(flags, (n - 1) as nat);
        if flags[n - 1] {
            assert(any_set(flags, n));
        } else if any_set(flags, n) {
            let i = choose|i: int| 0 <= i < n && flags[i];
            assert(0 <= i < n - 1);
            assert(any_set(flags, (n - 1) as nat));
        } else if any_set(flags, (n - 1) as nat) {
            let i = choose|i: int| 0 <= i < n - 1 && flags[i];
            assert(0 <= i < n && flags[i]);
        }
    }
}

/// Errors are shown in square brackets, with the quoted name of each one that is set between them,
/// and with nothing between them exactly when none is.
pub proof fn law_errors_are_shown(errors: Errors, i: int)
    ensures
        errors.shown().len() >= 2,
        errors.shown()[0] == '[',
        errors.shown().last() == ']',
        errors.shown().len() == 2 <==> forall|k: int| 0 <= k < 41 ==> !#[trigger] errors.0@[k],
        0 <= i < 41 && errors.0@[i] ==> crate::text::mentions(
            errors.shown(),
            "\""@ + name_of(i as usize) + "\""@,
        ),
{
    reveal_strlit("[");
    reveal_strlit("]");
    let list = listed(errors.0@, 41);
    let shown = errors.shown();
    lemma_list_is_empty_without_flags(errors.0@, 41);
    if any_set(errors.0@, 41) {
        let k = choose|k: int| 0 <= k < 41 && errors.0@[k];
        assert(errors.0@[k]);
    }
    if exists|k: int| 0 <= k < 41 && #[trigger] errors.0@[k] {
        assert(any_set(errors.0@, 41));
    }
    if 0 <= i < 41 && errors.0@[i] {
        lemma_set_flags_are_listed(errors.0@, 41, i);
        let quoted = "\""@ + name_of(i as usize) + "\""@;
        let at = choose|start: int|
            0 <= start && start + quoted.len() <= list.len() && #[trigger] list.subrange(
                start,
                start + quoted.len(),
            ) == quoted;
        assert(shown.subrange(at + 1, at + 1 + quoted.len()) =~= list.subrange(
            at,
            at + quoted.len(),
        ));
    }
}

} // verus!
