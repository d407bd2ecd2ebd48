//! A robot state, as far as this crate reads it.
use crate::double::Double;
use crate::duration::Duration;
use crate::errors::Errors;
use crate::wire::modes::RobotMode;
use vstd::prelude::*;

verus! {

/// One sample of the robot's state stream.
#[derive(Clone, Copy, PartialEq, Debug)]
pub struct RobotState {
    /// Robot time of the sample.
    pub time: Duration,
    /// What the robot is doing.
    pub robot_mode: RobotMode,
    /// Measured end effector pose in base frame, column-major.
    pub O_T_EE: [Double; 16],
    /// Last desired end effector pose of motion generation, column-major.
    pub O_T_EE_d: [Double; 16],
    /// Last commanded end effector pose, column-major.
    pub O_T_EE_c: [Double; 16],
    /// End effector frame in flange frame, column-major.
    pub F_T_EE: [Double; 16],
    /// Stiffness frame in end effector frame, column-major.
    pub EE_T_K: [Double; 16],
    /// Last commanded end effector twist.
    pub O_dP_EE_c: [Double; 6],
    /// Last commanded end effector acceleration.
    pub O_ddP_EE_c: [Double; 6],
    /// Last commanded elbow.
    pub elbow_c: [Double; 2],
    /// Last commanded elbow velocity.
    pub delbow_c: [Double; 2],
    /// Last commanded elbow acceleration.
    pub ddelbow_c: [Double; 2],
    /// Measured joint positions.
    pub q: [Double; 7],
    /// Desired joint positions.
    pub q_d: [Double; 7],
    /// Measured joint velocities.
    pub dq: [Double; 7],
    /// Desired joint velocities.
    pub dq_d: [Double; 7],
    /// Desired joint accelerations.
    pub ddq_d: [Double; 7],
    /// Desired joint torques without gravity.
    pub tau_J_d: [Double; 7],
    /// The errors that aborted the previous motion.
    pub last_motion_errors: Errors,
    /// Share of the last 100 control commands that were received in time.
    pub control_command_success_rate: Double,
}

/// The commands of one control cycle, as they are kept for the log.
#[derive(Clone, Copy, PartialEq, Debug)]
pub struct RobotCommandLog {
    /// Commanded joint positions.
    pub q_c: [Double; 7],
    /// Commanded joint velocities.
    pub dq_c: [Double; 7],
    /// Commanded end effector pose, column-major.
    pub O_T_EE_c: [Double; 16],
    /// Commanded end effector twist.
    pub O_dP_EE_c: [Double; 6],
    /// Commanded elbow.
    pub elbow_c: [Double; 2],
    /// Commanded torques.
    pub tau_J_d: [Double; 7],
}

/// One line of the log: a state and the command sent before it.
#[derive(Clone, Copy, PartialEq, Debug)]
pub struct Record {
    /// The state.
    pub state: RobotState,
    /// The command.
    pub command: Option<RobotCommandLog>,
}

impl View for RobotState {
    type V = RobotState;

    open spec fn view(&self) -> RobotState {
        *self
    }
}

/// `N` times zero.
pub open spec fn zeros<const N: usize>() -> [Double; N] {
    vstd::array::spec_array_fill_for_copy_type(Double { bits: 0 })
}

impl RobotState {
    /// The state of which nothing is known.
    pub open spec fn blank() -> RobotState {
        RobotState {
            time: Duration { milliseconds: 0 },
            robot_mode: RobotMode::Other,
            O_T_EE: zeros(),
            O_T_EE_d: zeros(),
            O_T_EE_c: zeros(),
            F_T_EE: zeros(),
            EE_T_K: zeros(),
            O_dP_EE_c: zeros(),
            O_ddP_EE_c: zeros(),
            elbow_c: zeros(),
            delbow_c: zeros(),
            ddelbow_c: zeros(),
            q: zeros(),
            q_d: zeros(),
            dq: zeros(),
            dq_d: zeros(),
            ddq_d: zeros(),
            tau_J_d: zeros(),
            last_motion_errors: Errors::none(),
            control_command_success_rate: Double { bits: 0 },
        }
    }
}

impl Default for RobotState {
    /// The state of which nothing is known: everything zero.
    fn default() -> (r: RobotState)
        ensures
            r == RobotState::blank(),
    {
        let zero = Double { bits: 0 };
        RobotState {
            time: Duration::default(),
            robot_mode: RobotMode::Other,
            O_T_EE: [zero; 16],
            O_T_EE_d: [zero; 16],
            O_T_EE_c: [zero; 16],
            F_T_EE: [zero; 16],
            EE_T_K: [zero; 16],
            O_dP_EE_c: [zero; 6],
            O_ddP_EE_c: [zero; 6],
            elbow_c: [zero; 2],
            delbow_c: [zero; 2],
            ddelbow_c: [zero; 2],
            q: [zero; 7],
            q_d: [zero; 7],
            dq: [zero; 7],
            dq_d: [zero; 7],
            ddq_d: [zero; 7],
            tau_J_d: [zero; 7],
            last_motion_errors: Errors::default(),
            control_command_success_rate: zero,
        }
    }
}

impl RobotCommandLog {
    /// Everything zero.
    pub open spec fn blank() -> RobotCommandLog {
        RobotCommandLog {
            q_c: zeros(),
            dq_c: zeros(),
            O_T_EE_c: zeros(),
            O_dP_EE_c: zeros(),
            elbow_c: zeros(),
            tau_J_d: zeros(),
        }
    }
}

impl Default for RobotCommandLog {
    /// Everything zero.
    fn default() -> (r: RobotCommandLog)
        ensures
            r == RobotCommandLog::blank(),
    {
        let zero = Double { bits: 0 };
        RobotCommandLog {
            q_c: [zero; 7],
            dq_c: [zero; 7],
            O_T_EE_c: [zero; 16],
            O_dP_EE_c: [zero; 6],
            elbow_c: [zero; 2],
            tau_J_d: [zero; 7],
        }
    }
}

/// Every number of a zero array is zero.
pub proof fn law_zeros<const N: usize>()
    ensures
        forall|i: int| 0 <= i < N ==> #[trigger] zeros::<N>()@[i].value() == 0 && zeros::<N>()@[i].finite(),
{
}

} // verus!
