//! Limits of an FR3 (version 10).
//!
//! Each number stands as its bit pattern and is a thousandth below the nominal limit, so that
//! rounding does not exceed it.
use vstd::prelude::*;

pub mod fer;

verus! {

/// Highest joint accelerations, in rad/s^2.
pub const MAX_JOINT_ACCELERATION: [u64; 7] = [
    0x4023ff7ced916873,
    0x4023ff7ced916873,
    0x4023ff7ced916873,
    0x4023ff7ced916873,
    0x4023ff7ced916873,
    0x4023ff7ced916873,
    0x4023ff7ced916873,
];

/// Highest joint jerks, in rad/s^3.
pub const MAX_JOINT_JERK: [u64; 7] = [
    0x40b387ffbe76c8b4,
    0x40b387ffbe76c8b4,
    0x40b387ffbe76c8b4,
    0x40b387ffbe76c8b4,
    0x40b387ffbe76c8b4,
    0x40b387ffbe76c8b4,
    0x40b387ffbe76c8b4,
];

/// Highest torque rates, in Nm/s.
pub const MAX_TORQUE_RATE: [u64; 7] = [
    0x408f3ffdf3b645a2,
    0x408f3ffdf3b645a2,
    0x408f3ffdf3b645a2,
    0x408f3ffdf3b645a2,
    0x408f3ffdf3b645a2,
    0x408f3ffdf3b645a2,
    0x408f3ffdf3b645a2,
];

/// Highest translational velocity, in m/s.
pub const MAX_TRANSLATIONAL_VELOCITY: u64 = 0x4007fdf3b645a1cb;

/// Highest translational acceleration, in m/s^2.
pub const MAX_TRANSLATIONAL_ACCELERATION: u64 = 0x4021ff7ced916873;

/// Highest translational jerk, in m/s^3.
pub const MAX_TRANSLATIONAL_JERK: u64 = 0x40b193ffbe76c8b4;

/// Highest rotational velocity, in rad/s.
pub const MAX_ROTATIONAL_VELOCITY: u64 = 0x4003fdf3b645a1cb;

/// Highest rotational acceleration, in rad/s^2.
pub const MAX_ROTATIONAL_ACCELERATION: u64 = 0x4030ffbe76c8b439;

/// Highest rotational jerk, in rad/s^3.
pub const MAX_ROTATIONAL_JERK: u64 = 0x40c099ffdf3b645a;

/// Highest elbow velocity, in rad/s.
pub const MAX_ELBOW_VELOCITY: u64 = 0x3ff7fbe76c8b4396;

/// Lowest elbow velocity, in rad/s.
pub const MIN_ELBOW_VELOCITY: u64 = 0xbff7fbe76c8b4396;

/// Highest elbow acceleration, in rad/s^2.
pub const MAX_ELBOW_ACCELERATION: u64 = 0x4023ff7ced916873;

/// Highest elbow jerk, in rad/s^3.
pub const MAX_ELBOW_JERK: u64 = 0x40b387ffbe76c8b4;

/// Lowest and highest joint positions, in rad.
pub const JOINT_POSITION_LIMITS: ([u64; 7], [u64; 7]) = (
    [
        0xc00734a2339c0ebf,
        0xbffd60aa64c2f838,
        0xc00734a2339c0ebf,
        0xc0089db22d0e5604,
        0xc00702a9930be0df,
        0x3fdc25aee631f8a1,
        0xc0086809d495182b,
    ],
    [
        0x400734a2339c0ebf,
        0x3ffd60aa64c2f838,
        0x400734a2339c0ebf,
        0xbfbded288ce703b0,
        0x400702a9930be0df,
        0x40127c84b5dcc63f,
        0x40086809d495182b,
    ],
);

} // verus!
