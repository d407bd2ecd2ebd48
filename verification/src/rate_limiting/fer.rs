//! Limits of an FER (version 5).
//!
//! Each number stands as its bit pattern and is a thousandth below the nominal limit, so that
//! rounding does not exceed it.
use vstd::prelude::*;

verus! {

/// Highest joint accelerations, in rad/s^2.
pub const MAX_JOINT_ACCELERATION: [u64; 7] = [
    0x402dff7ced916873,
    0x401dfef9db22d0e5,
    0x4023ff7ced916873,
    0x4028ff7ced916873,
    0x402dff7ced916873,
    0x4033ffbe76c8b439,
    0x4033ffbe76c8b439,
];

/// Highest joint jerks, in rad/s^3.
pub const MAX_JOINT_JERK: [u64; 7] = [
    0x40bd4bffbe76c8b4,
    0x40ad4bff7ced9168,
    0x40b387ffbe76c8b4,
    0x40b869ffbe76c8b4,
    0x40bd4bffbe76c8b4,
    0x40c387ffdf3b645a,
    0x40c387ffdf3b645a,
];

/// Highest joint velocities, in rad/s.
pub const MAX_JOINT_VELOCITY: [u64; 7] = [
    0x4001645a1cac0831,
    0x4001645a1cac0831,
    0x4001645a1cac0831,
    0x4001645a1cac0831,
    0x4004df3b645a1cac,
    0x4004df3b645a1cac,
    0x4004df3b645a1cac,
];

/// Lowest joint velocities, in rad/s.
pub const MIN_JOINT_VELOCITY: [u64; 7] = [
    0xc001645a1cac0831,
    0xc001645a1cac0831,
    0xc001645a1cac0831,
    0xc001645a1cac0831,
    0xc004df3b645a1cac,
    0xc004df3b645a1cac,
    0xc004df3b645a1cac,
];

/// Highest torque rates, in Nm/s.
pub const MAX_TORQUE_RATE: [u64; 7] = [
    0x408f3ffdf3b645a2,
    0x408f3ffdf3b645a2,
    0x408f3ffdf3b645a2,
    0x408f3ffdf3b645a2,
    0x408f3ffdf3b645a2,
    0x408f3ffdf3b645a2,
    0x408f3ffdf3b645a2,
];

/// Highest translational velocity, in m/s.
pub const MAX_TRANSLATIONAL_VELOCITY: u64 = 0x3ffffbe76c8b4396;

/// Highest translational acceleration, in m/s^2.
pub const MAX_TRANSLATIONAL_ACCELERATION: u64 = 0x4029ff7ced916873;

/// Highest translational jerk, in m/s^3.
pub const MAX_TRANSLATIONAL_JERK: u64 = 0x40b963ffbe76c8b4;

/// Highest rotational velocity, in rad/s.
pub const MAX_ROTATIONAL_VELOCITY: u64 = 0x4003fdf3b645a1cb;

/// Highest rotational acceleration, in rad/s^2.
pub const MAX_ROTATIONAL_ACCELERATION: u64 = 0x4038ffbe76c8b439;

/// Highest rotational jerk, in rad/s^3.
pub const MAX_ROTATIONAL_JERK: u64 = 0x40c869ffdf3b645a;

/// Highest elbow velocity, in rad/s.
pub const MAX_ELBOW_VELOCITY: u64 = 0x4001645a1cac0831;

/// Lowest elbow velocity, in rad/s.
pub const MIN_ELBOW_VELOCITY: u64 = 0xc001645a1cac0831;

/// Highest elbow acceleration, in rad/s^2.
pub const MAX_ELBOW_ACCELERATION: u64 = 0x4023ff7ced916873;

/// Highest elbow jerk, in rad/s^3.
pub const MAX_ELBOW_JERK: u64 = 0x40b387ffbe76c8b4;

/// Lowest and highest joint positions, in rad.
pub const JOINT_POSITION_LIMITS: ([u64; 7], [u64; 7]) = (
    [
        0xc0072dab9f559b3d,
        0xbffc346dc5d63886,
        0xc0072dab9f559b3d,
        0xc008930be0ded289,
        0xc0072dab9f559b3d,
        0xbf91eb851eb851ec,
        0xc0072dab9f559b3d,
    ],
    [
        0x40072dab9f559b3d,
        0x3ffc346dc5d63886,
        0x40072dab9f559b3d,
        0xbfb1de69ad42c3ca,
        0x40072dab9f559b3d,
        0x400e051eb851eb85,
        0x40072dab9f559b3d,
    ],
);

} // verus!
