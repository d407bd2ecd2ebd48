//! Options of a connection, and what the getters return.
use crate::double::Double;
use crate::realtime::RealtimeConfig;
use crate::wire::codec::FciVersion;
use vstd::prelude::*;

verus! {

/// How many cycles the log of a motion keeps unless told otherwise.
pub const DEFAULT_LOG_SIZE: usize = 50;

/// How the version of the protocol is chosen.
#[derive(Clone, Copy, PartialEq, Eq, Structural, Debug, Hash)]
pub enum VersionPolicy {
    /// Version 10, and version 5 if the robot turns out to speak that.
    Auto,
    /// This version and no other.
    Exact(FciVersion),
}

impl Default for VersionPolicy {
    /// [`VersionPolicy::Auto`].
    fn default() -> (r: VersionPolicy)
        ensures
            r == VersionPolicy::Auto,
    {
        VersionPolicy::Auto
    }
}

/// What can be chosen when connecting.
#[derive(Clone, Copy, PartialEq, Eq, Structural, Debug)]
pub struct RobotOptions {
    /// Realtime policy.
    pub realtime_config: RealtimeConfig,
    /// How the version is chosen.
    pub version: VersionPolicy,
    /// How many cycles the log keeps; none when zero.
    pub log_size: usize,
}

impl Default for RobotOptions {
    /// Realtime priority is insisted on.
    fn default() -> (r: RobotOptions)
        ensures
            r == (RobotOptions {
                realtime_config: RealtimeConfig::Enforce,
                version: VersionPolicy::Auto,
                log_size: DEFAULT_LOG_SIZE,
            }),
    {
        RobotOptions {
            realtime_config: RealtimeConfig::Enforce,
            version: VersionPolicy::Auto,
            log_size: DEFAULT_LOG_SIZE,
        }
    }
}

impl RobotOptions {
    /// Options with this realtime policy and the defaults for the rest.
    pub fn new(realtime_config: RealtimeConfig) -> (r: RobotOptions)
        ensures
            r == (RobotOptions {
                realtime_config,
                version: VersionPolicy::Auto,
                log_size: DEFAULT_LOG_SIZE,
            }),
    {
        RobotOptions { realtime_config, version: VersionPolicy::Auto, log_size: DEFAULT_LOG_SIZE }
    }

    /// The same options with this version policy.
    pub fn with_version(self, version: VersionPolicy) -> (r: RobotOptions)
        ensures
            r == (RobotOptions { version, ..self }),
    {
        RobotOptions { version, ..self }
    }

    /// The same options with this log size.
    pub fn with_log_size(self, log_size: usize) -> (r: RobotOptions)
        ensures
            r == (RobotOptions { log_size, ..self }),
    {
        RobotOptions { log_size, ..self }
    }
}

/// A cuboid that the robot treats as a wall.
#[derive(Clone, Copy, PartialEq, Debug)]
pub struct VirtualWallCuboid {
    /// Number of the wall.
    pub id: i32,
    /// Corner point in the world frame, in metres.
    pub object_world_size: [Double; 3],
    /// Pose, column-major.
    pub p_frame: [Double; 16],
    /// Whether the wall is active.
    pub active: bool,
}

impl View for VirtualWallCuboid {
    type V = VirtualWallCuboid;

    open spec fn view(&self) -> VirtualWallCuboid {
        *self
    }
}

} // verus!
