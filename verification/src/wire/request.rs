//! The requests of the robot protocol and their payloads.
use crate::double::Double;
use crate::wire::bytes;
use crate::wire::bytes::{put_bool, put_bools, put_doubles, put_u16, put_u32};
use crate::wire::codec::{CommandKind, Deviation, FciVersion};
use crate::wire::modes::{MoveControllerMode, MoveMotionGeneratorMode};
use vstd::prelude::*;

verus! {

/// One request, before it is written down.
#[derive(Clone, Copy, PartialEq, Debug)]
pub enum Request {
    /// Opens a session.
    Connect {
        /// The version that is announced.
        version: u16,
        /// The port that states are to be sent to.
        udp_port: u16,
    },
    /// Starts a motion.
    Move {
        controller_mode: MoveControllerMode,
        motion_generator_mode: MoveMotionGeneratorMode,
        maximum_path_deviation: Deviation,
        maximum_goal_pose_deviation: Deviation,
    },
    /// Stops the running motion.
    StopMove,
    /// Asks for a virtual wall.
    GetCartesianLimit { id: i32 },
    /// Sets the contact and collision thresholds.
    SetCollisionBehavior {
        lower_torque_thresholds_acceleration: [Double; 7],
        upper_torque_thresholds_acceleration: [Double; 7],
        lower_torque_thresholds_nominal: [Double; 7],
        upper_torque_thresholds_nominal: [Double; 7],
        lower_force_thresholds_acceleration: [Double; 6],
        upper_force_thresholds_acceleration: [Double; 6],
        lower_force_thresholds_nominal: [Double; 6],
        upper_force_thresholds_nominal: [Double; 6],
    },
    /// Sets the joint stiffness.
    SetJointImpedance { K_theta: [Double; 7] },
    /// Sets the Cartesian stiffness.
    SetCartesianImpedance { K_x: [Double; 6] },
    /// Locks or unlocks guiding along each axis and of the elbow.
    SetGuidingMode { guiding_mode: [bool; 6], elbow: bool },
    /// Sets the stiffness frame.
    SetEEToK { EE_T_K: [Double; 16] },
    /// Sets the end effector frame.
    SetNEToEE { NE_T_EE: [Double; 16] },
    /// Sets the load.
    SetLoad { load_mass: Double, F_x_Cload: [Double; 3], load_inertia: [Double; 9] },
    /// Sets the cut-off frequencies of the robot's own filters.
    SetFilters { frequencies: [Double; 5] },
    /// Clears a reflex.
    AutomaticErrorRecovery,
    /// Asks for the model library.
    LoadModelLibrary { architecture: u8, system: u8 },
    /// Asks for the description of the robot.
    GetRobotModel,
}

/// `id` as four bytes in two's complement.
pub open spec fn two_complement(id: i32) -> nat {
    if id < 0 {
        (id + 0x1_0000_0000) as nat
    } else {
        id as nat
    }
}

/// `id` as four bytes in two's complement.
fn id_bits(id: i32) -> (n: u32)
    ensures
        n == two_complement(id),
{
    assert(id < 0 ==> (id as u32) == id + 0x1_0000_0000) by (bit_vector);
    id as u32
}

impl Request {
    /// The command that a request is of.
    pub open spec fn kind(self) -> CommandKind {
        match self {
            Request::Connect { .. } => CommandKind::Connect,
            Request::Move { .. } => CommandKind::Move,
            Request::StopMove => CommandKind::StopMove,
            Request::GetCartesianLimit { .. } => CommandKind::GetCartesianLimit,
            Request::SetCollisionBehavior { .. } => CommandKind::SetCollisionBehavior,
            Request::SetJointImpedance { .. } => CommandKind::SetJointImpedance,
            Request::SetCartesianImpedance { .. } => CommandKind::SetCartesianImpedance,
            Request::SetGuidingMode { .. } => CommandKind::SetGuidingMode,
            Request::SetEEToK { .. } => CommandKind::SetEEToK,
            Request::SetNEToEE { .. } => CommandKind::SetNEToEE,
            Request::SetLoad { .. } => CommandKind::SetLoad,
            Request::SetFilters { .. } => CommandKind::SetFilters,
            Request::AutomaticErrorRecovery => CommandKind::AutomaticErrorRecovery,
            Request::LoadModelLibrary { .. } => CommandKind::LoadModelLibrary,
            Request::GetRobotModel => CommandKind::GetRobotModel,
        }
    }

    /// What follows the header of a request.
    pub open spec fn encoded(self, version: FciVersion) -> Seq<u8> {
        match self {
            Request::Connect { version: announced, udp_port } => bytes::le(announced as nat, 2)
                + bytes::le(udp_port as nat, 2),
            Request::Move {
                controller_mode,
                motion_generator_mode,
                maximum_path_deviation,
                maximum_goal_pose_deviation,
            } => bytes::le(controller_mode.code() as nat, 4) + bytes::le(
                motion_generator_mode.code() as nat,
                4,
            ) + bytes::doubles(maximum_path_deviation.numbers()) + bytes::doubles(
                maximum_goal_pose_deviation.numbers(),
            ) + move_tail(version),
            Request::StopMove => Seq::empty(),
            Request::GetCartesianLimit { id } => bytes::le(two_complement(id), 4),
            Request::SetCollisionBehavior {
                lower_torque_thresholds_acceleration,
                upper_torque_thresholds_acceleration,
                lower_torque_thresholds_nominal,
                upper_torque_thresholds_nominal,
                lower_force_thresholds_acceleration,
                upper_force_thresholds_acceleration,
                lower_force_thresholds_nominal,
                upper_force_thresholds_nominal,
            } => bytes::doubles(lower_torque_thresholds_acceleration@) + bytes::doubles(
                upper_torque_thresholds_acceleration@,
            ) + bytes::doubles(lower_torque_thresholds_nominal@) + bytes::doubles(
                upper_torque_thresholds_nominal@,
            ) + bytes::doubles(lower_force_thresholds_acceleration@) + bytes::doubles(
                upper_force_thresholds_acceleration@,
            ) + bytes::doubles(lower_force_thresholds_nominal@) + bytes::doubles(
                upper_force_thresholds_nominal@,
            ),
            Request::SetJointImpedance { K_theta } => bytes::doubles(K_theta@),
            Request::SetCartesianImpedance { K_x } => bytes::doubles(K_x@),
            Request::SetGuidingMode { guiding_mode, elbow } => bytes::flags(guiding_mode@)
                + bytes::flag(elbow),
            Request::SetEEToK { EE_T_K } => bytes::doubles(EE_T_K@),
            Request::SetNEToEE { NE_T_EE } => bytes::doubles(NE_T_EE@),
            Request::SetLoad { load_mass, F_x_Cload, load_inertia } => bytes::le(
                load_mass.bits as nat,
                8,
            ) + bytes::doubles(F_x_Cload@) + bytes::doubles(load_inertia@),
            Request::SetFilters { frequencies } => bytes::doubles(frequencies@),
            Request::AutomaticErrorRecovery => Seq::empty(),
            Request::LoadModelLibrary { architecture, system } => seq![architecture, system],
            Request::GetRobotModel => Seq::empty(),
        }
    }

    /// Writes down what follows the header of a request.
    pub fn payload(&self, version: FciVersion) -> (out: Vec<u8>)
        ensures
            out@ == self.encoded(version),
    {
        let mut out: Vec<u8> = Vec::new();
        match self {
            Request::Connect { version: announced, udp_port } => {
                put_u16(&mut out, *announced);
                put_u16(&mut out, *udp_port);
            },
            Request::Move {
                controller_mode,
                motion_generator_mode,
                maximum_path_deviation,
                maximum_goal_pose_deviation,
            } => {
                put_u32(&mut out, controller_mode.to_u32());
                put_u32(&mut out, motion_generator_mode.to_u32());
                put_deviation(&mut out, maximum_path_deviation);
                put_deviation(&mut out, maximum_goal_pose_deviation);
                put_move_tail(&mut out, version);
            },
            Request::StopMove => {},
            Request::GetCartesianLimit { id } => {
                put_u32(&mut out, id_bits(*id));
            },
            Request::SetCollisionBehavior {
                lower_torque_thresholds_acceleration,
                upper_torque_thresholds_acceleration,
                lower_torque_thresholds_nominal,
                upper_torque_thresholds_nominal,
                lower_force_thresholds_acceleration,
                upper_force_thresholds_acceleration,
                lower_force_thresholds_nominal,
                upper_force_thresholds_nominal,
            } => {
                put_doubles(&mut out, lower_torque_thresholds_acceleration);
                put_doubles(&mut out, upper_torque_thresholds_acceleration);
                put_doubles(&mut out, lower_torque_thresholds_nominal);
                put_doubles(&mut out, upper_torque_thresholds_nominal);
                put_doubles(&mut out, lower_force_thresholds_acceleration);
                put_doubles(&mut out, upper_force_thresholds_acceleration);
                put_doubles(&mut out, lower_force_thresholds_nominal);
                put_doubles(&mut out, upper_force_thresholds_nominal);
            },
            Request::SetJointImpedance { K_theta } => {
                put_doubles(&mut out, K_theta);
            },
            Request::SetCartesianImpedance { K_x } => {
                put_doubles(&mut out, K_x);
            },
            Request::SetGuidingMode { guiding_mode, elbow } => {
                put_bools(&mut out, guiding_mode);
                put_bool(&mut out, *elbow);
            },
            Request::SetEEToK { EE_T_K } => {
                put_doubles(&mut out, EE_T_K);
            },
            Request::SetNEToEE { NE_T_EE } => {
                put_doubles(&mut out, NE_T_EE);
            },
            Request::SetLoad { load_mass, F_x_Cload, load_inertia } => {
                bytes::put_u64(&mut out, load_mass.bits);
                put_doubles(&mut out, F_x_Cload);
                put_doubles(&mut out, load_inertia);
            },
            Request::SetFilters { frequencies } => {
                put_doubles(&mut out, frequencies);
            },
            Request::AutomaticErrorRecovery => {},
            Request::LoadModelLibrary { architecture, system } => {
                out.push(*architecture);
                out.push(*system);
            },
            Request::GetRobotModel => {},
        }
        assert(out@ =~= self.encoded(version));
        out
    }
}

/// What version 10 adds to a `Move` request: the asynchronous motion generator is off, and no
/// maximum joint velocities are given.
pub open spec fn move_tail(version: FciVersion) -> Seq<u8> {
    match version {
        FciVersion::V5 => Seq::empty(),
        FciVersion::V10 => Seq::new(57, |i: int| 0u8),
    }
}

/// Appends what version 10 adds to a `Move` request.
fn put_move_tail(out: &mut Vec<u8>, version: FciVersion)
    ensures
        final(out)@ == old(out)@ + move_tail(version),
{
    match version {
        FciVersion::V5 => {
            assert(out@ =~= old(out)@ + move_tail(version));
        },
        FciVersion::V10 => {
            let mut i: usize = 0;
            while i < 57
                invariant
                    i <= 57,
                    out@ == old(out)@ + Seq::new(i as nat, |i: int| 0u8),
                decreases 57 - i,
            {
                out.push(0);
                assert(out@ =~= old(out)@ + Seq::new((i + 1) as nat, |i: int| 0u8));
                i = i + 1;
            }
        },
    }
}

/// Appends the three numbers of a deviation.
fn put_deviation(out: &mut Vec<u8>, deviation: &Deviation)
    ensures
        final(out)@ == old(out)@ + bytes::doubles(deviation.numbers()),
{
    let numbers = [deviation.translation, deviation.rotation, deviation.elbow];
    assert(numbers@ =~= deviation.numbers());
    put_doubles(out, &numbers);
}

/// The size of every request's payload.
pub proof fn law_payload_size(request: Request, version: FciVersion)
    ensures
        request.encoded(version).len() == (match request {
            Request::Connect { .. } => 4nat,
            Request::Move { .. } => match version {
                FciVersion::V5 => 56nat,
                FciVersion::V10 => 113nat,
            },
            Request::StopMove => 0nat,
            Request::GetCartesianLimit { .. } => 4nat,
            Request::SetCollisionBehavior { .. } => 416nat,
            Request::SetJointImpedance { .. } => 56nat,
            Request::SetCartesianImpedance { .. } => 48nat,
            Request::SetGuidingMode { .. } => 7nat,
            Request::SetEEToK { .. } => 128nat,
            Request::SetNEToEE { .. } => 128nat,
            Request::SetLoad { .. } => 104nat,
            Request::SetFilters { .. } => 40nat,
            Request::AutomaticErrorRecovery => 0nat,
            Request::LoadModelLibrary { .. } => 2nat,
            Request::GetRobotModel => 0nat,
        }),
{
    broadcast use lemma_sizes;

    match request {
        Request::Connect { version: announced, udp_port } => {
            bytes::lemma_le_len(announced as nat, 2);
            bytes::lemma_le_len(udp_port as nat, 2);
        },
        Request::Move { controller_mode, motion_generator_mode, .. } => {
            bytes::lemma_le_len(controller_mode.code() as nat, 4);
            bytes::lemma_le_len(motion_generator_mode.code() as nat, 4);
        },
        Request::GetCartesianLimit { id } => {
            bytes::lemma_le_len(two_complement(id), 4);
        },
        Request::SetLoad { load_mass, .. } => {
            bytes::lemma_le_len(load_mass.bits as nat, 8);
        },
        _ => {},
    }
}

/// Doubles take eight bytes each.
broadcast proof fn lemma_sizes(values: Seq<Double>)
    ensures
        #[trigger] bytes::doubles(values).len() == 8 * values.len(),
{
    bytes::lemma_doubles_len(values);
}

/// A request is of the command that it is named after.
pub proof fn law_requests_and_commands(request: Request)
    ensures
        request is Connect <==> request.kind() is Connect,
        request is Move <==> request.kind() is Move,
        request is StopMove <==> request.kind() is StopMove,
        request is GetCartesianLimit <==> request.kind() is GetCartesianLimit,
        request is SetCollisionBehavior <==> request.kind() is SetCollisionBehavior,
        request is SetJointImpedance <==> request.kind() is SetJointImpedance,
        request is SetCartesianImpedance <==> request.kind() is SetCartesianImpedance,
        request is SetGuidingMode <==> request.kind() is SetGuidingMode,
        request is SetEEToK <==> request.kind() is SetEEToK,
        request is SetNEToEE <==> request.kind() is SetNEToEE,
        request is SetLoad <==> request.kind() is SetLoad,
        request is SetFilters <==> request.kind() is SetFilters,
        request is AutomaticErrorRecovery <==> request.kind() is AutomaticErrorRecovery,
        request is LoadModelLibrary <==> request.kind() is LoadModelLibrary,
        request is GetRobotModel <==> request.kind() is GetRobotModel,
{
}

/// The numbers that fit in one, two, four or eight bytes.
proof fn lemma_capacities()
    ensures
        bytes::capacity(2) == 0x1_0000,
        bytes::capacity(4) == 0x1_0000_0000,
        bytes::capacity(8) == 0x1_0000_0000_0000_0000,
{
    reveal_with_fuel(bytes::capacity, 9);
}

/// The payload of `Connect` is read back as the version that is announced and the port.
pub proof fn law_connect_reads_back(announced: u16, udp_port: u16, version: FciVersion)
    ensures
        ({
            let payload = (Request::Connect { version: announced, udp_port }).encoded(version);
            &&& bytes::from_le(payload.take(2)) == announced
            &&& bytes::from_le(payload.skip(2)) == udp_port
        }),
{
    let payload = (Request::Connect { version: announced, udp_port }).encoded(version);
    lemma_capacities();
    bytes::lemma_le_len(announced as nat, 2);
    bytes::lemma_le_len(udp_port as nat, 2);
    bytes::law_read_of_write(announced as nat, 2);
    bytes::law_read_of_write(udp_port as nat, 2);
    assert(payload.take(2) =~= bytes::le(announced as nat, 2));
    assert(payload.skip(2) =~= bytes::le(udp_port as nat, 2));
}

/// The payload of `Move` is read back as the controller, the motion generator, the path deviation
/// and the goal deviation; what version 10 adds after them is all zero.
pub proof fn law_move_reads_back(
    controller_mode: MoveControllerMode,
    motion_generator_mode: MoveMotionGeneratorMode,
    path: Deviation,
    goal: Deviation,
    version: FciVersion,
    i: int,
)
    ensures
        ({
            let payload = (Request::Move {
                controller_mode,
                motion_generator_mode,
                maximum_path_deviation: path,
                maximum_goal_pose_deviation: goal,
            }).encoded(version);
            &&& bytes::from_le(payload.take(4)) == controller_mode.code()
            &&& bytes::from_le(payload.subrange(4, 8)) == motion_generator_mode.code()
            &&& bytes::double_at(payload, 8) == path.translation
            &&& bytes::double_at(payload, 16) == path.rotation
            &&& bytes::double_at(payload, 24) == path.elbow
            &&& bytes::double_at(payload, 32) == goal.translation
            &&& bytes::double_at(payload, 40) == goal.rotation
            &&& bytes::double_at(payload, 48) == goal.elbow
            &&& 56 <= i < payload.len() ==> payload[i] == 0
        }),
{
    let request = Request::Move {
        controller_mode,
        motion_generator_mode,
        maximum_path_deviation: path,
        maximum_goal_pose_deviation: goal,
    };
    let payload = request.encoded(version);
    law_payload_size(request, version);
    lemma_capacities();
    bytes::lemma_le_len(controller_mode.code() as nat, 4);
    bytes::lemma_le_len(motion_generator_mode.code() as nat, 4);
    bytes::law_read_of_write(controller_mode.code() as nat, 4);
    bytes::law_read_of_write(motion_generator_mode.code() as nat, 4);
    bytes::lemma_doubles_len(path.numbers());
    bytes::lemma_doubles_len(goal.numbers());
    assert(payload.take(4) =~= bytes::le(controller_mode.code() as nat, 4));
    assert(payload.subrange(4, 8) =~= bytes::le(motion_generator_mode.code() as nat, 4));
    assert(payload =~= payload.take(8) + bytes::doubles(path.numbers()) + payload.skip(32));
    bytes::law_doubles_read_back(payload.take(8), path.numbers(), payload.skip(32), 0);
    bytes::law_doubles_read_back(payload.take(8), path.numbers(), payload.skip(32), 1);
    bytes::law_doubles_read_back(payload.take(8), path.numbers(), payload.skip(32), 2);
    assert(payload =~= payload.take(32) + bytes::doubles(goal.numbers()) + payload.skip(56));
    bytes::law_doubles_read_back(payload.take(32), goal.numbers(), payload.skip(56), 0);
    bytes::law_doubles_read_back(payload.take(32), goal.numbers(), payload.skip(56), 1);
    bytes::law_doubles_read_back(payload.take(32), goal.numbers(), payload.skip(56), 2);
    assert(payload.skip(56) =~= move_tail(version));
    if 56 <= i < payload.len() {
        assert(payload.skip(56)[i - 56] == payload[i]);
    }
}

/// The number of a virtual wall is read back from its four bytes, which count downwards from the
/// largest number where it is negative.
pub proof fn law_wall_number_reads_back(id: i32, version: FciVersion)
    ensures
        ({
            let payload = (Request::GetCartesianLimit { id }).encoded(version);
            let number = bytes::from_le(payload);
            &&& payload.len() == 4
            &&& id >= 0 ==> number == id
            &&& id < 0 ==> number == 0x1_0000_0000 + id
        }),
{
    lemma_capacities();
    bytes::lemma_le_len(two_complement(id), 4);
    bytes::law_read_of_write(two_complement(id), 4);
}

/// The payloads of the setters with one group of numbers are read back as these numbers, in order.
pub proof fn law_setters_read_back(
    K_theta: [Double; 7],
    K_x: [Double; 6],
    frame: [Double; 16],
    frequencies: [Double; 5],
    version: FciVersion,
    i: int,
)
    ensures
        0 <= i < 7 ==> bytes::double_at(
            (Request::SetJointImpedance { K_theta }).encoded(version),
            8 * i,
        ) == K_theta[i],
        0 <= i < 6 ==> bytes::double_at(
            (Request::SetCartesianImpedance { K_x }).encoded(version),
            8 * i,
        ) == K_x[i],
        0 <= i < 16 ==> bytes::double_at(
            (Request::SetEEToK { EE_T_K: frame }).encoded(version),
            8 * i,
        ) == frame[i],
        0 <= i < 16 ==> bytes::double_at(
            (Request::SetNEToEE { NE_T_EE: frame }).encoded(version),
            8 * i,
        ) == frame[i],
        0 <= i < 5 ==> bytes::double_at(
            (Request::SetFilters { frequencies }).encoded(version),
            8 * i,
        ) == frequencies[i],
{
    let none = Seq::<u8>::empty();
    assert(none + bytes::doubles(K_theta@) + none =~= bytes::doubles(K_theta@));
    assert(none + bytes::doubles(K_x@) + none =~= bytes::doubles(K_x@));
    assert(none + bytes::doubles(frame@) + none =~= bytes::doubles(frame@));
    assert(none + bytes::doubles(frequencies@) + none =~= bytes::doubles(frequencies@));
    if 0 <= i < 7 {
        bytes::law_doubles_read_back(none, K_theta@, none, i);
    }
    if 0 <= i < 6 {
        bytes::law_doubles_read_back(none, K_x@, none, i);
    }
    if 0 <= i < 16 {
        bytes::law_doubles_read_back(none, frame@, none, i);
    }
    if 0 <= i < 5 {
        bytes::law_doubles_read_back(none, frequencies@, none, i);
    }
}

/// The payload of `SetCollisionBehavior` is read back as the torque thresholds and then the force
/// thresholds: of each, the lower and the upper ones while accelerating, then the lower and the upper
/// nominal ones.
pub proof fn law_collision_behavior_reads_back(
    torques: [[Double; 7]; 4],
    forces: [[Double; 6]; 4],
    version: FciVersion,
    i: int,
)
    ensures
        ({
            let payload = (Request::SetCollisionBehavior {
                lower_torque_thresholds_acceleration: torques[0],
                upper_torque_thresholds_acceleration: torques[1],
                lower_torque_thresholds_nominal: torques[2],
                upper_torque_thresholds_nominal: torques[3],
                lower_force_thresholds_acceleration: forces[0],
                upper_force_thresholds_acceleration: forces[1],
                lower_force_thresholds_nominal: forces[2],
                upper_force_thresholds_nominal: forces[3],
            }).encoded(version);
            &&& 0 <= i < 7 ==> {
                &&& bytes::double_at(payload, 8 * i) == torques[0][i]
                &&& bytes::double_at(payload, 56 + 8 * i) == torques[1][i]
                &&& bytes::double_at(payload, 112 + 8 * i) == torques[2][i]
                &&& bytes::double_at(payload, 168 + 8 * i) == torques[3][i]
            }
            &&& 0 <= i < 6 ==> {
                &&& bytes::double_at(payload, 224 + 8 * i) == forces[0][i]
                &&& bytes::double_at(payload, 272 + 8 * i) == forces[1][i]
                &&& bytes::double_at(payload, 320 + 8 * i) == forces[2][i]
                &&& bytes::double_at(payload, 368 + 8 * i) == forces[3][i]
            }
        }),
{
    let request = Request::SetCollisionBehavior {
        lower_torque_thresholds_acceleration: torques[0],
        upper_torque_thresholds_acceleration: torques[1],
        lower_torque_thresholds_nominal: torques[2],
        upper_torque_thresholds_nominal: torques[3],
        lower_force_thresholds_acceleration: forces[0],
        upper_force_thresholds_acceleration: forces[1],
        lower_force_thresholds_nominal: forces[2],
        upper_force_thresholds_nominal: forces[3],
    };
    let payload = request.encoded(version);
    law_payload_size(request, version);
    broadcast use lemma_sizes;

    if 0 <= i < 7 {
        assert(payload =~= payload.take(0) + bytes::doubles(torques[0]@) + payload.skip(56));
        bytes::law_doubles_read_back(payload.take(0), torques[0]@, payload.skip(56), i);
        assert(payload =~= payload.take(56) + bytes::doubles(torques[1]@) + payload.skip(112));
        bytes::law_doubles_read_back(payload.take(56), torques[1]@, payload.skip(112), i);
        assert(payload =~= payload.take(112) + bytes::doubles(torques[2]@) + payload.skip(168));
        bytes::law_doubles_read_back(payload.take(112), torques[2]@, payload.skip(168), i);
        assert(payload =~= payload.take(168) + bytes::doubles(torques[3]@) + payload.skip(224));
        bytes::law_doubles_read_back(payload.take(168), torques[3]@, payload.skip(224), i);
    }
    if 0 <= i < 6 {
        assert(payload =~= payload.take(224) + bytes::doubles(forces[0]@) + payload.skip(272));
        bytes::law_doubles_read_back(payload.take(224), forces[0]@, payload.skip(272), i);
        assert(payload =~= payload.take(272) + bytes::doubles(forces[1]@) + payload.skip(320));
        bytes::law_doubles_read_back(payload.take(272), forces[1]@, payload.skip(320), i);
        assert(payload =~= payload.take(320) + bytes::doubles(forces[2]@) + payload.skip(368));
        bytes::law_doubles_read_back(payload.take(320), forces[2]@, payload.skip(368), i);
        assert(payload =~= payload.take(368) + bytes::doubles(forces[3]@) + payload.skip(416));
        bytes::law_doubles_read_back(payload.take(368), forces[3]@, payload.skip(416), i);
    }
}

/// The payload of `SetLoad` is read back as the mass, the centre of mass and the inertia, that of
/// `SetGuidingMode` as one byte for each axis and the elbow, and that of `LoadModelLibrary` as the
/// architecture and the system.
pub proof fn law_load_and_guiding_read_back(
    load_mass: Double,
    F_x_Cload: [Double; 3],
    load_inertia: [Double; 9],
    guiding_mode: [bool; 6],
    elbow: bool,
    architecture: u8,
    system: u8,
    version: FciVersion,
    i: int,
)
    ensures
        ({
            let payload = (Request::SetLoad { load_mass, F_x_Cload, load_inertia }).encoded(version);
            &&& bytes::double_at(payload, 0) == load_mass
            &&& 0 <= i < 3 ==> bytes::double_at(payload, 8 + 8 * i) == F_x_Cload[i]
            &&& 0 <= i < 9 ==> bytes::double_at(payload, 32 + 8 * i) == load_inertia[i]
        }),
        ({
            let payload = (Request::SetGuidingMode { guiding_mode, elbow }).encoded(version);
            &&& 0 <= i < 6 ==> (payload[i] == 1 <==> guiding_mode[i])
            &&& 0 <= i < 6 ==> (payload[i] == 0 <==> !guiding_mode[i])
            &&& payload[6] == 1 <==> elbow
            &&& payload[6] == 0 <==> !elbow
        }),
        ({
            let payload = (Request::LoadModelLibrary { architecture, system }).encoded(version);
            payload[0] == architecture && payload[1] == system
        }),
{
    let request = Request::SetLoad { load_mass, F_x_Cload, load_inertia };
    let payload = request.encoded(version);
    law_payload_size(request, version);
    lemma_capacities();
    bytes::lemma_le_len(load_mass.bits as nat, 8);
    bytes::law_read_of_write(load_mass.bits as nat, 8);
    bytes::lemma_doubles_len(F_x_Cload@);
    bytes::lemma_doubles_len(load_inertia@);
    assert(payload.subrange(0, 8) =~= bytes::le(load_mass.bits as nat, 8));
    if 0 <= i < 3 {
        assert(payload =~= payload.take(8) + bytes::doubles(F_x_Cload@) + payload.skip(32));
        bytes::law_doubles_read_back(payload.take(8), F_x_Cload@, payload.skip(32), i);
    }
    if 0 <= i < 9 {
        assert(payload =~= payload.take(32) + bytes::doubles(load_inertia@) + payload.skip(104));
        bytes::law_doubles_read_back(payload.take(32), load_inertia@, payload.skip(104), i);
    }
}

} // verus!
