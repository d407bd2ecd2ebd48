//! What goes over the wire, and the numbers and texts that everything is made of.
use franka::double::Double;
use franka::duration::{time_since, Duration};
use franka::error::FrankaError;
use franka::text::{decimal_text, signed_text, trim_zeros};
use franka::wire::bytes::{
    put_bool, put_bools, put_doubles, put_u16, put_u32, put_u64, read_double, read_u16, read_u32,
};
use franka::wire::codec::{
    command_id, command_log, command_size, decode_header, encode_header, message_payload,
    robot_command, state_size, status_byte, CommandKind, ControllerCommand, Deviation, FciVersion,
    MotionGeneratorCommand, RobotCommandData,
};
use franka::wire::modes::{
    ControllerMode, MotionGeneratorMode, MoveControllerMode, MoveMotionGeneratorMode, RobotMode,
};
use franka::wire::request::Request;

fn d(value: f64) -> Double {
    Double { bits: value.to_bits() }
}

fn ds<const N: usize>(values: [f64; N]) -> [Double; N] {
    values.map(d)
}

const KINDS: [CommandKind; 15] = [
    CommandKind::Connect,
    CommandKind::Move,
    CommandKind::StopMove,
    CommandKind::GetCartesianLimit,
    CommandKind::SetCollisionBehavior,
    CommandKind::SetJointImpedance,
    CommandKind::SetCartesianImpedance,
    CommandKind::SetGuidingMode,
    CommandKind::SetEEToK,
    CommandKind::SetNEToEE,
    CommandKind::SetLoad,
    CommandKind::SetFilters,
    CommandKind::AutomaticErrorRecovery,
    CommandKind::LoadModelLibrary,
    CommandKind::GetRobotModel,
];

#[test]
fn numbers_are_little_endian_and_read_back() {
    let mut out = Vec::new();
    put_u64(&mut out, 0x0102_0304_0506_0708);
    put_u32(&mut out, 0x0a0b_0c0d);
    put_u16(&mut out, 0x1234);
    put_bool(&mut out, true);
    put_bools(&mut out, &[false, true]);
    put_doubles(&mut out, &ds([1.0, -2.5]));
    assert_eq!(&out[..8], &[8, 7, 6, 5, 4, 3, 2, 1]);
    assert_eq!(&out[8..12], &[0x0d, 0x0c, 0x0b, 0x0a]);
    assert_eq!(&out[12..17], &[0x34, 0x12, 1, 0, 1]);
    assert_eq!(&out[17..25], &1.0f64.to_le_bytes());
    assert_eq!(read_u32(&out, 8), 0x0a0b_0c0d);
    assert_eq!(read_u16(&out, 12), 0x1234);
    assert_eq!(read_double(&out, 17), d(1.0));
    assert_eq!(read_double(&out, 25), d(-2.5));
    // Writing down what was read gives the same bytes.
    let mut again = Vec::new();
    put_u32(&mut again, read_u32(&out, 8));
    assert_eq!(again, &out[8..12]);
}

#[test]
fn a_header_reads_back_and_counts_itself() {
    let header = encode_header(7, 0x0102_0304, 100);
    assert_eq!(header, [7, 0, 0, 0, 4, 3, 2, 1, 112, 0, 0, 0]);
    assert_eq!(decode_header(&header), Some((7, 0x0102_0304, 112)));
    assert_eq!(decode_header(&header[..11]), None);
    assert_eq!(decode_header(&[0; 13]), None);
}

#[test]
fn the_status_is_the_first_byte_after_the_header() {
    let mut message = encode_header(1, 2, 2);
    assert_eq!(message_payload(&message), &[] as &[u8]);
    match status_byte(&message) {
        Err(FrankaError::Protocol(text)) => {
            assert_eq!(text, "libfranka: Incorrect TCP message size.")
        }
        other => panic!("expected a protocol error, got {other:?}"),
    }
    message.extend_from_slice(&[5, 6]);
    assert_eq!(status_byte(&message).unwrap(), 5);
    assert_eq!(message_payload(&message), &[5, 6]);
    assert_eq!(message_payload(&[1, 2, 3]), &[] as &[u8]);
}

#[test]
fn no_two_commands_share_a_number() {
    for version in [FciVersion::V5, FciVersion::V10] {
        let ids: Vec<u32> = KINDS.iter().filter_map(|kind| command_id(version, *kind)).collect();
        for (i, id) in ids.iter().enumerate() {
            assert!(!ids[..i].contains(id));
        }
        assert_eq!(command_id(version, CommandKind::Connect), Some(0));
    }
    assert_eq!(command_id(FciVersion::V5, CommandKind::GetRobotModel), None);
    assert_eq!(command_id(FciVersion::V10, CommandKind::SetFilters), None);
    assert_eq!(command_id(FciVersion::V10, CommandKind::GetCartesianLimit), None);
    assert_eq!(CommandKind::SetEEToK.name(), "Set EE To K");
}

fn command() -> RobotCommandData {
    RobotCommandData {
        message_id: 3,
        motion: MotionGeneratorCommand {
            q_c: ds([1.0; 7]),
            dq_c: ds([2.0; 7]),
            O_T_EE_c: ds([3.0; 16]),
            O_dP_EE_c: ds([4.0; 6]),
            elbow_c: ds([5.0; 2]),
            valid_elbow: true,
            motion_generation_finished: false,
        },
        control: ControllerCommand {
            tau_J_d: ds([6.0; 7]),
            torque_command_finished: true,
        },
    }
}

#[test]
fn a_command_datagram_has_its_fields_in_order() {
    for version in [FciVersion::V5, FciVersion::V10] {
        let bytes = robot_command(version, &command());
        assert_eq!(bytes.len(), command_size(version));
        assert_eq!(bytes[0], 3);
        assert_eq!(read_double(&bytes, 8), d(1.0));
        assert_eq!(read_double(&bytes, 64), d(2.0));
        assert_eq!(read_double(&bytes, 120), d(3.0));
        assert_eq!(read_double(&bytes, 248), d(4.0));
        assert_eq!(read_double(&bytes, 296), d(5.0));
        assert_eq!(&bytes[312..314], &[1, 0]);
        assert_eq!(read_double(&bytes, 314), d(6.0));
    }
    assert_eq!(robot_command(FciVersion::V10, &command())[370], 1);
    assert_eq!((command_size(FciVersion::V5), command_size(FciVersion::V10)), (370, 371));
    assert_eq!(state_size(FciVersion::V5), 2373);
    let log = command_log(&command());
    assert_eq!(log.q_c, ds([1.0; 7]));
    assert_eq!(log.tau_J_d, ds([6.0; 7]));
}

#[test]
fn modes_read_back_from_their_bytes() {
    for byte in 0..=255u8 {
        assert_eq!(RobotMode::from_u8(byte).map_or(byte, |mode| mode.to_u8()), byte);
        assert_eq!(RobotMode::from_u8(byte).is_some(), byte <= 6);
        assert_eq!(MotionGeneratorMode::from_u8(byte).map_or(byte, |mode| mode.to_u8()), byte);
        assert_eq!(ControllerMode::from_u8(byte).map_or(byte, |mode| mode.to_u8()), byte);
    }
    assert_eq!(RobotMode::UserStopped.as_str(), "User stopped");
    let controllers = [
        (MoveControllerMode::JointImpedance, ControllerMode::JointImpedance),
        (MoveControllerMode::CartesianImpedance, ControllerMode::CartesianImpedance),
        (MoveControllerMode::ExternalController, ControllerMode::ExternalController),
    ];
    for (asked, reported) in controllers {
        assert_eq!(asked.to_state_mode(), reported);
    }
    assert_eq!(
        MoveMotionGeneratorMode::CartesianVelocity.to_state_mode(),
        MotionGeneratorMode::CartesianVelocity
    );
}

#[test]
fn every_payload_has_its_size() {
    let deviation = Deviation::new(d(1.0), d(2.0), d(3.0));
    let sizes = [
        (Request::Connect { version: 10, udp_port: 4711 }, 4, 4),
        (
            Request::Move {
                controller_mode: MoveControllerMode::JointImpedance,
                motion_generator_mode: MoveMotionGeneratorMode::JointVelocity,
                maximum_path_deviation: deviation,
                maximum_goal_pose_deviation: deviation,
            },
            56,
            113,
        ),
        (Request::StopMove, 0, 0),
        (Request::GetCartesianLimit { id: -1 }, 4, 4),
        (Request::SetJointImpedance { K_theta: ds([1.0; 7]) }, 56, 56),
        (Request::SetGuidingMode { guiding_mode: [true; 6], elbow: false }, 7, 7),
        (Request::SetFilters { frequencies: ds([1.0; 5]) }, 40, 40),
        (Request::LoadModelLibrary { architecture: 1, system: 2 }, 2, 2),
    ];
    for (request, v5, v10) in sizes {
        assert_eq!(request.payload(FciVersion::V5).len(), v5, "{request:?}");
        assert_eq!(request.payload(FciVersion::V10).len(), v10, "{request:?}");
    }
    // A negative number goes out in two's complement.
    let wall = Request::GetCartesianLimit { id: -1 };
    assert_eq!(wall.payload(FciVersion::V5), [0xff; 4]);
    let guiding = Request::SetGuidingMode {
        guiding_mode: [true, false, true, false, true, false],
        elbow: true,
    };
    assert_eq!(guiding.payload(FciVersion::V10), [1, 0, 1, 0, 1, 0, 1]);
}

#[test]
fn texts_of_numbers() {
    assert_eq!(decimal_text(0), "0");
    assert_eq!(decimal_text(u64::MAX), "18446744073709551615");
    assert_eq!(signed_text(-1), "-1");
    assert_eq!(signed_text(i32::MIN), "-2147483648");
    assert_eq!(signed_text(99), "99");
    assert_eq!(trim_zeros("1.500"), "1.5");
    assert_eq!(trim_zeros("2.000"), "2");
    assert_eq!(trim_zeros("100"), "100");
    assert_eq!(trim_zeros("0.0"), "0");
}

#[test]
fn larger_and_smaller_agree_with_floating_point() {
    let values = [
        f64::NEG_INFINITY,
        -1.5,
        -f64::MIN_POSITIVE,
        -0.0,
        0.0,
        5e-324,
        1.0,
        f64::MAX,
        f64::INFINITY,
        f64::NAN,
    ];
    for a in values {
        assert_eq!(d(a).is_finite(), a.is_finite());
        assert_eq!(d(a).is_nan(), a.is_nan());
        assert_eq!(d(a).abs(), d(a.abs()));
        assert_eq!(d(a).negated(), d(-a));
        assert_eq!(d(a).is_positive(), a.is_finite() && a > 0.0);
        assert_eq!(d(a).is_non_negative(), a.is_finite() && a >= 0.0);
        for b in values {
            assert_eq!(d(a).less(d(b)), a < b, "{a} < {b}");
            assert_eq!(d(a).less_or_equal(d(b)), a <= b, "{a} <= {b}");
            assert_eq!(d(a).equals(d(b)), a == b, "{a} == {b}");
            let (max, min) = (d(a).max(d(b)), d(a).min(d(b)));
            let same = |x: Double, y: f64| x.equals(d(y)) || (x.is_nan() && y.is_nan());
            assert!(same(max, a.max(b)), "max({a}, {b})");
            assert!(same(min, a.min(b)), "min({a}, {b})");
        }
    }
}

#[test]
fn time_never_runs_backwards() {
    let (early, late) = (Duration::from_millis(3), Duration::from_millis(10));
    assert_eq!(time_since(Some(early), late).as_millis(), 7);
    assert_eq!(time_since(Some(late), early).as_millis(), 0);
    assert_eq!(time_since(None, late).as_millis(), 0);
}
