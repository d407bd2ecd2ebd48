//! Single requests and their responses: the getters, the setters, stop and recovery.
use crate::double::Double;
use crate::error;
use crate::error::{incorrect_message_size, ErrorView, FrankaError};
use crate::robot::commands;
use crate::robot::commands::{
    handle_automatic_error_recovery_response, handle_command_response,
    handle_getter_setter_response, handle_stop_move_response, CommandName,
};
use crate::robot::options::VirtualWallCuboid;
use crate::robot::robot_impl::operation::Operation;
use crate::robot::robot_impl::{RobotImpl, RobotView};
use crate::step::{Action, Event, Progress};
use crate::wire::bytes;
use crate::wire::bytes::read_double;
use crate::wire::codec;
use crate::wire::codec::{message_payload, status_byte, CommandKind};
use crate::wire::request::Request;
use vstd::pervasive::unreached;
use vstd::prelude::*;

verus! {

/// A request on its way, and then its response.
#[derive(Clone, Copy, PartialEq, Debug)]
pub enum Exchange {
    /// The request is to be sent.
    Sending { command: u32, request: Request },
    /// The response is to be received.
    Receiving { command_id: u32 },
}

impl Exchange {
    /// What is wanted next.
    pub open spec fn awaiting(self) -> Action {
        match self {
            Exchange::Sending { command, request } => Action::Send { command, request },
            Exchange::Receiving { command_id } => Action::AwaitResponse { command_id },
        }
    }

    /// What is wanted next.
    pub fn action(&self) -> (a: Action)
        ensures
            a == self.awaiting(),
    {
        match self {
            Exchange::Sending { command, request } => Action::Send {
                command: *command,
                request: *request,
            },
            Exchange::Receiving { command_id } => Action::AwaitResponse { command_id: *command_id },
        }
    }

    /// How the exchange goes on after an event; it ends with the response.
    pub open spec fn next(self, event: Event) -> Progress<
        Exchange,
        Action,
        Result<Vec<u8>, FrankaError>,
    > {
        match event {
            Event::Sent(command_id) => Progress::Continue(
                Exchange::Receiving { command_id },
                Action::AwaitResponse { command_id },
            ),
            Event::Response(message) => Progress::Done(Ok(message)),
            Event::Failed(e) => Progress::Done(Err(e)),
            _ => Progress::Continue(self, self.awaiting()),
        }
    }

    /// Goes on after an event.
    pub fn resume(self, event: Event) -> (r: Progress<Exchange, Action, Result<Vec<u8>, FrankaError>>)
        requires
            self.awaiting().answered(event),
        ensures
            r == self.next(event),
            r matches Progress::Continue(next, action) ==> action == next.awaiting(),
    {
        match event {
            Event::Sent(command_id) => Progress::Continue(
                Exchange::Receiving { command_id },
                Action::AwaitResponse { command_id },
            ),
            Event::Response(message) => Progress::Done(Ok(message)),
            Event::Failed(e) => Progress::Done(Err(e)),
            _ => unreached(),
        }
    }
}

/// What a response to a command means, for the commands that return nothing.
pub open spec fn acknowledged(robot: RobotView, name: CommandName, message: Seq<u8>) -> Result<
    (),
    ErrorView,
> {
    let mode = robot.state.robot_mode;
    match codec::status_of(message) {
        Err(e) => Err(e),
        Ok(byte) => match name {
            CommandName::StopMove => match codec::known(
                codec::stop_move_status_of(robot.version, byte),
                name.of().shown(),
            ) {
                Ok(status) => commands::stop_move_reply(status, mode),
                Err(e) => Err(e),
            },
            CommandName::AutomaticErrorRecovery => match codec::known(
                codec::automatic_error_recovery_status_of(robot.version, byte),
                name.of().shown(),
            ) {
                Ok(status) => commands::automatic_error_recovery_reply(status, mode),
                Err(e) => Err(e),
            },
            _ => match codec::known(
                codec::getter_setter_status_of(robot.version, byte),
                name.of().shown(),
            ) {
                Ok(status) => commands::getter_setter_reply(name, status, mode),
                Err(e) => Err(e),
            },
        },
    }
}

/// A command that returns nothing: a setter, stop or recovery.
#[derive(Clone, Copy, PartialEq, Debug)]
pub struct CommandCall {
    /// The command.
    pub name: CommandName,
    /// Its request and response.
    pub exchange: Exchange,
}

impl Operation for CommandCall {
    type Output = ();

    /// Nothing is asked of its parts.
    open spec fn wf(self) -> bool {
        true
    }

    /// What is wanted next.
    open spec fn awaiting(self) -> Action {
        self.exchange.awaiting()
    }

    /// What is wanted next.
    fn action(&self) -> (a: Action) {
        self.exchange.action()
    }

    /// It ends with what the response means.
    open spec fn next(self, robot: RobotView, event: Event) -> (
        RobotView,
        Progress<CommandCall, Action, Result<(), ErrorView>>,
    ) {
        match self.exchange.next(event) {
            Progress::Continue(exchange, action) => (
                robot,
                Progress::Continue(CommandCall { exchange, ..self }, action),
            ),
            Progress::Done(Err(e)) => (robot, Progress::Done(Err(e@))),
            Progress::Done(Ok(message)) => (robot, Progress::Done(acknowledged(robot, self.name, message@))),
        }
    }

    /// Goes on after an event.
    fn resume(self, robot: &mut RobotImpl, event: Event) -> (r: Progress<
        CommandCall,
        Action,
        Result<(), FrankaError>,
    >) {
        match self.exchange.resume(event) {
            Progress::Continue(exchange, action) => Progress::Continue(CommandCall { exchange, ..self }, action),
            Progress::Done(Err(e)) => Progress::Done(Err(e)),
            Progress::Done(Ok(message)) => Progress::Done(robot.acknowledge(self.name, message.as_slice())),
        }
    }
}

/// What `String::from_utf8_lossy` makes of bytes.
pub uninterp spec fn utf8_lossy(bytes: Seq<u8>) -> Seq<char>;

/// The text of bytes, with a replacement character for what is none.
///
/// This is `String::from_utf8_lossy`: a function of the bytes, and of bytes that are UTF-8 the
/// text that they encode. Which replacement characters stand in for other bytes is left unsaid.
#[verifier::external_body]
fn from_utf8_lossy(bytes: &[u8]) -> (s: String)
    ensures
        s@ == utf8_lossy(bytes@),
        vstd::utf8::valid_utf8(bytes@) ==> s@ == vstd::utf8::decode_utf8(bytes@),
{
    String::from_utf8_lossy(bytes).into_owned()
}

/// The robot description that a response to `GetRobotModel` carries, or what went wrong.
pub open spec fn described(robot: RobotView, message: Seq<u8>) -> Result<Seq<char>, ErrorView> {
    match codec::status_of(message) {
        Err(e) => Err(e),
        Ok(byte) => match codec::known(
            codec::command_status_of(robot.version, byte),
            CommandKind::GetRobotModel.shown(),
        ) {
            Err(e) => Err(e),
            Ok(status) => match commands::command_reply(
                CommandName::GetRobotModel,
                status,
                robot.state.robot_mode,
            ) {
                Err(e) => Err(e),
                Ok(_) => Ok(utf8_lossy(codec::payload_of(message).skip(1))),
            },
        },
    }
}

/// A result whose text is looked at as characters.
pub open spec fn seen_text(r: Result<String, FrankaError>) -> Result<Seq<char>, ErrorView> {
    match r {
        Ok(text) => Ok(text@),
        Err(e) => Err(e@),
    }
}

/// A result whose bytes are looked at as a sequence.
pub open spec fn seen_bytes(r: Result<Vec<u8>, FrankaError>) -> Result<Seq<u8>, ErrorView> {
    match r {
        Ok(bytes) => Ok(bytes@),
        Err(e) => Err(e@),
    }
}

/// Fetching the robot description.
#[derive(Clone, Copy, PartialEq, Debug)]
pub struct ModelCall {
    /// The request and its response.
    pub exchange: Exchange,
}

impl Operation for ModelCall {
    type Output = String;

    /// Nothing is asked of its parts.
    open spec fn wf(self) -> bool {
        true
    }

    /// What is wanted next.
    open spec fn awaiting(self) -> Action {
        self.exchange.awaiting()
    }

    /// What is wanted next.
    fn action(&self) -> (a: Action) {
        self.exchange.action()
    }

    /// It ends with the robot description.
    open spec fn next(self, robot: RobotView, event: Event) -> (
        RobotView,
        Progress<ModelCall, Action, Result<Seq<char>, ErrorView>>,
    ) {
        match self.exchange.next(event) {
            Progress::Continue(exchange, action) => (
                robot,
                Progress::Continue(ModelCall { exchange }, action),
            ),
            Progress::Done(Err(e)) => (robot, Progress::Done(Err(e@))),
            Progress::Done(Ok(message)) => (robot, Progress::Done(described(robot, message@))),
        }
    }

    /// Goes on after an event.
    fn resume(self, robot: &mut RobotImpl, event: Event) -> (r: Progress<
        ModelCall,
        Action,
        Result<String, FrankaError>,
    >) {
        match self.exchange.resume(event) {
            Progress::Continue(exchange, action) => Progress::Continue(ModelCall { exchange }, action),
            Progress::Done(Err(e)) => Progress::Done(Err(e)),
            Progress::Done(Ok(message)) => Progress::Done(robot.describe(message.as_slice())),
        }
    }
}

/// The size of the response to `GetCartesianLimit`: status, corner, pose and activation.
pub const CARTESIAN_LIMIT_SIZE: usize = 154;

/// The wall that the payload of a response to `GetCartesianLimit` describes.
pub open spec fn wall_of(id: i32, payload: Seq<u8>) -> VirtualWallCuboid {
    VirtualWallCuboid {
        id,
        object_world_size: [
            bytes::double_at(payload, 1),
            bytes::double_at(payload, 9),
            bytes::double_at(payload, 17),
        ],
        p_frame: [
            bytes::double_at(payload, 25),
            bytes::double_at(payload, 33),
            bytes::double_at(payload, 41),
            bytes::double_at(payload, 49),
            bytes::double_at(payload, 57),
            bytes::double_at(payload, 65),
            bytes::double_at(payload, 73),
            bytes::double_at(payload, 81),
            bytes::double_at(payload, 89),
            bytes::double_at(payload, 97),
            bytes::double_at(payload, 105),
            bytes::double_at(payload, 113),
            bytes::double_at(payload, 121),
            bytes::double_at(payload, 129),
            bytes::double_at(payload, 137),
            bytes::double_at(payload, 145),
        ],
        active: payload[153] != 0,
    }
}

/// The wall that a response to `GetCartesianLimit` carries, or what is wrong with it.
pub open spec fn walled(robot: RobotView, id: i32, message: Seq<u8>) -> Result<
    VirtualWallCuboid,
    ErrorView,
> {
    let payload = codec::payload_of(message);
    if payload.len() != CARTESIAN_LIMIT_SIZE {
        Err(ErrorView::Protocol("libfranka: Incorrect TCP message size."@))
    } else {
        match codec::known(
            codec::getter_setter_status_of(robot.version, payload[0]),
            CommandKind::GetCartesianLimit.shown(),
        ) {
            Err(e) => Err(e),
            Ok(status) => match commands::getter_setter_reply(
                CommandName::GetCartesianLimit,
                status,
                robot.state.robot_mode,
            ) {
                Err(e) => Err(e),
                Ok(_) => Ok(wall_of(id, payload)),
            },
        }
    }
}

/// Asking for a virtual wall.
#[derive(Clone, Copy, PartialEq, Debug)]
pub struct WallCall {
    /// Number of the wall.
    pub id: i32,
    /// The request and its response.
    pub exchange: Exchange,
}

impl Operation for WallCall {
    type Output = VirtualWallCuboid;

    /// Nothing is asked of its parts.
    open spec fn wf(self) -> bool {
        true
    }

    /// What is wanted next.
    open spec fn awaiting(self) -> Action {
        self.exchange.awaiting()
    }

    /// What is wanted next.
    fn action(&self) -> (a: Action) {
        self.exchange.action()
    }

    /// It ends with the wall.
    open spec fn next(self, robot: RobotView, event: Event) -> (
        RobotView,
        Progress<WallCall, Action, Result<VirtualWallCuboid, ErrorView>>,
    ) {
        match self.exchange.next(event) {
            Progress::Continue(exchange, action) => (
                robot,
                Progress::Continue(WallCall { exchange, ..self }, action),
            ),
            Progress::Done(Err(e)) => (robot, Progress::Done(Err(e@))),
            Progress::Done(Ok(message)) => (robot, Progress::Done(walled(robot, self.id, message@))),
        }
    }

    /// Goes on after an event.
    fn resume(self, robot: &mut RobotImpl, event: Event) -> (r: Progress<
        WallCall,
        Action,
        Result<VirtualWallCuboid, FrankaError>,
    >) {
        match self.exchange.resume(event) {
            Progress::Continue(exchange, action) => Progress::Continue(WallCall { exchange, ..self }, action),
            Progress::Done(Err(e)) => Progress::Done(Err(e)),
            Progress::Done(Ok(message)) => Progress::Done(robot.read_wall(self.id, message.as_slice())),
        }
    }
}

/// The library that a response to `LoadModelLibrary` carries after its status byte, or what went
/// wrong.
pub open spec fn library_of(message: Seq<u8>) -> Result<Seq<u8>, ErrorView> {
    match codec::status_of(message) {
        Err(e) => Err(e),
        Ok(byte) => if byte == 0 {
            if codec::payload_of(message).len() == 1 {
                Err(ErrorView::Protocol("libfranka: Incorrect TCP message size."@))
            } else {
                Ok(codec::payload_of(message).skip(1))
            }
        } else if byte == 1 {
            Err(
                ErrorView::Model("libfranka: Server reports error when loading model library."@),
            )
        } else {
            codec::known(None, CommandKind::LoadModelLibrary.shown())
        },
    }
}

/// Fetching the model library.
#[derive(Clone, Copy, PartialEq, Debug)]
pub struct LibraryCall {
    /// The request and its response.
    pub exchange: Exchange,
}

impl Operation for LibraryCall {
    type Output = Vec<u8>;

    /// Nothing is asked of its parts.
    open spec fn wf(self) -> bool {
        true
    }

    /// What is wanted next.
    open spec fn awaiting(self) -> Action {
        self.exchange.awaiting()
    }

    /// What is wanted next.
    fn action(&self) -> (a: Action) {
        self.exchange.action()
    }

    /// It ends with the bytes of the library.
    open spec fn next(self, robot: RobotView, event: Event) -> (
        RobotView,
        Progress<LibraryCall, Action, Result<Seq<u8>, ErrorView>>,
    ) {
        match self.exchange.next(event) {
            Progress::Continue(exchange, action) => (
                robot,
                Progress::Continue(LibraryCall { exchange }, action),
            ),
            Progress::Done(Err(e)) => (robot, Progress::Done(Err(e@))),
            Progress::Done(Ok(message)) => (robot, Progress::Done(library_of(message@))),
        }
    }

    /// Goes on after an event.
    fn resume(self, robot: &mut RobotImpl, event: Event) -> (r: Progress<
        LibraryCall,
        Action,
        Result<Vec<u8>, FrankaError>,
    >) {
        match self.exchange.resume(event) {
            Progress::Continue(exchange, action) => Progress::Continue(LibraryCall { exchange }, action),
            Progress::Done(Err(e)) => Progress::Done(Err(e)),
            Progress::Done(Ok(message)) => Progress::Done(read_library(message.as_slice())),
        }
    }
}

/// The library that a response to `LoadModelLibrary` carries.
pub fn read_library(message: &[u8]) -> (r: Result<Vec<u8>, FrankaError>)
    ensures
        seen_bytes(r) == library_of(message@),
{
    let byte: u8 = match status_byte(message) {
        Ok(byte) => byte,
        Err(e) => {
            return Err(e);
        },
    };
    let payload = message_payload(message);
    let length: usize = payload.len();
    if byte == 0 {
        if length == 1 {
            Err(incorrect_message_size())
        } else {
            let tail = vstd::slice::slice_subrange(payload, 1, length);
            assert(tail@ =~= payload@.skip(1));
            Ok(vstd::slice::slice_to_vec(tail))
        }
    } else if byte == 1 {
        Err(
            FrankaError::Model(
                String::from_str("libfranka: Server reports error when loading model library."),
            ),
        )
    } else {
        Err(codec::unexpected_response(CommandKind::LoadModelLibrary.name()))
    }
}

/// How a request is begun: refused when the version does not have it, and sent otherwise.
pub open spec fn begun(robot: RobotView, request: Request) -> Result<Exchange, ErrorView> {
    match robot.numbered(request.kind()) {
        Ok(command) => Ok(Exchange::Sending { command, request }),
        Err(e) => Err(e),
    }
}

impl RobotImpl {
    /// Begins a request. A command that the version does not have is refused before anything is
    /// sent.
    pub fn execute(&self, kind: CommandKind, request: Request) -> (r: Result<Exchange, FrankaError>)
        requires
            kind == request.kind(),
        ensures
            error::seen(r) == begun(self@, request),
    {
        match self.kind_id(kind) {
            Ok(command) => Ok(Exchange::Sending { command, request }),
            Err(e) => Err(e),
        }
    }

    /// How a command that returns nothing is begun.
    pub open spec fn commanded(self, name: CommandName, request: Request) -> Result<
        CommandCall,
        ErrorView,
    > {
        match begun(self@, request) {
            Ok(exchange) => Ok(CommandCall { name, exchange }),
            Err(e) => Err(e),
        }
    }

    /// Begins a command that returns nothing.
    pub fn execute_setter(&self, name: CommandName, request: Request) -> (r: Result<
        CommandCall,
        FrankaError,
    >)
        requires
            name.of() == request.kind(),
        ensures
            error::seen(r) == self.commanded(name, request),
    {
        match self.execute(name.kind(), request) {
            Ok(exchange) => Ok(CommandCall { name, exchange }),
            Err(e) => Err(e),
        }
    }

    /// What a response to a command means.
    pub fn acknowledge(&self, name: CommandName, message: &[u8]) -> (r: Result<(), FrankaError>)
        ensures
            error::seen(r) == acknowledged(self@, name, message@),
    {
        let byte: u8 = match status_byte(message) {
            Ok(byte) => byte,
            Err(e) => {
                return Err(e);
            },
        };
        match name {
            CommandName::StopMove => match codec::parse_stop_move_status(
                self.version(),
                byte,
                name.as_str(),
            ) {
                Ok(status) => handle_stop_move_response(self, status),
                Err(e) => Err(e),
            },
            CommandName::AutomaticErrorRecovery => match codec::parse_automatic_error_recovery_status(
                self.version(),
                byte,
                name.as_str(),
            ) {
                Ok(status) => handle_automatic_error_recovery_response(self, status),
                Err(e) => Err(e),
            },
            _ => match codec::parse_getter_setter_status(self.version(), byte, name.as_str()) {
                Ok(status) => handle_getter_setter_response(self, name, status),
                Err(e) => Err(e),
            },
        }
    }

    /// The robot description that a response carries.
    pub fn describe(&self, message: &[u8]) -> (r: Result<String, FrankaError>)
        ensures
            seen_text(r) == described(self@, message@),
    {
        let name = CommandName::GetRobotModel;
        let byte: u8 = match status_byte(message) {
            Ok(byte) => byte,
            Err(e) => {
                return Err(e);
            },
        };
        let status = match codec::parse_command_status(self.version(), byte, name.as_str()) {
            Ok(status) => status,
            Err(e) => {
                return Err(e);
            },
        };
        match handle_command_response(self, name, status) {
            Ok(()) => {},
            Err(e) => {
                return Err(e);
            },
        }
        let payload = message_payload(message);
        let length: usize = payload.len();
        let tail = vstd::slice::slice_subrange(payload, 1, length);
        assert(tail@ =~= payload@.skip(1));
        Ok(from_utf8_lossy(tail))
    }

    /// The wall that a response carries.
    pub fn read_wall(&self, id: i32, message: &[u8]) -> (r: Result<VirtualWallCuboid, FrankaError>)
        ensures
            error::seen(r) == walled(self@, id, message@),
    {
        let name = CommandName::GetCartesianLimit;
        let payload = message_payload(message);
        if payload.len() != CARTESIAN_LIMIT_SIZE {
            return Err(incorrect_message_size());
        }
        let zero = Double { bits: 0 };
        let mut object_world_size = [zero; 3];
        let mut p_frame = [zero; 16];
        let mut i: usize = 0;
        while i < 3
            invariant
                i <= 3,
                payload@.len() == CARTESIAN_LIMIT_SIZE,
                forall|j: int| 0 <= j < i ==> #[trigger] object_world_size@[j] == bytes::double_at(payload@, 1 + 8 * j),
            decreases 3 - i,
        {
            object_world_size[i] = read_double(payload, 1 + 8 * i);
            i = i + 1;
        }
        i = 0;
        while i < 16
            invariant
                i <= 16,
                payload@.len() == CARTESIAN_LIMIT_SIZE,
                forall|j: int| 0 <= j < i ==> #[trigger] p_frame@[j] == bytes::double_at(payload@, 25 + 8 * j),
            decreases 16 - i,
        {
            p_frame[i] = read_double(payload, 25 + 8 * i);
            i = i + 1;
        }
        let active = payload[153] != 0;
        proof {
            let wall = wall_of(id, payload@);
            assert(object_world_size =~= wall.object_world_size);
            assert(p_frame =~= wall.p_frame);
        }
        let status = match codec::parse_getter_setter_status(
            self.version(),
            payload[0],
            name.as_str(),
        ) {
            Ok(status) => status,
            Err(e) => {
                return Err(e);
            },
        };
        match handle_getter_setter_response(self, name, status) {
            Ok(()) => Ok(VirtualWallCuboid { id, object_world_size, p_frame, active }),
            Err(e) => Err(e),
        }
    }

    /// Asks for the robot description. Version 10 only.
    pub fn get_robot_model(&self) -> (r: Result<ModelCall, FrankaError>)
        ensures
            error::seen(r) == (match begun(self@, Request::GetRobotModel) {
                Ok(exchange) => Ok(ModelCall { exchange }),
                Err(e) => Err(e),
            }),
    {
        match self.execute(CommandKind::GetRobotModel, Request::GetRobotModel) {
            Ok(exchange) => Ok(ModelCall { exchange }),
            Err(e) => Err(e),
        }
    }

    /// Asks for the model library of this machine. Version 5 robots serve one.
    pub fn load_model_v5(&self, architecture: u8, system: u8) -> (r: Result<LibraryCall, FrankaError>)
        ensures
            error::seen(r) == (match begun(self@, Request::LoadModelLibrary { architecture, system }) {
                Ok(exchange) => Ok(LibraryCall { exchange }),
                Err(e) => Err(e),
            }),
    {
        match self.execute(
            CommandKind::LoadModelLibrary,
            Request::LoadModelLibrary { architecture, system },
        ) {
            Ok(exchange) => Ok(LibraryCall { exchange }),
            Err(e) => Err(e),
        }
    }

    /// Sets the cut-off frequencies of the robot's own filters. Version 5 only.
    pub fn set_filters(
        &self,
        joint_position_filter_frequency: Double,
        joint_velocity_filter_frequency: Double,
        cartesian_position_filter_frequency: Double,
        cartesian_velocity_filter_frequency: Double,
        controller_filter_frequency: Double,
    ) -> (r: Result<CommandCall, FrankaError>)
        ensures
            error::seen(r) == self.commanded(
                CommandName::SetFilters,
                Request::SetFilters {
                    frequencies: [
                        joint_position_filter_frequency,
                        joint_velocity_filter_frequency,
                        cartesian_position_filter_frequency,
                        cartesian_velocity_filter_frequency,
                        controller_filter_frequency,
                    ],
                },
            ),
            r matches Ok(call) ==> {
                &&& call.name is SetFilters
                &&& call.exchange matches Exchange::Sending {
                    request: Request::SetFilters { frequencies: f },
                    ..
                }
                &&& f[0] == joint_position_filter_frequency
                &&& f[1] == joint_velocity_filter_frequency
                &&& f[2] == cartesian_position_filter_frequency
                &&& f[3] == cartesian_velocity_filter_frequency
                &&& f[4] == controller_filter_frequency
            },
    {
        self.execute_setter(
            CommandName::SetFilters,
            Request::SetFilters {
                frequencies: [
                    joint_position_filter_frequency,
                    joint_velocity_filter_frequency,
                    cartesian_position_filter_frequency,
                    cartesian_velocity_filter_frequency,
                    controller_filter_frequency,
                ],
            },
        )
    }

    /// Asks for a virtual wall. Version 5 only.
    pub fn virtual_wall(&self, id: i32) -> (r: Result<WallCall, FrankaError>)
        ensures
            error::seen(r) == (match begun(self@, Request::GetCartesianLimit { id }) {
                Ok(exchange) => Ok(WallCall { id, exchange }),
                Err(e) => Err(e),
            }),
    {
        match self.execute(CommandKind::GetCartesianLimit, Request::GetCartesianLimit { id }) {
            Ok(exchange) => Ok(WallCall { id, exchange }),
            Err(e) => Err(e),
        }
    }

    /// Sets the contact and collision thresholds.
    pub fn set_collision_behavior(
        &self,
        lower_torque_thresholds_acceleration: &[Double; 7],
        upper_torque_thresholds_acceleration: &[Double; 7],
        lower_torque_thresholds_nominal: &[Double; 7],
        upper_torque_thresholds_nominal: &[Double; 7],
        lower_force_thresholds_acceleration: &[Double; 6],
        upper_force_thresholds_acceleration: &[Double; 6],
        lower_force_thresholds_nominal: &[Double; 6],
        upper_force_thresholds_nominal: &[Double; 6],
    ) -> (r: Result<CommandCall, FrankaError>)
        ensures
            error::seen(r) == self.commanded(
                CommandName::SetCollisionBehavior,
                Request::SetCollisionBehavior {
                    lower_torque_thresholds_acceleration: *lower_torque_thresholds_acceleration,
                    upper_torque_thresholds_acceleration: *upper_torque_thresholds_acceleration,
                    lower_torque_thresholds_nominal: *lower_torque_thresholds_nominal,
                    upper_torque_thresholds_nominal: *upper_torque_thresholds_nominal,
                    lower_force_thresholds_acceleration: *lower_force_thresholds_acceleration,
                    upper_force_thresholds_acceleration: *upper_force_thresholds_acceleration,
                    lower_force_thresholds_nominal: *lower_force_thresholds_nominal,
                    upper_force_thresholds_nominal: *upper_force_thresholds_nominal,
                },
            ),
    {
        self.execute_setter(
            CommandName::SetCollisionBehavior,
            Request::SetCollisionBehavior {
                lower_torque_thresholds_acceleration: *lower_torque_thresholds_acceleration,
                upper_torque_thresholds_acceleration: *upper_torque_thresholds_acceleration,
                lower_torque_thresholds_nominal: *lower_torque_thresholds_nominal,
                upper_torque_thresholds_nominal: *upper_torque_thresholds_nominal,
                lower_force_thresholds_acceleration: *lower_force_thresholds_acceleration,
                upper_force_thresholds_acceleration: *upper_force_thresholds_acceleration,
                lower_force_thresholds_nominal: *lower_force_thresholds_nominal,
                upper_force_thresholds_nominal: *upper_force_thresholds_nominal,
            },
        )
    }

    /// Sets the joint stiffness.
    pub fn set_joint_impedance(&self, K_theta: &[Double; 7]) -> (r: Result<CommandCall, FrankaError>)
        ensures
            error::seen(r) == self.commanded(
                CommandName::SetJointImpedance,
                Request::SetJointImpedance { K_theta: *K_theta },
            ),
    {
        self.execute_setter(
            CommandName::SetJointImpedance,
            Request::SetJointImpedance { K_theta: *K_theta },
        )
    }

    /// Sets the Cartesian stiffness.
    pub fn set_cartesian_impedance(&self, K_x: &[Double; 6]) -> (r: Result<CommandCall, FrankaError>)
        ensures
            error::seen(r) == self.commanded(
                CommandName::SetCartesianImpedance,
                Request::SetCartesianImpedance { K_x: *K_x },
            ),
    {
        self.execute_setter(
            CommandName::SetCartesianImpedance,
            Request::SetCartesianImpedance { K_x: *K_x },
        )
    }

    /// Locks or unlocks guiding along each axis and of the elbow.
    pub fn set_guiding_mode(&self, guiding_mode: &[bool; 6], elbow: bool) -> (r: Result<
        CommandCall,
        FrankaError,
    >)
        ensures
            error::seen(r) == self.commanded(
                CommandName::SetGuidingMode,
                Request::SetGuidingMode { guiding_mode: *guiding_mode, elbow },
            ),
    {
        self.execute_setter(
            CommandName::SetGuidingMode,
            Request::SetGuidingMode { guiding_mode: *guiding_mode, elbow },
        )
    }

    /// Sets the stiffness frame.
    pub fn set_k(&self, EE_T_K: &[Double; 16]) -> (r: Result<CommandCall, FrankaError>)
        ensures
            error::seen(r) == self.commanded(
                CommandName::SetEEToK,
                Request::SetEEToK { EE_T_K: *EE_T_K },
            ),
    {
        self.execute_setter(CommandName::SetEEToK, Request::SetEEToK { EE_T_K: *EE_T_K })
    }

    /// Sets the end effector frame.
    pub fn set_ee(&self, NE_T_EE: &[Double; 16]) -> (r: Result<CommandCall, FrankaError>)
        ensures
            error::seen(r) == self.commanded(
                CommandName::SetNEToEE,
                Request::SetNEToEE { NE_T_EE: *NE_T_EE },
            ),
    {
        self.execute_setter(CommandName::SetNEToEE, Request::SetNEToEE { NE_T_EE: *NE_T_EE })
    }

    /// Sets the load.
    pub fn set_load(
        &self,
        load_mass: Double,
        F_x_Cload: &[Double; 3],
        load_inertia: &[Double; 9],
    ) -> (r: Result<CommandCall, FrankaError>)
        ensures
            error::seen(r) == self.commanded(
                CommandName::SetLoad,
                Request::SetLoad { load_mass, F_x_Cload: *F_x_Cload, load_inertia: *load_inertia },
            ),
    {
        self.execute_setter(
            CommandName::SetLoad,
            Request::SetLoad { load_mass, F_x_Cload: *F_x_Cload, load_inertia: *load_inertia },
        )
    }

    /// Clears a reflex and enables motion again.
    pub fn automatic_error_recovery(&self) -> (r: Result<CommandCall, FrankaError>)
        ensures
            error::seen(r) == self.commanded(
                CommandName::AutomaticErrorRecovery,
                Request::AutomaticErrorRecovery,
            ),
    {
        self.execute_setter(CommandName::AutomaticErrorRecovery, Request::AutomaticErrorRecovery)
    }

    /// Stops the running motion; may be called while a control loop is running.
    pub fn stop(&self) -> (r: Result<CommandCall, FrankaError>)
        ensures
            error::seen(r) == self.commanded(CommandName::StopMove, Request::StopMove),
    {
        self.execute_setter(CommandName::StopMove, Request::StopMove)
    }
}

/// A command that the version does not have is refused, and nothing is sent.
pub proof fn law_missing_commands_are_refused(robot: RobotView, request: Request)
    ensures
        begun(robot, request) is Err <==> codec::id_of(robot.version, request.kind()) is None,
        begun(robot, request) matches Err(e) ==> e is InvalidOperation,
        begun(robot, request) matches Ok(exchange) ==> exchange.awaiting() == (Action::Send {
            command: codec::id_of(robot.version, request.kind())->Some_0,
            request,
        }),
{
}

/// A command that returns nothing is acknowledged exactly when the first byte after the header is
/// zero, which stands for success under both versions; without that byte, and with one that stands
/// for nothing, the response is against the protocol.
pub proof fn law_zero_acknowledges(robot: RobotView, name: CommandName, message: Seq<u8>)
    ensures
        acknowledged(robot, name, message) is Ok <==> message.len() > 12 && message[12] == 0,
        message.len() <= 12 ==> (acknowledged(robot, name, message) matches Err(e) && e is Protocol),
        message.len() > 12 && message[12] > 6 ==> (acknowledged(robot, name, message) matches Err(e)
            && e is Protocol),
        acknowledged(robot, name, message) matches Err(e) ==> e is Protocol || e is Command,
{
}

/// The robot description is what follows that byte; it is had exactly when the byte is zero.
pub proof fn law_description_follows_the_status(robot: RobotView, message: Seq<u8>)
    ensures
        described(robot, message) is Ok <==> message.len() > 12 && message[12] == 0,
        described(robot, message) matches Ok(text) ==> text == utf8_lossy(
            message.subrange(13, message.len() as int),
        ),
{
    if message.len() > 12 {
        assert(message.skip(12).skip(1) =~= message.subrange(13, message.len() as int));
    }
}

/// A virtual wall has the number that was asked for. Its corner, its pose and whether it is active
/// follow the status byte, eight bytes for each number and one for the flag.
pub proof fn law_wall_is_read_in_order(robot: RobotView, id: i32, message: Seq<u8>, i: int)
    ensures
        walled(robot, id, message) is Ok <==> message.len() == 166 && message[12] == 0,
        walled(robot, id, message) matches Ok(wall) ==> {
            &&& wall.id == id
            &&& 0 <= i < 3 ==> wall.object_world_size[i] == bytes::double_at(message, 13 + 8 * i)
            &&& 0 <= i < 16 ==> wall.p_frame[i] == bytes::double_at(message, 37 + 8 * i)
            &&& wall.active <==> message[165] != 0
        },
        message.len() != 166 ==> (walled(robot, id, message) matches Err(e) && e is Protocol),
{
    if message.len() == 166 {
        let payload = message.skip(12);
        assert(codec::payload_of(message) == payload);
        assert forall|at: int| 0 <= at <= 146 implies #[trigger] bytes::double_at(payload, at)
            == bytes::double_at(message, at + 12) by {
            assert(payload.subrange(at, at + 8) =~= message.subrange(at + 12, at + 20));
        }
        let wall = wall_of(id, payload);
        assert(0 <= i < 3 ==> wall.object_world_size[i] == bytes::double_at(payload, 1 + 8 * i));
        assert(0 <= i < 16 ==> wall.p_frame[i] == bytes::double_at(payload, 25 + 8 * i));
    }
}

/// The library is what follows the status byte, and there must be some of it; it is had exactly when
/// that byte is zero. One means that the robot could not load it.
pub proof fn law_library_follows_the_status(message: Seq<u8>)
    ensures
        library_of(message) is Ok <==> message.len() > 13 && message[12] == 0,
        library_of(message) matches Ok(library) ==> library == message.subrange(
            13,
            message.len() as int,
        ),
        message.len() > 12 && message[12] == 1 ==> (library_of(message) matches Err(e) && e is Model),
        library_of(message) matches Err(e) ==> (e is Model <==> message.len() > 12 && message[12]
            == 1),
{
    if message.len() > 12 {
        assert(message.skip(12).skip(1) =~= message.subrange(13, message.len() as int));
    }
}

/// An exchange waits for the response to the request that it sent, by the number that the request
/// went out with, and ends with that response.
pub proof fn law_exchange_waits_for_its_response(
    command: u32,
    request: Request,
    command_id: u32,
    message: Vec<u8>,
)
    ensures
        ({
            let sending = Exchange::Sending { command, request };
            &&& sending.awaiting() == (Action::Send { command, request })
            &&& sending.next(Event::Sent(command_id)) matches Progress::Continue(next, action)
            &&& action == (Action::AwaitResponse { command_id })
            &&& next.next(Event::Response(message)) matches Progress::Done(Ok(got))
            &&& got == message
        }),
{
}

/// A command call ends with what its response means for the command that was asked for, and changes
/// nothing of the session.
pub proof fn law_calls_change_nothing(
    robot: RobotView,
    event: Event,
    command: CommandCall,
    model: ModelCall,
    wall: WallCall,
    library: LibraryCall,
)
    ensures
        command.next(robot, event).0 == robot,
        model.next(robot, event).0 == robot,
        wall.next(robot, event).0 == robot,
        library.next(robot, event).0 == robot,
        command.next(robot, event).1 matches Progress::Continue(next, _) ==> next.name
            == command.name,
        wall.next(robot, event).1 matches Progress::Continue(next, _) ==> next.id == wall.id,
        command.next(robot, event).1 matches Progress::Done(Ok(_)) ==> (
        event matches Event::Response(message) && message@.len() > 12 && message@[12] == 0),
{
    if let Event::Response(message) = event {
        law_zero_acknowledges(robot, command.name, message@);
    }
}

} // verus!
