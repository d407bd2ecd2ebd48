//! Connecting: realtime priority, the handshake, the first state and the robot description.
use crate::error;
use crate::error::{
    incorrect_message_size, incorrect_object_size, protocol_error, ErrorView, FrankaError,
};
use crate::realtime::RealtimeConfig;
use crate::robot::options::VersionPolicy;
use crate::robot::robot_impl::calls;
use crate::robot::robot_impl::calls::Exchange;
use crate::robot::robot_impl::{JointVelocityLimitsConfig, RobotImpl, RobotView, State};
use crate::step::{Action, Event, Progress, StateDatagram};
use crate::wire::bytes;
use crate::wire::bytes::read_u16;
use crate::wire::codec;
use crate::wire::codec::{message_payload, CommandKind, FciVersion};
use crate::wire::modes::StateModes;
use crate::wire::request::Request;
use vstd::pervasive::unreached;
use vstd::prelude::*;

verus! {

/// What connecting wants done next.
#[derive(Clone, Copy, PartialEq, Debug)]
pub enum SetupAction {
    /// Raise the thread to the highest realtime priority; answered by [`SetupEvent::Raised`] or
    /// [`SetupEvent::NotRaised`].
    RaisePriority,
    /// Say whether the kernel has realtime capabilities; answered by [`SetupEvent::Kernel`].
    CheckKernel,
    /// Open the TCP connection and a UDP socket; answered by [`SetupEvent::Opened`].
    Open,
    /// Close both; answered by [`SetupEvent::Closed`].
    Close,
    /// Perform an action on the open connection; answered by [`SetupEvent::Performed`].
    Perform(Action),
    /// Read the joint velocity limits out of [`Setup::description`]; answered by
    /// [`SetupEvent::Limits`].
    ReadLimits,
}

/// What came of it.
#[derive(Debug)]
pub enum SetupEvent {
    /// The action failed; connecting ends with this error.
    Failed(FrankaError),
    /// The thread has realtime priority.
    Raised,
    /// The thread does not have realtime priority, for this reason.
    NotRaised(String),
    /// Whether the kernel has realtime capabilities.
    Kernel(bool),
    /// The connection is open, and states are to be sent to this port.
    Opened { udp_port: u16 },
    /// The connection is closed.
    Closed,
    /// What came of an action on the open connection.
    Performed(Event),
    /// The joint velocity limits.
    Limits(JointVelocityLimitsConfig),
}

impl SetupAction {
    /// Whether an event is an answer to this action.
    pub open spec fn answered(self, event: SetupEvent) -> bool {
        event is Failed || match self {
            SetupAction::RaisePriority => event is Raised || event is NotRaised,
            SetupAction::CheckKernel => event is Kernel,
            SetupAction::Open => event is Opened,
            SetupAction::Close => event is Closed,
            SetupAction::Perform(action) => event matches SetupEvent::Performed(e)
                && action.answered(e),
            SetupAction::ReadLimits => event is Limits,
        }
    }

    /// Whether an event is an answer to this action.
    pub fn answered_by(&self, event: &SetupEvent) -> (b: bool)
        ensures
            b == self.answered(*event),
    {
        match event {
            SetupEvent::Failed(_) => true,
            SetupEvent::Raised => matches!(self, SetupAction::RaisePriority),
            SetupEvent::NotRaised(_) => matches!(self, SetupAction::RaisePriority),
            SetupEvent::Kernel(_) => matches!(self, SetupAction::CheckKernel),
            SetupEvent::Opened { .. } => matches!(self, SetupAction::Open),
            SetupEvent::Closed => matches!(self, SetupAction::Close),
            SetupEvent::Performed(e) => match self {
                SetupAction::Perform(action) => action.answered_by(e),
                _ => false,
            },
            SetupEvent::Limits(_) => matches!(self, SetupAction::ReadLimits),
        }
    }
}

/// How far connecting has come.
#[derive(Debug)]
pub enum Stage {
    /// Realtime priority is to be had.
    Prioritising,
    /// The kernel is to be looked at.
    Checking,
    /// A connection for this version is to be opened.
    Opening { version: FciVersion },
    /// The versions are being compared.
    Greeting { version: FciVersion, exchange: Exchange },
    /// The robot speaks version 5; the connection is to be closed before another is opened.
    Closing,
    /// The first state is to be received.
    Meeting { version: FciVersion, ri_version: u16 },
    /// The robot description is to be fetched.
    Describing { version: FciVersion, ri_version: u16, modes: StateModes, exchange: Exchange },
    /// The joint velocity limits are to be read out of the description in this response.
    Limiting { version: FciVersion, ri_version: u16, modes: StateModes, message: Vec<u8> },
}

/// Connecting to a robot.
#[derive(Debug)]
pub struct Setup {
    /// Whether realtime priority is insisted on.
    pub realtime_config: RealtimeConfig,
    /// How many cycles the log will keep.
    pub log_size: usize,
    /// How the version is chosen.
    pub policy: VersionPolicy,
    /// How far it has come.
    pub stage: Stage,
}

/// How connecting goes on.
pub type SetupProgress<R, E> = Progress<Setup, SetupAction, Result<R, E>>;

/// Progress with its result in terms of views.
pub open spec fn seen(p: SetupProgress<RobotImpl, FrankaError>) -> SetupProgress<
    RobotView,
    ErrorView,
> {
    match p {
        Progress::Continue(setup, action) => Progress::Continue(setup, action),
        Progress::Done(Ok(robot)) => Progress::Done(Ok(robot@)),
        Progress::Done(Err(e)) => Progress::Done(Err(e@)),
    }
}

/// The version that the robot reports in its answer to `Connect`, or what is wrong. An answer that
/// reports another version is refused like one that says so outright: everything after it would be
/// read wrongly.
pub open spec fn greeted(message: Seq<u8>, library_version: u16) -> Result<u16, ErrorView> {
    let payload = codec::payload_of(message);
    if payload.len() != 3 {
        Err(ErrorView::Protocol("libfranka: Incorrect TCP message size."@))
    } else {
        let server_version = bytes::from_le(payload.subrange(1, 3)) as u16;
        if payload[0] > 1 {
            Err(ErrorView::Protocol("libfranka: Protocol error during connection attempt"@))
        } else if payload[0] == 1 || server_version != library_version {
            Err(ErrorView::IncompatibleVersion { server_version, library_version })
        } else {
            Ok(server_version)
        }
    }
}

/// The version that the robot reports in its answer to `Connect`.
fn connect_as(message: &[u8], library_version: u16) -> (r: Result<u16, FrankaError>)
    ensures
        error::seen(r) == greeted(message@, library_version),
{
    let payload = message_payload(message);
    if payload.len() != 3 {
        return Err(incorrect_message_size());
    }
    let server_version: u16 = read_u16(payload, 1);
    if payload[0] > 1 {
        return Err(protocol_error("libfranka: Protocol error during connection attempt"));
    }
    if payload[0] == 1 || server_version != library_version {
        return Err(FrankaError::IncompatibleVersion { server_version, library_version });
    }
    Ok(server_version)
}

impl Setup {
    /// The version that is tried first.
    pub open spec fn first_version(self) -> FciVersion {
        match self.policy {
            VersionPolicy::Auto => FciVersion::V10,
            VersionPolicy::Exact(version) => version,
        }
    }

    /// What is wanted next.
    pub open spec fn awaiting(self) -> SetupAction {
        match self.stage {
            Stage::Prioritising => SetupAction::RaisePriority,
            Stage::Checking => SetupAction::CheckKernel,
            Stage::Opening { .. } => SetupAction::Open,
            Stage::Greeting { exchange, .. } => SetupAction::Perform(exchange.awaiting()),
            Stage::Closing => SetupAction::Close,
            Stage::Meeting { .. } => SetupAction::Perform(Action::AwaitState),
            Stage::Describing { exchange, .. } => SetupAction::Perform(exchange.awaiting()),
            Stage::Limiting { .. } => SetupAction::ReadLimits,
        }
    }

    /// What is wanted next.
    pub fn action(&self) -> (a: SetupAction)
        ensures
            a == self.awaiting(),
    {
        match &self.stage {
            Stage::Prioritising => SetupAction::RaisePriority,
            Stage::Checking => SetupAction::CheckKernel,
            Stage::Opening { .. } => SetupAction::Open,
            Stage::Greeting { exchange, .. } => SetupAction::Perform(exchange.action()),
            Stage::Closing => SetupAction::Close,
            Stage::Meeting { .. } => SetupAction::Perform(Action::AwaitState),
            Stage::Describing { exchange, .. } => SetupAction::Perform(exchange.action()),
            Stage::Limiting { .. } => SetupAction::ReadLimits,
        }
    }

    /// The same with another stage.
    pub open spec fn at(self, stage: Stage) -> Setup {
        Setup { stage, ..self }
    }

    /// Going on at a stage.
    pub open spec fn onward(self, stage: Stage) -> SetupProgress<RobotView, ErrorView> {
        Progress::Continue(self.at(stage), self.at(stage).awaiting())
    }

    /// The session before its first state.
    pub open spec fn fresh(self, version: FciVersion, ri_version: u16) -> RobotView {
        RobotView {
            version,
            ri_version,
            realtime_config: self.realtime_config,
            state: State::initial(),
            log: Seq::empty(),
            log_size: self.log_size as nat,
            joint_velocity_limits: None,
            urdf: Seq::empty(),
        }
    }

    /// The session after its first state.
    pub open spec fn met(self, version: FciVersion, ri_version: u16, modes: StateModes) -> RobotView {
        self.fresh(version, ri_version).with_state(State::initial().updated(modes))
    }

    /// After the handshake: on, or once more as version 5, or the error.
    pub open spec fn compared(self, version: FciVersion, message: Seq<u8>) -> SetupProgress<
        RobotView,
        ErrorView,
    > {
        match greeted(message, version.spoken()) {
            Ok(ri_version) => self.onward(Stage::Meeting { version, ri_version }),
            Err(e) => if self.policy == VersionPolicy::Auto && version == FciVersion::V10 && (
            e matches ErrorView::IncompatibleVersion { server_version, .. } && server_version == 5) {
                self.onward(Stage::Closing)
            } else {
                Progress::Done(Err(e))
            },
        }
    }

    /// After the first state: that is all for version 5, which has no robot description.
    pub open spec fn acquainted(
        self,
        version: FciVersion,
        ri_version: u16,
        datagram: StateDatagram,
    ) -> SetupProgress<RobotView, ErrorView> {
        if datagram.size != codec::state_len(version) {
            Progress::Done(Err(ErrorView::Protocol("libfranka: incorrect object size"@)))
        } else {
            match datagram.modes {
                Err(e) => Progress::Done(Err(e@)),
                Ok(modes) => {
                    let robot = self.met(version, ri_version, modes);
                    if version == FciVersion::V5 {
                        Progress::Done(Ok(robot))
                    } else {
                        match calls::begun(robot, Request::GetRobotModel) {
                            Err(e) => Progress::Done(Err(e)),
                            Ok(exchange) => self.onward(
                                Stage::Describing { version, ri_version, modes, exchange },
                            ),
                        }
                    }
                },
            }
        }
    }

    /// How connecting goes on after an event.
    pub open spec fn next(self, event: SetupEvent) -> SetupProgress<RobotView, ErrorView> {
        let throw_on_error = self.realtime_config == RealtimeConfig::Enforce;
        let open = Stage::Opening { version: self.first_version() };
        match event {
            SetupEvent::Failed(e) => Progress::Done(Err(e@)),
            _ => match self.stage {
                Stage::Prioritising => match event {
                    SetupEvent::NotRaised(reason) if throw_on_error => Progress::Done(
                        Err(ErrorView::Realtime(reason@)),
                    ),
                    _ => if throw_on_error {
                        self.onward(Stage::Checking)
                    } else {
                        self.onward(open)
                    },
                },
                Stage::Checking => match event {
                    SetupEvent::Kernel(true) => self.onward(open),
                    _ => Progress::Done(
                        Err(
                            ErrorView::Realtime(
                                "libfranka: Running kernel does not have realtime capabilities."@,
                            ),
                        ),
                    ),
                },
                Stage::Opening { version } => {
                    let udp_port = event->udp_port;
                    self.onward(
                        Stage::Greeting {
                            version,
                            exchange: Exchange::Sending {
                                command: 0,
                                request: Request::Connect { version: version.spoken(), udp_port },
                            },
                        },
                    )
                },
                Stage::Greeting { version, exchange } => match exchange.next(event->Performed_0) {
                    Progress::Continue(exchange, _) => self.onward(
                        Stage::Greeting { version, exchange },
                    ),
                    Progress::Done(Err(e)) => Progress::Done(Err(e@)),
                    Progress::Done(Ok(message)) => self.compared(version, message@),
                },
                Stage::Closing => self.onward(Stage::Opening { version: FciVersion::V5 }),
                Stage::Meeting { version, ri_version } => match event->Performed_0 {
                    Event::Failed(e) => Progress::Done(Err(e@)),
                    e => self.acquainted(version, ri_version, e->State_0),
                },
                Stage::Describing { version, ri_version, modes, exchange } => match exchange.next(
                    event->Performed_0,
                ) {
                    Progress::Continue(exchange, _) => self.onward(
                        Stage::Describing { version, ri_version, modes, exchange },
                    ),
                    Progress::Done(Err(e)) => Progress::Done(Err(e@)),
                    Progress::Done(Ok(message)) => match calls::described(
                        self.met(version, ri_version, modes),
                        message@,
                    ) {
                        Err(e) => Progress::Done(Err(e)),
                        Ok(_) => self.onward(
                            Stage::Limiting { version, ri_version, modes, message },
                        ),
                    },
                },
                Stage::Limiting { version, ri_version, modes, message } => Progress::Done(
                    Ok(
                        RobotView {
                            urdf: calls::described(
                                self.met(version, ri_version, modes),
                                message@,
                            )->Ok_0,
                            joint_velocity_limits: Some(event->Limits_0),
                            ..self.met(version, ri_version, modes)
                        },
                    ),
                ),
            },
        }
    }

    /// A description that was accepted stays acceptable.
    pub open spec fn wf(self) -> bool {
        self.stage matches Stage::Limiting { version, ri_version, modes, message }
            ==> calls::described(self.met(version, ri_version, modes), message@) is Ok
    }

    /// The robot description, once it has been fetched.
    pub fn description(&self) -> (r: Option<String>)
        requires
            self.wf(),
        ensures
            match self.stage {
                Stage::Limiting { version, ri_version, modes, message } => r matches Some(urdf)
                    && urdf@ == calls::described(
                    self.met(version, ri_version, modes),
                    message@,
                )->Ok_0,
                _ => r is None,
            },
    {
        match &self.stage {
            Stage::Limiting { version, ri_version, modes, message } => {
                let robot = self.meet(*version, *ri_version, modes);
                match robot.describe(message.as_slice()) {
                    Ok(urdf) => Some(urdf),
                    Err(_) => None,
                }
            },
            _ => None,
        }
    }

    /// The session after its first state.
    fn meet(&self, version: FciVersion, ri_version: u16, modes: &StateModes) -> (r: RobotImpl)
        ensures
            r.wf(),
            r@ == self.met(version, ri_version, *modes),
    {
        let mut robot = RobotImpl::fresh(self.realtime_config, version, ri_version, self.log_size);
        robot.update_state(modes);
        robot
    }

    /// Goes on at a stage.
    fn go(self, stage: Stage, action: SetupAction) -> (r: SetupProgress<RobotImpl, FrankaError>)
        requires
            self.at(stage).wf(),
            self.at(stage).awaiting() == action,
        ensures
            seen(r) == self.onward(stage),
            r matches Progress::Continue(next, action) ==> next.wf() && action == next.awaiting(),
            r matches Progress::Done(Ok(robot)) ==> robot.wf(),
    {
        Progress::Continue(
            Setup {
                realtime_config: self.realtime_config,
                log_size: self.log_size,
                policy: self.policy,
                stage,
            },
            action,
        )
    }

    /// Opens the first connection.
    fn open_first(self) -> (r: SetupProgress<RobotImpl, FrankaError>)
        ensures
            seen(r) == self.onward(Stage::Opening { version: self.first_version() }),
            r matches Progress::Continue(next, action) ==> next.wf() && action == next.awaiting(),
            r matches Progress::Done(Ok(robot)) ==> robot.wf(),
    {
        let version = match self.policy {
            VersionPolicy::Auto => FciVersion::V10,
            VersionPolicy::Exact(version) => version,
        };
        self.go(Stage::Opening { version }, SetupAction::Open)
    }

    /// Goes on after the handshake.
    fn compare(self, version: FciVersion, message: &[u8]) -> (r: SetupProgress<
        RobotImpl,
        FrankaError,
    >)
        ensures
            seen(r) == self.compared(version, message@),
            r matches Progress::Continue(next, action) ==> next.wf() && action == next.awaiting(),
            r matches Progress::Done(Ok(robot)) ==> robot.wf(),
    {
        match connect_as(message, version.number()) {
            Ok(ri_version) => self.go(
                Stage::Meeting { version, ri_version },
                SetupAction::Perform(Action::AwaitState),
            ),
            Err(e) => {
                let speaks_v5 = match &e {
                    FrankaError::IncompatibleVersion { server_version, .. } => *server_version == 5,
                    _ => false,
                };
                if self.policy == VersionPolicy::Auto && version == FciVersion::V10 && speaks_v5 {
                    self.go(Stage::Closing, SetupAction::Close)
                } else {
                    Progress::Done(Err(e))
                }
            },
        }
    }

    /// Goes on after the first state.
    fn acquaint(self, version: FciVersion, ri_version: u16, datagram: StateDatagram) -> (r:
        SetupProgress<RobotImpl, FrankaError>)
        ensures
            seen(r) == self.acquainted(version, ri_version, datagram),
            r matches Progress::Continue(next, action) ==> next.wf() && action == next.awaiting(),
            r matches Progress::Done(Ok(robot)) ==> robot.wf(),
    {
        if datagram.size != codec::state_size(version) {
            return Progress::Done(Err(incorrect_object_size()));
        }
        let modes = match datagram.modes {
            Ok(modes) => modes,
            Err(e) => {
                return Progress::Done(Err(e));
            },
        };
        let robot = self.meet(version, ri_version, &modes);
        if version == FciVersion::V5 {
            return Progress::Done(Ok(robot));
        }
        match robot.execute(CommandKind::GetRobotModel, Request::GetRobotModel) {
            Err(e) => Progress::Done(Err(e)),
            Ok(exchange) => self.go(
                Stage::Describing { version, ri_version, modes, exchange },
                SetupAction::Perform(exchange.action()),
            ),
        }
    }

    /// Goes on after an event.
    pub fn resume(self, event: SetupEvent) -> (r: SetupProgress<RobotImpl, FrankaError>)
        requires
            self.wf(),
            self.awaiting().answered(event),
        ensures
            seen(r) == self.next(event),
            r matches Progress::Continue(next, action) ==> next.wf() && action == next.awaiting(),
            r matches Progress::Done(Ok(robot)) ==> robot.wf(),
    {
        let Setup { realtime_config, log_size, policy, stage } = self;
        let rest = Setup { realtime_config, log_size, policy, stage: Stage::Prioritising };
        let throw_on_error = realtime_config == RealtimeConfig::Enforce;
        match event {
            SetupEvent::Failed(e) => Progress::Done(Err(e)),
            SetupEvent::Raised => if throw_on_error {
                rest.go(Stage::Checking, SetupAction::CheckKernel)
            } else {
                rest.open_first()
            },
            SetupEvent::NotRaised(reason) => if throw_on_error {
                Progress::Done(Err(FrankaError::Realtime(reason)))
            } else {
                rest.open_first()
            },
            SetupEvent::Kernel(capable) => if capable {
                rest.open_first()
            } else {
                Progress::Done(
                    Err(
                        FrankaError::Realtime(
                            String::from_str(
                                "libfranka: Running kernel does not have realtime capabilities.",
                            ),
                        ),
                    ),
                )
            },
            SetupEvent::Opened { udp_port } => {
                let version = match stage {
                    Stage::Opening { version } => version,
                    _ => unreached(),
                };
                let request = Request::Connect { version: version.number(), udp_port };
                rest.go(
                    Stage::Greeting { version, exchange: Exchange::Sending { command: 0, request } },
                    SetupAction::Perform(Action::Send { command: 0, request }),
                )
            },
            SetupEvent::Closed => rest.go(
                Stage::Opening { version: FciVersion::V5 },
                SetupAction::Open,
            ),
            SetupEvent::Limits(limits) => match stage {
                Stage::Limiting { version, ri_version, modes, message } => {
                    let robot = rest.meet(version, ri_version, &modes);
                    match robot.describe(message.as_slice()) {
                        Ok(urdf) => Progress::Done(Ok(robot.with_description(urdf, limits))),
                        Err(e) => Progress::Done(Err(e)),
                    }
                },
                _ => unreached(),
            },
            SetupEvent::Performed(event) => match stage {
                Stage::Greeting { version, exchange } => match exchange.resume(event) {
                    Progress::Continue(exchange, action) => rest.go(
                        Stage::Greeting { version, exchange },
                        SetupAction::Perform(action),
                    ),
                    Progress::Done(Err(e)) => Progress::Done(Err(e)),
                    Progress::Done(Ok(message)) => rest.compare(version, message.as_slice()),
                },
                Stage::Meeting { version, ri_version } => match event {
                    Event::State(datagram) => rest.acquaint(version, ri_version, datagram),
                    Event::Failed(e) => Progress::Done(Err(e)),
                    _ => unreached(),
                },
                Stage::Describing { version, ri_version, modes, exchange } => match exchange.resume(
                    event,
                ) {
                    Progress::Continue(exchange, action) => rest.go(
                        Stage::Describing { version, ri_version, modes, exchange },
                        SetupAction::Perform(action),
                    ),
                    Progress::Done(Err(e)) => Progress::Done(Err(e)),
                    Progress::Done(Ok(message)) => {
                        let robot = rest.meet(version, ri_version, &modes);
                        match robot.describe(message.as_slice()) {
                            Err(e) => Progress::Done(Err(e)),
                            Ok(_) => rest.go(
                                Stage::Limiting { version, ri_version, modes, message },
                                SetupAction::ReadLimits,
                            ),
                        }
                    },
                },
                _ => unreached(),
            },
        }
    }
}

impl RobotImpl {
    /// Begins to connect, trying version 10 first.
    pub fn new(realtime_config: RealtimeConfig, log_size: usize) -> (r: Setup)
        ensures
            r == (Setup {
                realtime_config,
                log_size,
                policy: VersionPolicy::Auto,
                stage: Stage::Prioritising,
            }),
            r.wf(),
    {
        RobotImpl::new_with_policy(realtime_config, log_size, VersionPolicy::default())
    }

    /// Begins to connect.
    ///
    /// The thread is raised to realtime priority and the kernel checked, which is fatal only where
    /// that is insisted on; then comes the handshake, then the first state, and under version 10
    /// the robot description and the joint velocity limits in it.
    pub fn new_with_policy(
        realtime_config: RealtimeConfig,
        log_size: usize,
        policy: VersionPolicy,
    ) -> (r: Setup)
        ensures
            r == (Setup { realtime_config, log_size, policy, stage: Stage::Prioritising }),
            r.wf(),
    {
        Setup { realtime_config, log_size, policy, stage: Stage::Prioritising }
    }

    /// The same session with its description.
    fn with_description(self, urdf: String, limits: JointVelocityLimitsConfig) -> (r: RobotImpl)
        requires
            self.wf(),
        ensures
            r.wf(),
            r@ == (RobotView { urdf: urdf@, joint_velocity_limits: Some(limits), ..self@ }),
    {
        let mut robot = self;
        robot.robot_model_urdf = urdf;
        robot.joint_velocity_limits = Some(limits);
        robot
    }
}

impl Setup {
    /// Where connecting stands after a sequence of events.
    pub open spec fn run(self, events: Seq<SetupEvent>) -> SetupProgress<RobotView, ErrorView>
        decreases events.len(),
    {
        if events.len() == 0 {
            Progress::Continue(self, self.awaiting())
        } else {
            match self.run(events.drop_last()) {
                Progress::Continue(setup, _) => setup.next(events.last()),
                ended => ended,
            }
        }
    }

    /// Every event answers what was wanted, and connecting does not end before the last.
    pub open spec fn fits(self, events: Seq<SetupEvent>) -> bool
        decreases events.len(),
    {
        events.len() > 0 ==> {
            &&& self.fits(events.drop_last())
            &&& self.run(events.drop_last()) matches Progress::Continue(now, _)
            &&& now.awaiting().answered(events.last())
        }
    }

    /// How many connections have been asked for.
    pub open spec fn opens(self, events: Seq<SetupEvent>) -> nat
        decreases events.len(),
    {
        if events.len() == 0 {
            0
        } else {
            let before = self.opens(events.drop_last());
            match self.run(events) {
                Progress::Continue(_, SetupAction::Open) => before + 1,
                _ => before,
            }
        }
    }

    /// How many connections have been closed for another.
    pub open spec fn closes(self, events: Seq<SetupEvent>) -> nat
        decreases events.len(),
    {
        if events.len() == 0 {
            0
        } else {
            let before = self.closes(events.drop_last());
            match self.run(events) {
                Progress::Continue(_, SetupAction::Close) => before + 1,
                _ => before,
            }
        }
    }
}

/// The version that connecting stands at, where it stands at one.
pub open spec fn version_at(stage: Stage) -> Option<FciVersion> {
    match stage {
        Stage::Opening { version } => Some(version),
        Stage::Greeting { version, .. } => Some(version),
        Stage::Meeting { version, .. } => Some(version),
        Stage::Describing { version, .. } => Some(version),
        Stage::Limiting { version, .. } => Some(version),
        _ => None,
    }
}

/// What holds of connecting at every stage.
proof fn lemma_setup_runs(
    realtime_config: RealtimeConfig,
    log_size: usize,
    policy: VersionPolicy,
    events: Seq<SetupEvent>,
)
    requires
        (Setup { realtime_config, log_size, policy, stage: Stage::Prioritising }).fits(events),
    ensures
        ({
            let setup = Setup { realtime_config, log_size, policy, stage: Stage::Prioritising };
            match setup.run(events) {
                Progress::Continue(now, _) => {
                    &&& now.realtime_config == realtime_config
                    &&& now.log_size == log_size
                    &&& now.policy == policy
                    &&& match now.stage {
                        Stage::Prioritising | Stage::Checking => setup.opens(events) == 0
                            && setup.closes(events) == 0,
                        Stage::Closing => setup.opens(events) == 1 && setup.closes(events) == 1
                            && policy == VersionPolicy::Auto,
                        _ => {
                            ||| setup.opens(events) == 1 && setup.closes(events) == 0 && version_at(
                                now.stage,
                            ) == Some(setup.first_version())
                            ||| setup.opens(events) == 2 && setup.closes(events) == 1 && version_at(
                                now.stage,
                            ) == Some(FciVersion::V5) && policy == VersionPolicy::Auto
                        },
                    }
                    &&& match now.stage {
                        Stage::Meeting { version, ri_version } => ri_version == version.spoken(),
                        Stage::Describing { version, ri_version, .. } => ri_version
                            == version.spoken(),
                        Stage::Limiting { version, ri_version, .. } => ri_version
                            == version.spoken(),
                        _ => true,
                    }
                },
                Progress::Done(result) => {
                    &&& setup.opens(events) <= 2
                    &&& setup.opens(events) == 2 ==> setup.closes(events) == 1
                    &&& policy != VersionPolicy::Auto ==> setup.opens(events) <= 1
                    &&& result matches Ok(robot) ==> {
                        &&& robot.ri_version == robot.version.spoken()
                        &&& setup.opens(events) == 1 ==> robot.version == setup.first_version()
                        &&& setup.opens(events) == 2 ==> robot.version == FciVersion::V5
                        &&& setup.opens(events) >= 1
                    }
                },
            }
        }),
    decreases events.len(),
{
    if events.len() > 0 {
        lemma_setup_runs(realtime_config, log_size, policy, events.drop_last());
    }
}

/// A session speaks the version that the robot reported. One version is tried and never another
/// when that was asked for. Otherwise version 10 is tried first and version 5 at most once after
/// it, on a second connection that is opened when the first was closed.
pub proof fn law_versions_agree(
    realtime_config: RealtimeConfig,
    log_size: usize,
    policy: VersionPolicy,
    events: Seq<SetupEvent>,
)
    requires
        (Setup { realtime_config, log_size, policy, stage: Stage::Prioritising }).fits(events),
    ensures
        ({
            let setup = Setup { realtime_config, log_size, policy, stage: Stage::Prioritising };
            &&& setup.opens(events) <= 2
            &&& policy != VersionPolicy::Auto ==> setup.opens(events) <= 1
            &&& setup.opens(events) == 2 ==> setup.closes(events) == 1
            &&& setup.run(events) matches Progress::Done(Ok(robot)) ==> {
                &&& robot.ri_version == robot.version.spoken()
                &&& setup.opens(events) == 1 ==> robot.version == setup.first_version()
                &&& setup.opens(events) == 2 ==> robot.version == FciVersion::V5
                &&& setup.opens(events) >= 1
                &&& policy matches VersionPolicy::Exact(version) ==> robot.version == version
            }
        }),
{
    lemma_setup_runs(realtime_config, log_size, policy, events);
}

/// A robot that refuses version 10 and reports version 5, or accepts it and reports version 5, is
/// tried again as version 5 when the version may be chosen; when version 10 was asked for the same
/// answer is the error that names both versions.
pub proof fn law_version_5_is_recognised(setup: Setup, message: Seq<u8>)
    requires
        codec::payload_of(message).len() == 3,
        codec::payload_of(message)[0] <= 1,
        bytes::from_le(codec::payload_of(message).subrange(1, 3)) == 5,
    ensures
        setup.policy == VersionPolicy::Auto ==> setup.compared(FciVersion::V10, message)
            == setup.onward(Stage::Closing),
        setup.policy == VersionPolicy::Exact(FciVersion::V10) ==> setup.compared(
            FciVersion::V10,
            message,
        ) == (Progress::Done::<Setup, SetupAction, Result<RobotView, ErrorView>>(
            Err(ErrorView::IncompatibleVersion { server_version: 5, library_version: 10 }),
        )),
{
}

/// A robot greets with three bytes: a status, and its version. It is accepted exactly when the status
/// is zero and the version is the one that was announced.
pub proof fn law_greeting(message: Seq<u8>, library_version: u16)
    ensures
        greeted(message, library_version) is Ok <==> {
            &&& message.len() == 15
            &&& message[12] == 0
            &&& message[13] + 256 * message[14] == library_version
        },
        greeted(message, library_version) matches Ok(server_version) ==> server_version
            == library_version,
        greeted(message, library_version) matches Err(
            ErrorView::IncompatibleVersion { server_version, library_version: own },
        ) ==> own == library_version && server_version == message[13] + 256 * message[14],
        message.len() == 15 && message[12] <= 1 ==> !(greeted(message, library_version) matches Err(
            ErrorView::Protocol(_),
        )),
        message.len() != 15 || message[12] > 1 ==> (greeted(message, library_version) matches Err(e)
            && e is Protocol),
{
    if message.len() == 15 {
        let payload = codec::payload_of(message);
        let part = payload.subrange(1, 3);
        reveal_with_fuel(bytes::from_le, 3);
        assert(part.drop_first().drop_first() =~= Seq::empty());
        assert(part[0] == message[13] && part[1] == message[14]);
        assert(bytes::from_le(part) == message[13] + 256 * message[14]);
    }
}

/// Realtime priority and the kernel matter only where they are insisted on: there a thread that
/// could not be raised and a kernel without realtime capabilities end the connecting, and elsewhere
/// the connection is opened whatever came of it.
pub proof fn law_realtime_is_insisted_on(
    realtime_config: RealtimeConfig,
    log_size: usize,
    policy: VersionPolicy,
    event: SetupEvent,
    capable: bool,
)
    requires
        event is Raised || event is NotRaised,
    ensures
        ({
            let setup = Setup { realtime_config, log_size, policy, stage: Stage::Prioritising };
            let p = setup.next(event);
            &&& setup.awaiting() is RaisePriority
            &&& realtime_config is Ignore ==> (p matches Progress::Continue(_, action)
                && action is Open)
            &&& realtime_config is Enforce && event is Raised ==> (p matches Progress::Continue(
                _,
                action,
            ) && action is CheckKernel)
            &&& realtime_config is Enforce && event is NotRaised ==> (p matches Progress::Done(
                Err(e),
            ) && e is Realtime)
        }),
        ({
            let setup = Setup { realtime_config, log_size, policy, stage: Stage::Checking };
            let p = setup.next(SetupEvent::Kernel(capable));
            &&& capable ==> (p matches Progress::Continue(_, action) && action is Open)
            &&& !capable ==> (p matches Progress::Done(Err(e)) && e is Realtime)
        }),
{
}

/// An opened connection is greeted under the number of `Connect`, with the version that is to be
/// spoken and the port that states are to come to.
pub proof fn law_greeting_announces_the_version(setup: Setup, version: FciVersion, event: SetupEvent)
    requires
        setup.stage == (Stage::Opening { version }),
        event is Opened,
    ensures
        setup.next(event) matches Progress::Continue(
            next,
            SetupAction::Perform(Action::Send { command, request }),
        ) && command == 0 && request == (Request::Connect {
            version: match version {
                FciVersion::V5 => 5,
                FciVersion::V10 => 10,
            },
            udp_port: event->udp_port,
        }) && (next.stage matches Stage::Greeting { version: v, .. } && v == version),
{
}

/// After its first state a session of version 5 is complete and one of version 10 fetches the robot
/// description. The state must have the size of a state of that version, and brings its modes.
pub proof fn law_first_state(
    setup: Setup,
    version: FciVersion,
    ri_version: u16,
    datagram: StateDatagram,
)
    ensures
        ({
            let p = setup.acquainted(version, ri_version, datagram);
            let whole = datagram.size == (match version {
                FciVersion::V5 => 2373usize,
                FciVersion::V10 => 1377usize,
            });
            &&& !whole ==> (p matches Progress::Done(Err(e)) && e is Protocol)
            &&& whole && datagram.modes is Err ==> p is Done && p->Done_0 is Err
            &&& whole && datagram.modes is Ok && version is V5 ==> {
                &&& p matches Progress::Done(Ok(robot))
                &&& robot.version == version
                &&& robot.ri_version == ri_version
                &&& robot.realtime_config == setup.realtime_config
                &&& robot.log_size == setup.log_size
                &&& robot.state.message_id == datagram.modes->Ok_0.message_id
                &&& robot.state == State::initial().updated(datagram.modes->Ok_0)
                &&& robot.log.len() == 0 && robot.urdf.len() == 0
                &&& robot.joint_velocity_limits is None
            }
            &&& whole && datagram.modes is Ok && version is V10 ==> {
                &&& p matches Progress::Continue(
                    next,
                    SetupAction::Perform(Action::Send { command, request }),
                )
                &&& command == 12
                &&& request is GetRobotModel
                &&& next.stage matches Stage::Describing { version: v, ri_version: r, modes, .. }
                &&& v == version && r == ri_version && modes == datagram.modes->Ok_0
            }
        }),
{
}

/// A session of version 10 carries the description that was fetched, the joint velocity limits that
/// were read out of it, and the modes of the first state.
pub proof fn law_session_carries_its_description(
    setup: Setup,
    version: FciVersion,
    ri_version: u16,
    modes: StateModes,
    message: Vec<u8>,
    limits: JointVelocityLimitsConfig,
)
    requires
        setup.stage == (Stage::Limiting { version, ri_version, modes, message }),
        setup.wf(),
    ensures
        setup.next(SetupEvent::Limits(limits)) matches Progress::Done(Ok(robot)) && {
            &&& robot.urdf == calls::utf8_lossy(message@.subrange(13, message@.len() as int))
            &&& robot.joint_velocity_limits == Some(limits)
            &&& robot.version == version
            &&& robot.ri_version == ri_version
            &&& robot.realtime_config == setup.realtime_config
            &&& robot.log_size == setup.log_size
            &&& robot.log.len() == 0
            &&& robot.state.message_id == modes.message_id
            &&& robot.state == State::initial().updated(modes)
        },
{
    calls::law_description_follows_the_status(setup.met(version, ri_version, modes), message@);
}

/// The version that is tried first is the one that was asked for, or version 10.
pub proof fn law_first_version(setup: Setup)
    ensures
        setup.policy is Auto ==> setup.first_version() is V10,
        setup.policy matches VersionPolicy::Exact(version) ==> setup.first_version() == version,
{
}

/// Connecting is answered by what it asked for; a failure answers everything.
pub proof fn law_setup_answers(action: SetupAction, event: SetupEvent)
    ensures
        event is Failed ==> action.answered(event),
        event is Raised || event is NotRaised ==> (action.answered(event) <==> action
            is RaisePriority),
        event is Kernel ==> (action.answered(event) <==> action is CheckKernel),
        event is Opened ==> (action.answered(event) <==> action is Open),
        event is Closed ==> (action.answered(event) <==> action is Close),
        event is Limits ==> (action.answered(event) <==> action is ReadLimits),
        event matches SetupEvent::Performed(e) ==> (action.answered(event) <==> (
        action matches SetupAction::Perform(wanted) && wanted.answered(e))),
{
}

} // verus!
