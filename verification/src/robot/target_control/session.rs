//! The user side of a target control: what a running loop is given, what is refused, and how its
//! thread begins and ends.
use crate::control_types;
use crate::double::Double;
use crate::error;
use crate::error::{control_error, ErrorView, FrankaError};
use crate::realtime::RealtimeConfig;
use crate::step::Progress;
use vstd::prelude::*;

verus! {

/// The message of the error that setting a target returns once the loop has ended, for whatever
/// reason; the stop has the reason.
pub const ENDED_MESSAGE: &'static str = "franka target control: the control loop has ended; stop() returns its result.";

/// The message of the error that a live-tuning call returns on a session without any: live tuning
/// is the impedance law's of the Cartesian interface, and nothing else runs one.
pub const NO_TUNING_MESSAGE: &'static str = "franka target control: this session has no live tuning; it is the Cartesian interface's on the impedance backend.";

/// The message of the error that a live-tuning call returns on a Cartesian impedance session whose
/// gains cannot be rebuilt from one Cartesian stiffness.
pub const DERIVED_GAINS_MESSAGE: &'static str = "franka target control: this session has no live tuning; its Cartesian gains are not a scaled ImpedanceGains::CARTESIAN, which is all the one tunable stiffness can rebuild.";

/// Reads of the mailbox before the user side takes what it has.
pub const TARGET_TRIES: u32 = 1000;

/// Why a target was refused.
#[derive(Clone, Copy, PartialEq, Eq, Structural, Debug)]
pub enum Refusal {
    /// The loop has ended.
    Ended,
    /// A number of the target is not finite.
    NotFinite,
}

impl Refusal {
    /// The error of a refusal, where `shown` is the text of the target.
    pub open spec fn seen(self, shown: Seq<char>) -> ErrorView {
        match self {
            Refusal::Ended => ErrorView::InvalidOperation(ENDED_MESSAGE@),
            Refusal::NotFinite => ErrorView::InvalidArgument(
                "target control: the target must be finite, got "@ + shown,
            ),
        }
    }

    /// The error of a refusal, where `shown` is the text of the target.
    pub fn error(&self, shown: &str) -> (e: FrankaError)
        ensures
            e@ == self.seen(shown@),
    {
        match self {
            Refusal::Ended => FrankaError::InvalidOperation(String::from_str(ENDED_MESSAGE)),
            Refusal::NotFinite => {
                let mut message = String::from_str("target control: the target must be finite, got ");
                message.append(shown);
                FrankaError::InvalidArgument(message)
            },
        }
    }
}

/// What becomes of a target that the user sets.
pub open spec fn admitted<const N: usize>(running: bool, target: [Double; N]) -> Result<
    [Double; N],
    Refusal,
> {
    if !running {
        Err(Refusal::Ended)
    } else if !control_types::all_finite(target@) {
        Err(Refusal::NotFinite)
    } else {
        Ok(target)
    }
}

/// The target to publish: a running loop takes any that is finite, and one that has ended takes
/// none.
pub fn modify_target<const N: usize>(running: bool, target: [Double; N]) -> (r: Result<[Double; N], Refusal>)
    ensures
        r == admitted(running, target),
{
    if !running {
        return Err(Refusal::Ended);
    }
    let mut i: usize = 0;
    while i < N
        invariant
            i <= N,
            running,
            forall|j: int| 0 <= j < i ==> (#[trigger] target@[j]).finite(),
        decreases N - i,
    {
        if !target[i].is_finite() {
            assert(!target@[i as int].finite());
            return Err(Refusal::NotFinite);
        }
        i = i + 1;
    }
    Ok(target)
}

/// The latest target, being read by the user side: only a write in progress can make a load fail,
/// and a write is a handful of stores.
#[derive(Clone, Copy, PartialEq, Eq, Structural, Debug)]
pub struct TargetRead {
    /// Tries left.
    pub tries: u32,
}

impl TargetRead {
    /// The start of a read.
    pub fn new() -> (read: TargetRead)
        ensures
            read.tries == TARGET_TRIES,
    {
        TargetRead { tries: TARGET_TRIES }
    }

    /// What comes of a load: its target, another try, or zeros after the last one.
    pub open spec fn next<const N: usize>(self, loaded: Option<[Double; N]>) -> Progress<
        TargetRead,
        (),
        [Double; N],
    > {
        match loaded {
            Some(target) => Progress::Done(target),
            None => if self.tries > 1 {
                Progress::Continue(TargetRead { tries: (self.tries - 1) as u32 }, ())
            } else {
                Progress::Done(crate::robot_state::zeros())
            },
        }
    }

    /// Goes on with what came of a load.
    pub fn resume<const N: usize>(self, loaded: Option<[Double; N]>) -> (progress: Progress<
        TargetRead,
        (),
        [Double; N],
    >)
        ensures
            progress == self.next(loaded),
    {
        match loaded {
            Some(target) => Progress::Done(target),
            None => {
                if self.tries > 1 {
                    Progress::Continue(TargetRead { tries: self.tries - 1 }, ())
                } else {
                    Progress::Done([Double { bits: 0 }; N])
                }
            },
        }
    }
}

/// The tuning that a session has published, or the error of a session without any.
pub fn published_tuning<T>(published: Option<T>) -> (r: Result<T, FrankaError>)
    ensures
        error::seen(r) == match published {
            Some(tuning) => Ok(tuning),
            None => Err(ErrorView::InvalidOperation(NO_TUNING_MESSAGE@)),
        },
        r is Ok <==> published is Some,
        r matches Ok(tuning) ==> published == Some(tuning),
{
    match published {
        Some(tuning) => Ok(tuning),
        None => Err(FrankaError::InvalidOperation(String::from_str(NO_TUNING_MESSAGE))),
    }
}

/// The tuning to change: that of a running session that has one.
pub fn tune<T>(running: bool, published: Option<T>) -> (r: Result<T, FrankaError>)
    ensures
        error::seen(r) == if !running {
            Err(ErrorView::InvalidOperation(ENDED_MESSAGE@))
        } else {
            match published {
                Some(tuning) => Ok(tuning),
                None => Err(ErrorView::InvalidOperation(NO_TUNING_MESSAGE@)),
            }
        },
        r is Ok <==> running && published is Some,
        r matches Ok(tuning) ==> published == Some(tuning),
        r matches Err(e) ==> e@ is InvalidOperation,
{
    if !running {
        Err(FrankaError::InvalidOperation(String::from_str(ENDED_MESSAGE)))
    } else {
        published_tuning(published)
    }
}

/// How the loop thread ended.
#[derive(Debug)]
pub enum ThreadEnd {
    /// With the loop's result.
    Returned(Result<(), FrankaError>),
    /// With a panic.
    Panicked,
}

impl ThreadEnd {
    /// The result of a thread.
    pub open spec fn seen(self) -> Result<(), ErrorView> {
        match self {
            ThreadEnd::Returned(result) => error::seen(result),
            ThreadEnd::Panicked => Err(
                error::bare_control("franka target control: the control thread panicked"@),
            ),
        }
    }
}

/// The result of a thread: the loop's own, or the error of a panic.
pub fn join(end: ThreadEnd) -> (r: Result<(), FrankaError>)
    ensures
        error::seen(r) == end.seen(),
{
    match end {
        ThreadEnd::Returned(result) => result,
        ThreadEnd::Panicked => Err(
            control_error("franka target control: the control thread panicked"),
        ),
    }
}

/// The result of a stop: the thread's, or a regular end where there is none to join.
pub fn stop(thread: Option<ThreadEnd>) -> (r: Result<(), FrankaError>)
    ensures
        error::seen(r) == match thread {
            Some(end) => end.seen(),
            None => Ok(()),
        },
        r is Ok <==> (thread matches Some(end) ==> end matches ThreadEnd::Returned(Ok(_))),
{
    match thread {
        Some(end) => join(end),
        None => Ok(()),
    }
}

/// The error of a start whose thread could not be spawned, where `reason` is the system's.
pub fn spawn_failure(reason: &str) -> (e: FrankaError)
    ensures
        e@ == ErrorView::InvalidOperation(
            "franka target control: cannot spawn the control thread: "@ + reason@,
        ),
{
    let mut message = String::from_str("franka target control: cannot spawn the control thread: ");
    message.append(reason);
    FrankaError::InvalidOperation(message)
}

/// The error of a start whose loop returned before its first cycle: the loop's own, if it has one.
pub fn start_failure(end: ThreadEnd) -> (e: FrankaError)
    ensures
        e@ == match end.seen() {
            Err(error) => error,
            Ok(_) => error::bare_control(
                "franka target control: the control loop ended before its first cycle"@,
            ),
        },
        end matches ThreadEnd::Returned(Err(own)) ==> e@ == own@,
        end matches ThreadEnd::Returned(Ok(_)) ==> e@ is Control,
        end is Panicked ==> e@ is Control,
{
    match join(end) {
        Err(error) => error,
        Ok(()) => control_error(
            "franka target control: the control loop ended before its first cycle",
        ),
    }
}

/// What comes of raising the loop thread's priority and pinning it to a core. Both are attempted;
/// the first failure is the one reported, and it is fatal only where realtime is insisted on.
pub fn schedule(config: RealtimeConfig, priority: Result<(), String>, pin: Result<(), String>) -> (r:
    Result<(), FrankaError>)
    ensures
        error::seen(r) == if config == RealtimeConfig::Ignore {
            Ok(())
        } else if priority is Err {
            Err(ErrorView::Realtime(priority->Err_0@))
        } else if pin is Err {
            Err(ErrorView::Realtime(pin->Err_0@))
        } else {
            Ok(())
        },
        r is Ok <==> config is Ignore || (priority is Ok && pin is Ok),
        r matches Err(e) ==> e@ is Realtime,
{
    match config {
        RealtimeConfig::Ignore => Ok(()),
        RealtimeConfig::Enforce => match priority {
            Err(message) => Err(FrankaError::Realtime(message)),
            Ok(()) => match pin {
                Err(message) => Err(FrankaError::Realtime(message)),
                Ok(()) => Ok(()),
            },
        },
    }
}

/// A target is published exactly where the loop runs and all its numbers are finite, and it is then
/// the one that was set. Once the loop has ended that is the reason for every refusal.
pub proof fn law_target_is_published_as_it_is<const N: usize>(running: bool, target: [Double; N])
    ensures
        admitted(running, target) is Ok <==> running && forall|i: int|
            0 <= i < N ==> (#[trigger] target@[i]).finite(),
        admitted(running, target) matches Ok(published) ==> published == target,
        !running ==> admitted(running, target) == Err::<[Double; N], Refusal>(Refusal::Ended),
        running && admitted(running, target) is Err ==> admitted(running, target) == Err::<
            [Double; N],
            Refusal,
        >(Refusal::NotFinite),
{
}

/// Where a read of the target stands after loads that failed.
pub open spec fn after_failures<const N: usize>(read: TargetRead, failures: nat) -> Progress<
    TargetRead,
    (),
    [Double; N],
>
    decreases failures,
{
    if failures == 0 {
        Progress::Continue(read, ())
    } else {
        match after_failures::<N>(read, (failures - 1) as nat) {
            Progress::Continue(read, _) => read.next::<N>(None),
            ended => ended,
        }
    }
}

/// A read of the target that has tries left takes the first load that succeeds, and gives up with
/// zeros only after as many failures as it has tries.
pub proof fn law_read_takes_the_first_load<const N: usize>(
    read: TargetRead,
    failures: nat,
    target: [Double; N],
)
    requires
        read.tries >= 1,
        failures < read.tries,
    ensures
        after_failures::<N>(read, failures) matches Progress::Continue(left, _) && left.tries
            == read.tries - failures && left.next(Some(target)) == Progress::<
            TargetRead,
            (),
            [Double; N],
        >::Done(target),
        failures == read.tries - 1 ==> (after_failures::<N>(read, failures + 1) matches Progress::Done(
            given_up,
        ) && forall|i: int| 0 <= i < N ==> (#[trigger] given_up@[i]).value() == 0),
    decreases failures,
{
    if failures > 0 {
        law_read_takes_the_first_load(read, (failures - 1) as nat, target);
    }
    crate::robot_state::law_zeros::<N>();
}

/// A target to a session that has ended is an invalid operation; one that is not finite is an
/// invalid argument, and the message ends with it.
pub proof fn law_refusals(refusal: Refusal, shown: Seq<char>)
    ensures
        refusal is Ended <==> refusal.seen(shown) is InvalidOperation,
        refusal is NotFinite <==> refusal.seen(shown) is InvalidArgument,
        refusal.seen(shown) matches ErrorView::InvalidArgument(message) ==> message.len()
            >= shown.len() && message.subrange(
            message.len() - shown.len(),
            message.len() as int,
        ) == shown,
{
    let message = "target control: the target must be finite, got "@ + shown;
    assert(message.subrange(message.len() - shown.len(), message.len() as int) =~= shown);
}

/// What the control thread returned is what stopping returns; a thread that panicked is a control
/// exception.
pub proof fn law_thread_ends(end: ThreadEnd)
    ensures
        end matches ThreadEnd::Returned(result) ==> (end.seen() is Ok <==> result is Ok),
        end matches ThreadEnd::Returned(Err(e)) ==> end.seen() == Err::<(), ErrorView>(e@),
        end is Panicked ==> (end.seen() matches Err(e) && e is Control),
{
}

} // verus!
