//! The last states and commands of a motion.
//!
//! Every control cycle adds a line, and an exception takes the lines with it when a motion ends
//! abnormally.
use crate::robot_state::{Record, RobotCommandLog, RobotState};
use vstd::prelude::*;

verus! {

/// A ring of the newest states and commands, at most `log_size` of them.
pub struct RobotStateLogger {
    log_size: usize,
    states: Vec<RobotState>,
    commands: Vec<RobotCommandLog>,
    ring_front: usize,
    ring_size: usize,
}

/// The newest `size` entries of `entries`.
pub open spec fn newest(entries: Seq<Record>, size: nat) -> Seq<Record> {
    if entries.len() <= size {
        entries
    } else {
        entries.skip(entries.len() - size)
    }
}

impl View for RobotStateLogger {
    type V = Seq<Record>;

    /// The lines that are kept, oldest first.
    closed spec fn view(&self) -> Seq<Record> {
        Seq::new(
            self.ring_size as nat,
            |i: int| self.line((self.ring_front + i) % self.ring_size as int),
        )
    }
}

impl RobotStateLogger {
    /// How many lines are kept at most.
    pub closed spec fn size(&self) -> nat {
        self.log_size as nat
    }

    /// The line at place `i` of the ring.
    closed spec fn line(&self, i: int) -> Record {
        Record { state: self.states@[i], command: Some(self.commands@[i]) }
    }

    /// Both halves have the size of the ring; while the ring is not full it is written from its
    /// start on.
    pub closed spec fn wf(&self) -> bool {
        &&& self.states@.len() == self.log_size
        &&& self.commands@.len() == self.log_size
        &&& self.ring_size <= self.log_size
        &&& self.ring_size < self.log_size ==> self.ring_front == self.ring_size
        &&& self.log_size > 0 ==> self.ring_front < self.log_size
        &&& self.log_size == 0 ==> self.ring_front == 0
    }

    /// The log never holds more lines than its size allows.
    pub proof fn law_log_is_bounded(&self)
        requires
            self.wf(),
        ensures
            self@.len() <= self.size(),
    {
    }

    /// A logger that keeps at most `log_size` lines; none when that is zero.
    pub fn new(log_size: usize) -> (r: RobotStateLogger)
        ensures
            r.wf(),
            r.size() == log_size,
            r@ == Seq::<Record>::empty(),
    {
        let mut states: Vec<RobotState> = Vec::new();
        let mut commands: Vec<RobotCommandLog> = Vec::new();
        let mut i: usize = 0;
        while i < log_size
            invariant
                i <= log_size,
                states@.len() == i,
                commands@.len() == i,
            decreases log_size - i,
        {
            states.push(RobotState::default());
            commands.push(RobotCommandLog::default());
            i = i + 1;
        }
        let logger = RobotStateLogger { log_size, states, commands, ring_front: 0, ring_size: 0 };
        assert(logger@ =~= Seq::<Record>::empty());
        logger
    }

    /// Adds one cycle, in the place of the oldest one when the ring is full.
    pub fn log(&mut self, state: &RobotState, command: &RobotCommandLog)
        requires
            old(self).wf(),
        ensures
            final(self).wf(),
            final(self).size() == old(self).size(),
            final(self)@ == newest(
                old(self)@.push(Record { state: *state, command: Some(*command) }),
                old(self).size(),
            ),
    {
        if self.log_size == 0 {
            assert(self@.push(Record { state: *state, command: Some(*command) }).skip(1) =~= self@);
            return;
        }
        let ghost before = *self;
        let front: usize = self.ring_front;
        self.states.set(front, *state);
        self.commands.set(front, *command);
        self.ring_front = if front + 1 == self.log_size { 0 } else { front + 1 };
        if self.ring_size < self.log_size {
            self.ring_size = self.ring_size + 1;
        }
        proof {
            let added = before@.push(Record { state: *state, command: Some(*command) });
            let expected = newest(added, before.size());
            assert(self@.len() == expected.len());
            assert forall|i: int| 0 <= i < self@.len() implies self@[i] == expected[i] by {
                lemma_ring(before, *self, i);
            }
            assert(self@ =~= expected);
        }
    }

    /// Hands out the lines, oldest first, and forgets them.
    pub fn flush(&mut self) -> (log: Vec<Record>)
        requires
            old(self).wf(),
        ensures
            final(self).wf(),
            final(self).size() == old(self).size(),
            final(self)@ == Seq::<Record>::empty(),
            log@ == old(self)@,
    {
        let mut log: Vec<Record> = Vec::new();
        let mut i: usize = 0;
        while i < self.ring_size
            invariant
                *self == *old(self),
                self.wf(),
                i <= self.ring_size,
                log@ == self@.take(i as int),
            decreases self.ring_size - i,
        {
            let rest: usize = self.ring_size - i;
            let wrapped: usize = if self.ring_size < self.log_size {
                i
            } else if self.ring_front < rest {
                self.ring_front + i
            } else {
                self.ring_front - rest
            };
            proof {
                lemma_wrapped(*self, i as int);
                assert(wrapped == (self.ring_front + i) % self.ring_size as int);
            }
            log.push(Record { state: self.states[wrapped], command: Some(self.commands[wrapped]) });
            assert(log@ =~= self@.take(i + 1));
            i = i + 1;
        }
        assert(self@.take(self.ring_size as int) =~= self@);
        self.ring_front = 0;
        self.ring_size = 0;
        assert(self@ =~= Seq::<Record>::empty());
        log
    }

    /// The last line and the one before it, where there are two.
    pub fn last_two(&self) -> (r: Option<(Record, Record)>)
        requires
            self.wf(),
        ensures
            r is Some <==> self@.len() >= 2,
            r matches Some(pair) ==> pair.0 == self@[self@.len() - 2] && pair.1 == self@[self@.len()
                - 1],
    {
        if self.ring_size < 2 {
            return None;
        }
        let last: usize = if self.ring_front == 0 { self.ring_size - 1 } else { self.ring_front - 1 };
        let before_last: usize = if last == 0 { self.ring_size - 1 } else { last - 1 };
        proof {
            lemma_wrapped(*self, self.ring_size - 1);
            lemma_wrapped(*self, self.ring_size - 2);
        }
        Some(
            (
                Record {
                    state: self.states[before_last],
                    command: Some(self.commands[before_last]),
                },
                Record { state: self.states[last], command: Some(self.commands[last]) },
            ),
        )
    }
}

/// Where line `i` of the ring stands.
proof fn lemma_wrapped(logger: RobotStateLogger, i: int)
    requires
        logger.wf(),
        0 <= i < logger.ring_size,
    ensures
        (logger.ring_front + i) % logger.ring_size as int == if logger.ring_size < logger.log_size {
            i
        } else if logger.ring_front + i < logger.ring_size {
            logger.ring_front + i
        } else {
            logger.ring_front + i - logger.ring_size
        },
{
    let n = logger.ring_size as int;
    let sum = logger.ring_front + i;
    if sum < n {
        assert(sum % n == sum) by (nonlinear_arith)
            requires
                0 <= sum < n,
        ;
    } else {
        assert(sum % n == sum - n) by (nonlinear_arith)
            requires
                n <= sum < 2 * n,
        ;
    }
}

/// What stands at place `i` after one more line was written at the front.
proof fn lemma_ring(before: RobotStateLogger, after: RobotStateLogger, i: int)
    requires
        before.wf(),
        after.wf(),
        before.log_size > 0,
        after.log_size == before.log_size,
        after.states@ == before.states@.update(
            before.ring_front as int,
            after.states@[before.ring_front as int],
        ),
        after.commands@ == before.commands@.update(
            before.ring_front as int,
            after.commands@[before.ring_front as int],
        ),
        after.ring_front == if before.ring_front + 1 == before.log_size {
            0
        } else {
            before.ring_front + 1
        },
        after.ring_size == if before.ring_size < before.log_size {
            before.ring_size + 1
        } else {
            before.ring_size as int
        },
        0 <= i < after.ring_size,
    ensures
        after@[i] == newest(
            before@.push(after.line(before.ring_front as int)),
            before.log_size as nat,
        )[i],
{
    lemma_wrapped(after, i);
    if i < before.ring_size {
        lemma_wrapped(before, i);
    }
    if i + 1 < before.ring_size {
        lemma_wrapped(before, i + 1);
    }
}

/// The lines of a sequence of cycles.
pub open spec fn lines(cycles: Seq<(RobotState, RobotCommandLog)>) -> Seq<Record> {
    Seq::new(
        cycles.len(),
        |i: int| Record { state: cycles[i].0, command: Some(cycles[i].1) },
    )
}

/// What a logger of some size holds after a sequence of cycles, from empty.
pub open spec fn after_cycles(cycles: Seq<(RobotState, RobotCommandLog)>, size: nat) -> Seq<Record>
    decreases cycles.len(),
{
    if cycles.len() == 0 {
        Seq::empty()
    } else {
        newest(
            after_cycles(cycles.drop_last(), size).push(
                Record { state: cycles.last().0, command: Some(cycles.last().1) },
            ),
            size,
        )
    }
}

/// A logger holds the newest cycles in the order in which they came, as many as its size allows.
pub proof fn law_log_keeps_the_newest(cycles: Seq<(RobotState, RobotCommandLog)>, size: nat)
    ensures
        after_cycles(cycles, size) == newest(lines(cycles), size),
    decreases cycles.len(),
{
    if cycles.len() > 0 {
        law_log_keeps_the_newest(cycles.drop_last(), size);
        let shorter = lines(cycles.drop_last());
        let line = Record { state: cycles.last().0, command: Some(cycles.last().1) };
        assert(lines(cycles) =~= shorter.push(line));
        assert(newest(newest(shorter, size).push(line), size) =~= newest(lines(cycles), size));
    } else {
        assert(newest(lines(cycles), size) =~= Seq::empty());
    }
}

/// The newest lines are the end of all of them: as many as there are, but no more than the log may
/// hold, in the order in which they came.
pub proof fn law_newest_is_the_end(entries: Seq<Record>, size: nat, i: int)
    ensures
        newest(entries, size).len() == if entries.len() < size {
            entries.len()
        } else {
            size
        },
        0 <= i < newest(entries, size).len() ==> newest(entries, size)[i] == entries[entries.len()
            - newest(entries, size).len() + i],
{
}

} // verus!
