//! The lock-free mailbox between a commander and the realtime loop.
//!
//! The mailbox is a sequence number and the words of a target, shared by one writer and one
//! reader. Both touch it one word at a time: the writer goes through the accesses of a
//! [`Publish`], the reader through those of a [`Load`], and the two interleave as they happen to.
//! The sequence number is odd while a write is in progress and changes with every write, so a
//! reader that sees the same even number before and after reading the words has read one target.
use crate::double::Double;
use crate::step::Progress;
use vstd::prelude::*;

verus! {

/// Tries of a load before it gives up.
pub const LOAD_TRIES: u32 = 3;

/// One access to the mailbox.
#[derive(Clone, Copy, PartialEq, Eq, Structural, Debug)]
pub enum Access {
    /// Add one to the sequence number, wrapping.
    Advance,
    /// Write a word of the target.
    Store { index: usize, word: u64 },
    /// Read the sequence number.
    ReadSequence,
    /// Read a word of the target.
    ReadValue { index: usize },
}

/// The mailbox in terms of its words.
#[verifier::ext_equal]
pub struct SlotView {
    /// Twice the number of completed writes, and one more during a write.
    pub sequence: u64,
    pub values: Seq<u64>,
}

impl SlotView {
    /// A mailbox of `n` words that nothing has been written to.
    pub open spec fn unwritten(n: nat) -> SlotView {
        SlotView { sequence: 0, values: Seq::new(n, |i: int| 0u64) }
    }

    /// The mailbox after an access.
    pub open spec fn after(self, access: Access) -> SlotView {
        match access {
            Access::Advance => SlotView {
                sequence: if self.sequence == u64::MAX {
                    0
                } else {
                    (self.sequence + 1) as u64
                },
                ..self
            },
            Access::Store { index, word } => SlotView {
                values: self.values.update(index as int, word),
                ..self
            },
            _ => self,
        }
    }

    /// The word that an access reads.
    pub open spec fn read(self, access: Access) -> u64 {
        match access {
            Access::ReadSequence => self.sequence,
            Access::ReadValue { index } => self.values[index as int],
            _ => 0,
        }
    }

    /// Whether an access stays within the words.
    pub open spec fn admits(self, access: Access) -> bool {
        match access {
            Access::Store { index, .. } => index < self.values.len(),
            Access::ReadValue { index } => index < self.values.len(),
            _ => true,
        }
    }

    /// Whether the mailbox holds a complete target.
    pub open spec fn readable(self) -> bool {
        self.sequence != 0 && self.sequence % 2 == 0
    }
}

/// The bit patterns of a target.
pub open spec fn words<const N: usize>(target: [Double; N]) -> Seq<u64> {
    Seq::new(N as nat, |i: int| target@[i].bits)
}

/// The access number `next` of publishing a target: an advance, the words in order, an advance.
pub open spec fn write_access(target: Seq<u64>, next: nat) -> Access {
    if next == 0 || next > target.len() {
        Access::Advance
    } else {
        Access::Store { index: (next - 1) as usize, word: target[next - 1] }
    }
}

/// The latest target, as words that a single writer and a reader share.
///
/// The default mailbox holds zeros with sequence 0, which [`TargetSlot::load`] reports as "never
/// written".
#[derive(Clone, Copy, PartialEq, Debug)]
pub struct TargetSlot<const N: usize> {
    sequence: u64,
    values: [u64; N],
}

impl<const N: usize> View for TargetSlot<N> {
    type V = SlotView;

    closed spec fn view(&self) -> SlotView {
        SlotView { sequence: self.sequence, values: self.values@ }
    }
}

impl<const N: usize> Default for TargetSlot<N> {
    fn default() -> (slot: Self)
        ensures
            slot@ == SlotView::unwritten(N as nat),
    {
        let slot = TargetSlot { sequence: 0, values: [0u64; N] };
        assert(slot@.values =~= SlotView::unwritten(N as nat).values);
        slot
    }
}

impl<const N: usize> TargetSlot<N> {
    /// A mailbox holding `initial`, already published (sequence 2).
    pub fn new(initial: [Double; N]) -> (slot: Self)
        requires
            N < usize::MAX,
        ensures
            slot@.sequence == 2,
            slot@.values == words(initial),
    {
        let mut slot = TargetSlot::<N>::default();
        slot.publish(initial);
        slot
    }

    /// Performs one access and returns what it read, or zero for a write.
    pub fn perform(&mut self, access: Access) -> (word: u64)
        requires
            old(self)@.admits(access),
        ensures
            final(self)@ == old(self)@.after(access),
            word == old(self)@.read(access),
    {
        match access {
            Access::Advance => {
                self.sequence = self.sequence.wrapping_add(1);
                0
            },
            Access::Store { index, word } => {
                self.values[index] = word;
                0
            },
            Access::ReadSequence => self.sequence,
            Access::ReadValue { index } => self.values[index],
        }
    }

    /// Publishes `target` without a reader in between.
    pub fn publish(&mut self, target: [Double; N])
        requires
            N < usize::MAX,
        ensures
            final(self)@.values == words(target),
            final(self)@.sequence == if old(self)@.sequence as int + 2 > u64::MAX {
                old(self)@.sequence + 2 - u64::MAX - 1
            } else {
                old(self)@.sequence + 2
            },
    {
        let ghost before = self@;
        let mut publish = Publish::new(target);
        self.perform(publish.action());
        while publish.next <= N
            invariant
                N < usize::MAX,
                publish.wf(),
                publish.target == target,
                self@.values.len() == N,
                self@.sequence == if publish.next <= N {
                    before.after(Access::Advance).sequence
                } else {
                    before.after(Access::Advance).after(Access::Advance).sequence
                },
                forall|i: int| 0 <= i < N && i < publish.next ==> self@.values[i] == words(target)[i],
            decreases N + 1 - publish.next,
        {
            if let Some(next) = publish.advance() {
                publish = next;
                self.perform(publish.action());
            }
        }
        assert(self@.values =~= words(target));
    }

    /// Copies the latest target into `into` and returns `true`; `false`, with `into` untouched, if
    /// a write is in progress or nothing has been published yet.
    pub fn load(&self, into: &mut [Double; N]) -> (loaded: bool)
        requires
            N < usize::MAX,
        ensures
            loaded == self@.readable(),
            loaded ==> words(*final(into)) == self@.values,
            !loaded ==> *final(into) == *old(into),
    {
        let mut memory = *self;
        let mut load = Load::<N>::new();
        loop
            invariant
                N < usize::MAX,
                memory@ == self@,
                self@.values.len() == N,
                load.wf(),
                *into == *old(into),
                load.at > 0 ==> self@.readable() && load.before == self@.sequence,
                self@.readable() ==> load.tries == LOAD_TRIES,
                forall|i: int| 0 <= i < load.at - 1 && i < N ==> load.values@[i] == self@.values[i],
            decreases load.tries, N + 2 - load.at,
        {
            let word: u64 = memory.perform(load.action());
            match load.resume(word) {
                Progress::Continue(next, _) => {
                    load = next;
                },
                Progress::Done(Some(target)) => {
                    assert(words(target) =~= self@.values);
                    *into = target;
                    return true;
                },
                Progress::Done(None) => {
                    return false;
                },
            }
        }
    }

    /// The number of completed writes, times two (the sequence number).
    pub fn sequence(&self) -> (sequence: u64)
        ensures
            sequence == self@.sequence,
    {
        self.sequence
    }
}

/// The writer, part of the way through publishing a target.
#[derive(Clone, Copy, PartialEq, Debug)]
pub struct Publish<const N: usize> {
    pub target: [Double; N],
    /// How many accesses have been made.
    pub next: usize,
}

impl<const N: usize> Publish<N> {
    /// Whether there is an access left.
    pub open spec fn wf(self) -> bool {
        self.next <= N + 1
    }

    /// The start of publishing `target`.
    pub fn new(target: [Double; N]) -> (publish: Self)
        ensures
            publish.target == target,
            publish.next == 0,
            publish.wf(),
    {
        Publish { target, next: 0 }
    }

    /// The access to make next.
    pub fn action(&self) -> (access: Access)
        requires
            self.wf(),
        ensures
            access == write_access(words(self.target), self.next as nat),
    {
        if self.next == 0 || self.next > N {
            Access::Advance
        } else {
            Access::Store { index: self.next - 1, word: self.target[self.next - 1].bits }
        }
    }

    /// What is left once the access is made; `None` when the target is published.
    pub fn advance(self) -> (rest: Option<Publish<N>>)
        requires
            self.wf(),
            N < usize::MAX,
        ensures
            rest == if self.next <= N {
                Some(Publish { next: (self.next + 1) as usize, ..self })
            } else {
                None
            },
    {
        if self.next <= N {
            Some(Publish { next: self.next + 1, ..self })
        } else {
            None
        }
    }
}

/// The reader, part of the way through loading a target.
#[derive(Clone, Copy, PartialEq, Debug)]
pub struct Load<const N: usize> {
    /// Tries left, this one included.
    pub tries: u32,
    /// The sequence number before the words were read.
    pub before: u64,
    /// The words read so far.
    pub values: [u64; N],
    /// Accesses made in this try: the sequence number, the words, the sequence number again.
    pub at: usize,
}

/// What a word read by a load leads to.
pub enum Loading {
    /// The load goes on.
    On { tries: nat, before: u64, values: Seq<u64>, at: nat },
    /// The load is over, with the words of a target or without.
    Over(Option<Seq<u64>>),
}

impl Loading {
    /// A load in terms of its words.
    pub open spec fn of<const N: usize>(progress: Progress<Load<N>, Access, Option<[Double; N]>>) -> Loading {
        match progress {
            Progress::Continue(load, _) => load.stage(),
            Progress::Done(None) => Loading::Over(None),
            Progress::Done(Some(target)) => Loading::Over(Some(words(target))),
        }
    }

    /// The start of a load of `n` words.
    pub open spec fn start(n: nat) -> Loading {
        Loading::On { tries: LOAD_TRIES as nat, before: 0, values: Seq::new(n, |i: int| 0u64), at: 0 }
    }

    /// The next try, if there is one left.
    pub open spec fn again(tries: nat, before: u64, values: Seq<u64>) -> Loading {
        if tries > 1 {
            Loading::On { tries: (tries - 1) as nat, before, values, at: 0 }
        } else {
            Loading::Over(None)
        }
    }

    /// Where the load stands once it has read `word`.
    pub open spec fn next(self, word: u64) -> Loading {
        match self {
            Loading::Over(_) => self,
            Loading::On { tries, before, values, at } => {
                if at == 0 {
                    if word == 0 || word % 2 == 1 {
                        Loading::again(tries, before, values)
                    } else {
                        Loading::On { tries, before: word, values, at: 1 }
                    }
                } else if at <= values.len() {
                    Loading::On { tries, before, values: values.update(at - 1, word), at: at + 1 }
                } else if word == before {
                    Loading::Over(Some(values))
                } else {
                    Loading::again(tries, before, values)
                }
            },
        }
    }

    /// The access whose word the load is waiting for.
    pub open spec fn access(self) -> Access {
        match self {
            Loading::On { values, at, .. } if 0 < at <= values.len() => Access::ReadValue {
                index: (at - 1) as usize,
            },
            _ => Access::ReadSequence,
        }
    }
}

impl<const N: usize> Load<N> {
    /// Whether the load is in one of its tries.
    pub open spec fn wf(self) -> bool {
        self.tries >= 1 && self.at <= N + 1
    }

    /// The load in terms of its words.
    pub open spec fn stage(self) -> Loading {
        Loading::On {
            tries: self.tries as nat,
            before: self.before,
            values: self.values@,
            at: self.at as nat,
        }
    }

    /// The start of a load.
    pub fn new() -> (load: Self)
        ensures
            load.wf(),
            load.stage() == Loading::start(N as nat),
    {
        let load = Load { tries: LOAD_TRIES, before: 0, values: [0u64; N], at: 0 };
        assert(load.values@ =~= Seq::new(N as nat, |i: int| 0u64));
        load
    }

    /// The access to make next.
    pub fn action(&self) -> (access: Access)
        requires
            self.wf(),
        ensures
            access == self.stage().access(),
    {
        if self.at > 0 && self.at <= N {
            Access::ReadValue { index: self.at - 1 }
        } else {
            Access::ReadSequence
        }
    }

    /// The next try, if there is one left.
    fn again(self) -> (progress: Progress<Load<N>, Access, Option<[Double; N]>>)
        requires
            self.wf(),
        ensures
            Loading::of(progress) == Loading::again(self.tries as nat, self.before, self.values@),
            progress matches Progress::Continue(load, access) ==> load.wf() && access
                == load.stage().access(),
    {
        if self.tries > 1 {
            let load = Load { tries: self.tries - 1, at: 0, ..self };
            Progress::Continue(load, load.action())
        } else {
            Progress::Done(None)
        }
    }

    /// The words read, as numbers.
    fn target(&self) -> (target: [Double; N])
        ensures
            words(target) == self.values@,
    {
        let mut target = [Double { bits: 0 }; N];
        let mut i: usize = 0;
        while i < N
            invariant
                i <= N,
                forall|j: int| 0 <= j < i ==> target@[j].bits == self.values@[j],
            decreases N - i,
        {
            target[i] = Double { bits: self.values[i] };
            i = i + 1;
        }
        assert(words(target) =~= self.values@);
        target
    }

    /// Goes on with the word that the access read.
    pub fn resume(self, word: u64) -> (progress: Progress<Load<N>, Access, Option<[Double; N]>>)
        requires
            self.wf(),
            N < usize::MAX,
        ensures
            Loading::of(progress) == self.stage().next(word),
            progress matches Progress::Continue(load, access) ==> load.wf() && access
                == load.stage().access(),
    {
        if self.at == 0 {
            if word == 0 || word % 2 == 1 {
                self.again()
            } else {
                let load = Load { before: word, at: 1, ..self };
                Progress::Continue(load, load.action())
            }
        } else if self.at <= N {
            let mut values = self.values;
            values[self.at - 1] = word;
            let load = Load { values, at: self.at + 1, ..self };
            Progress::Continue(load, load.action())
        } else if word == self.before {
            Progress::Done(Some(self.target()))
        } else {
            self.again()
        }
    }
}

/// The mailbox of `n` words when `at.0` of the targets have been published and `at.1` accesses of
/// the next one made.
pub open spec fn history(targets: Seq<Seq<u64>>, n: nat, at: (nat, nat)) -> SlotView
    decreases at.0, at.1,
{
    if at.1 > 0 {
        history(targets, n, (at.0, (at.1 - 1) as nat)).after(
            write_access(targets[at.0 as int], (at.1 - 1) as nat),
        )
    } else if at.0 > 0 {
        history(targets, n, ((at.0 - 1) as nat, n + 1)).after(
            write_access(targets[at.0 - 1], n + 1),
        )
    } else {
        SlotView::unwritten(n)
    }
}

/// Whether `at` is a moment in the publishing of the targets.
pub open spec fn moment(targets: Seq<Seq<u64>>, n: nat, at: (nat, nat)) -> bool {
    &&& targets.len() <= u64::MAX / 2
    &&& n <= usize::MAX
    &&& forall|k: int| 0 <= k < targets.len() ==> #[trigger] targets[k].len() == n
    &&& at.1 <= n + 1
    &&& at.0 < targets.len() || at == (targets.len(), 0nat)
}

/// Whether one moment is before another, or the same.
pub open spec fn no_later(a: (nat, nat), b: (nat, nat)) -> bool {
    a.0 < b.0 || a.0 == b.0 && a.1 <= b.1
}

/// Where a load stands once it has made an access at each of the moments.
pub open spec fn loaded(targets: Seq<Seq<u64>>, n: nat, moments: Seq<(nat, nat)>) -> Loading
    decreases moments.len(),
{
    if moments.len() == 0 {
        Loading::start(n)
    } else {
        let before = loaded(targets, n, moments.drop_last());
        before.next(history(targets, n, moments.last()).read(before.access()))
    }
}

/// The sequence number counts the writes, and the words are those of the target being written as
/// far as they have been, and of the one before it from there on.
pub proof fn law_sequence_counts_the_writes(targets: Seq<Seq<u64>>, n: nat, at: (nat, nat))
    requires
        moment(targets, n, at),
    ensures
        history(targets, n, at).sequence == 2 * at.0 + if at.1 > 0 { 1int } else { 0 },
        history(targets, n, at).values.len() == n,
        forall|i: int|
            0 <= i < n ==> #[trigger] history(targets, n, at).values[i] == (if i + 2 <= at.1 {
                targets[at.0 as int][i]
            } else if at.0 > 0 {
                targets[at.0 - 1][i]
            } else {
                0
            }),
    decreases at.0, at.1,
{
    if at.1 > 0 {
        law_sequence_counts_the_writes(targets, n, (at.0, (at.1 - 1) as nat));
    } else if at.0 > 0 {
        law_sequence_counts_the_writes(targets, n, ((at.0 - 1) as nat, n + 1));
    }
}

/// How a load that is still going on relates to the moment of its last access.
proof fn lemma_load_keeps(targets: Seq<Seq<u64>>, n: nat, moments: Seq<(nat, nat)>)
    requires
        forall|i: int| 0 <= i < moments.len() ==> moment(targets, n, #[trigger] moments[i]),
        forall|i: int, j: int|
            0 <= i < j < moments.len() ==> no_later(#[trigger] moments[i], #[trigger] moments[j]),
    ensures
        loaded(targets, n, moments) matches Loading::On { before, values, at, .. } ==> {
            &&& values.len() == n
            &&& at <= n + 1
            &&& at > 0 ==> {
                &&& moments.len() > 0
                &&& before > 0 && before % 2 == 0
                &&& no_later(((before / 2) as nat, 0nat), moments.last())
                &&& no_later(moments[0], ((before / 2) as nat, 0nat))
                &&& before / 2 <= targets.len()
                &&& moments.last() == ((before / 2) as nat, 0nat) ==> forall|i: int|
                    0 <= i < at - 1 ==> values[i] == targets[before / 2 - 1][i]
            }
        },
        loaded(targets, n, moments) matches Loading::Over(Some(values)) ==> exists|k: nat|
            #![trigger targets[k - 1]]
            0 < k <= targets.len() && values == targets[k - 1] && no_later(moments[0], (k, 0nat))
                && no_later((k, 0nat), moments.last()),
    decreases moments.len(),
{
    if moments.len() > 0 {
        let earlier = moments.drop_last();
        lemma_load_keeps(targets, n, earlier);
        let now = moments.last();
        law_sequence_counts_the_writes(targets, n, now);
        let before = loaded(targets, n, earlier);
        let word = history(targets, n, now).read(before.access());
        assert(earlier.len() > 0 ==> earlier[0] == moments[0] && earlier.last() == moments[moments.len() - 2]);
        match before {
            Loading::Over(Some(values)) => {
                let k = choose|k: nat|
                    #![trigger targets[k - 1]]
                    0 < k <= targets.len() && values == targets[k - 1] && no_later(
                        earlier[0],
                        (k, 0nat),
                    ) && no_later((k, 0nat), earlier.last());
                assert(values == targets[k - 1] && no_later((k, 0nat), now));
            },
            Loading::Over(None) => {},
            Loading::On { tries, before: number, values, at } => {
                if at == 0 {
                    if !(word == 0 || word % 2 == 1) {
                        assert(now == ((word / 2) as nat, 0nat));
                    }
                } else if at <= n {
                    if now == ((number / 2) as nat, 0nat) {
                        assert(earlier.last() == now);
                    }
                } else if word == number {
                    let k = (number / 2) as nat;
                    assert(now == (k, 0nat));
                    assert(earlier.last() == now);
                    assert(values =~= targets[k - 1]);
                }
            },
        }
    }
}

/// No torn target is ever loaded: whatever the writer does in between, a load that succeeds hands
/// out one of the published targets, whole, and one that was the latest at some moment of the
/// load.
pub proof fn law_no_torn_target(targets: Seq<Seq<u64>>, n: nat, moments: Seq<(nat, nat)>)
    requires
        forall|i: int| 0 <= i < moments.len() ==> moment(targets, n, #[trigger] moments[i]),
        forall|i: int, j: int|
            0 <= i < j < moments.len() ==> no_later(#[trigger] moments[i], #[trigger] moments[j]),
    ensures
        loaded(targets, n, moments) matches Loading::Over(Some(values)) ==> exists|k: nat|
            #![trigger targets[k - 1]]
            0 < k <= targets.len() && values == targets[k - 1] && no_later(moments[0], (k, 0nat))
                && no_later((k, 0nat), moments.last()),
{
    lemma_load_keeps(targets, n, moments);
}

/// A target is its words: two targets with the same words are the same numbers, bit for bit.
pub proof fn law_words_determine_the_target<const N: usize>(a: [Double; N], b: [Double; N])
    requires
        words(a) == words(b),
    ensures
        a@ == b@,
{
    assert forall|i: int| 0 <= i < N implies a@[i] == b@[i] by {
        assert(words(a)[i] == a@[i].bits && words(b)[i] == b@[i].bits);
    }
    assert(a@ =~= b@);
}

/// How many accesses a load makes at most from where it stands.
pub open spec fn accesses_left(loading: Loading, n: nat) -> int {
    match loading {
        Loading::Over(_) => 0,
        Loading::On { tries, at, .. } => (if tries >= 3 {
            3 * (n + 2)
        } else if tries == 2 {
            2 * (n + 2)
        } else {
            n + 2
        }) - at,
    }
}

/// A load is over after at most three rounds of accesses, whatever the writer does.
pub proof fn law_load_ends(targets: Seq<Seq<u64>>, n: nat, moments: Seq<(nat, nat)>)
    requires
        forall|i: int| 0 <= i < moments.len() ==> moment(targets, n, #[trigger] moments[i]),
        moments.len() >= 3 * (n + 2),
    ensures
        loaded(targets, n, moments) is Over,
{
    lemma_load_progresses(targets, n, moments);
}

proof fn lemma_load_progresses(targets: Seq<Seq<u64>>, n: nat, moments: Seq<(nat, nat)>)
    ensures
        loaded(targets, n, moments) matches Loading::On { tries, values, at, .. } ==> {
            &&& 1 <= tries <= 3
            &&& values.len() == n
            &&& at <= n + 1
            &&& accesses_left(loaded(targets, n, moments), n) <= 3 * (n + 2) - moments.len()
        },
    decreases moments.len(),
{
    if moments.len() > 0 {
        lemma_load_progresses(targets, n, moments.drop_last());
    }
}

/// A load that no write overlaps succeeds at the first try with the latest target.
pub proof fn law_undisturbed_load_succeeds(targets: Seq<Seq<u64>>, n: nat, k: nat, moments: Seq<(nat, nat)>)
    requires
        moment(targets, n, (k, 0nat)),
        k > 0,
        moments.len() <= n + 2,
        forall|i: int| 0 <= i < moments.len() ==> #[trigger] moments[i] == (k, 0nat),
    ensures
        moments.len() == n + 2 ==> loaded(targets, n, moments) == Loading::Over(Some(targets[k - 1])),
        moments.len() < n + 2 ==> loaded(targets, n, moments) is On,
{
    lemma_undisturbed_load(targets, n, k, moments);
}

proof fn lemma_undisturbed_load(targets: Seq<Seq<u64>>, n: nat, k: nat, moments: Seq<(nat, nat)>)
    requires
        moment(targets, n, (k, 0nat)),
        k > 0,
        moments.len() <= n + 2,
        forall|i: int| 0 <= i < moments.len() ==> #[trigger] moments[i] == (k, 0nat),
    ensures
        moments.len() == n + 2 ==> loaded(targets, n, moments) == Loading::Over(Some(targets[k - 1])),
        moments.len() < n + 2 ==> (loaded(targets, n, moments) matches Loading::On {
            before,
            values,
            at,
            ..
        } && at == moments.len() && values.len() == n && (at > 0 ==> before == 2 * k) && forall|i: int|
            0 <= i < at - 1 ==> values[i] == targets[k - 1][i]),
    decreases moments.len(),
{
    if moments.len() > 0 {
        lemma_undisturbed_load(targets, n, k, moments.drop_last());
        law_sequence_counts_the_writes(targets, n, (k, 0nat));
        assert(moments.last() == (k, 0nat));
        let earlier = loaded(targets, n, moments.drop_last());
        if moments.len() == n + 2 {
            assert(earlier->values =~= targets[k - 1]);
        }
    }
}

/// Only accesses to words that the mailbox has are made; those to its sequence always can be.
pub proof fn law_accesses_stay_within_the_words(slot: SlotView, index: usize, word: u64)
    ensures
        slot.admits(Access::Store { index, word }) <==> index < slot.values.len(),
        slot.admits(Access::ReadValue { index }) <==> index < slot.values.len(),
        slot.admits(Access::Advance),
        slot.admits(Access::ReadSequence),
        slot.readable() <==> slot.sequence > 0 && slot.sequence % 2 == 0,
{
}

} // verus!
