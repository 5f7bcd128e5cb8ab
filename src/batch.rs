use vstd::prelude::*;

verus! {

/// Why a filesystem step failed.
#[derive(Clone, Debug, PartialEq, Eq)]
pub enum FsError {
    /// The target path has no parent directory: it is the root itself.
    PermissionDenied,
    /// Creating the directory or writing the file failed, with the system's description.
    Io(String),
}

/// Why a download failed.
#[derive(Clone, Debug, PartialEq, Eq)]
pub enum DownloadError {
    /// The transfer failed, or the server answered with a status other than success.
    Network(String),
    /// The payload could not be stored.
    Filesystem(FsError),
}

/// The terminal result of one task.
#[derive(Clone, Debug, PartialEq, Eq)]
pub enum Outcome {
    Succeeded { bytes: u64, path: String },
    Failed(DownloadError),
}

/// A completion was reported for a descriptor whose task is not in flight.
#[derive(Copy, Clone, Debug, PartialEq, Eq, Structural)]
pub struct NotInFlight;

/// Where one descriptor stands in the batch.
#[derive(Copy, Clone, Debug, PartialEq, Eq, Structural)]
pub enum TaskState {
    Pending,
    InFlight,
    Succeeded(u64),
    Failed,
}

/// The sum of `f` over the states of `s`.
pub open spec fn tally(s: Seq<TaskState>, f: spec_fn(TaskState) -> int) -> int
    decreases s.len(),
{
    if s.len() == 0 {
        0
    } else {
        tally(s.drop_last(), f) + f(s.last())
    }
}

/// How many tasks are in flight.
pub open spec fn in_flight_count(s: Seq<TaskState>) -> int {
    tally(s, |t: TaskState| if t is InFlight { 1int } else { 0int })
}

/// How many tasks have failed.
pub open spec fn failed_count(s: Seq<TaskState>) -> int {
    tally(s, |t: TaskState| if t is Failed { 1int } else { 0int })
}

/// How many tasks have finished, either way.
pub open spec fn finished_count(s: Seq<TaskState>) -> int {
    tally(s, |t: TaskState| if t is Succeeded || t is Failed { 1int } else { 0int })
}

/// The bytes written by the tasks that succeeded.
pub open spec fn succeeded_bytes(s: Seq<TaskState>) -> int {
    tally(s, |t: TaskState| match t { TaskState::Succeeded(b) => b as int, _ => 0int })
}

/// The state a task reaches on an outcome.
pub open spec fn state_after(o: Outcome) -> TaskState {
    match o {
        Outcome::Succeeded { bytes, .. } => TaskState::Succeeded(bytes),
        Outcome::Failed(_) => TaskState::Failed,
    }
}

/// Changing one state changes a tally by the difference of the two weights.
pub proof fn lemma_tally_update(s: Seq<TaskState>, i: int, v: TaskState, f: spec_fn(TaskState) -> int)
    requires
        0 <= i < s.len(),
    ensures
        tally(s.update(i, v), f) == tally(s, f) - f(s[i]) + f(v),
    decreases s.len(),
{
    let u = s.update(i, v);
    if i == s.len() - 1 {
        assert(u.drop_last() =~= s.drop_last());
    } else {
        lemma_tally_update(s.drop_last(), i, v, f);
        assert(u.drop_last() =~= s.drop_last().update(i, v));
    }
}

/// A tally whose weights lie in `0..=m` lies in `0..=len * m`.
pub proof fn lemma_tally_bounds(s: Seq<TaskState>, f: spec_fn(TaskState) -> int, m: int)
    requires
        forall|t: TaskState| 0 <= #[trigger] f(t) <= m,
    ensures
        0 <= tally(s, f) <= s.len() * m,
    decreases s.len(),
{
    if s.len() > 0 {
        lemma_tally_bounds(s.drop_last(), f, m);
        assert(tally(s, f) <= s.len() * m) by (nonlinear_arith)
            requires
                tally(s, f) == tally(s.drop_last(), f) + f(s.last()),
                tally(s.drop_last(), f) <= (s.len() - 1) * m,
                f(s.last()) <= m,
        ;
    }
}

/// A tally of nonnegative weights is nonnegative.
pub proof fn lemma_tally_nonneg(s: Seq<TaskState>, f: spec_fn(TaskState) -> int)
    requires
        forall|t: TaskState| 0 <= #[trigger] f(t),
    ensures
        0 <= tally(s, f),
    decreases s.len(),
{
    if s.len() > 0 {
        lemma_tally_nonneg(s.drop_last(), f);
    }
}

/// A tally of nonnegative weights is zero exactly when every weight is zero.
pub proof fn lemma_tally_zero(s: Seq<TaskState>, f: spec_fn(TaskState) -> int)
    requires
        forall|t: TaskState| 0 <= #[trigger] f(t),
    ensures
        tally(s, f) == 0 <==> forall|i: int| 0 <= i < s.len() ==> #[trigger] f(s[i]) == 0,
    decreases s.len(),
{
    if s.len() > 0 {
        lemma_tally_zero(s.drop_last(), f);
        lemma_tally_nonneg(s.drop_last(), f);
        if tally(s, f) == 0 {
            assert forall|i: int| 0 <= i < s.len() implies #[trigger] f(s[i]) == 0 by {
                if i < s.len() - 1 {
                    assert(s[i] == s.drop_last()[i]);
                }
            }
        }
        if forall|i: int| 0 <= i < s.len() ==> #[trigger] f(s[i]) == 0 {
            assert forall|i: int| 0 <= i < s.drop_last().len() implies #[trigger] f(s.drop_last()[i]) == 0 by {
                assert(s[i] == s.drop_last()[i]);
            }
            assert(f(s[s.len() - 1]) == 0);
        }
    }
}

/// What a batch is, to its contracts.
pub struct BatchView {
    /// The most tasks that may be in flight at once.
    pub ceiling: nat,
    /// The first descriptor not yet started.
    pub next: nat,
    /// The state of each descriptor, in submission order.
    pub states: Seq<TaskState>,
}

/// The executor's and the aggregator's state for one run over a fixed list of
/// descriptors: which descriptors have started, which have finished and how,
/// the bytes written so far and whether every finished task succeeded.
pub struct Batch {
    ceiling: usize,
    next: usize,
    in_flight: usize,
    total_bytes: u128,
    succeeded: bool,
    states: Vec<TaskState>,
}

impl Batch {
    pub closed spec fn view(&self) -> BatchView {
        BatchView { ceiling: self.ceiling as nat, next: self.next as nat, states: self.states@ }
    }

    /// Descriptors are started in order; at most `ceiling` are in flight; the
    /// counters agree with the states.
    pub closed spec fn wf(&self) -> bool {
        &&& self.ceiling >= 1
        &&& self.next <= self.states@.len()
        &&& forall|i: int|
            0 <= i < self.states@.len() ==> ((i < self.next) <==> !(#[trigger] self.states@[i] is Pending))
        &&& self.in_flight == in_flight_count(self.states@)
        &&& self.in_flight <= self.ceiling
        &&& self.total_bytes == succeeded_bytes(self.states@)
        &&& self.succeeded == (failed_count(self.states@) == 0)
    }

    /// A batch over `descriptors` descriptors, none started yet.
    pub fn new(descriptors: usize, ceiling: usize) -> (r: Batch)
        requires
            ceiling >= 1,
        ensures
            r.wf(),
            r@.ceiling == ceiling,
            r@.next == 0,
            r@.states.len() == descriptors,
            forall|i: int| 0 <= i < descriptors ==> #[trigger] r@.states[i] == TaskState::Pending,
    {
        let mut states: Vec<TaskState> = Vec::new();
        let mut i: usize = 0;
        while i < descriptors
            invariant
                i <= descriptors,
                states@.len() == i,
                forall|j: int| 0 <= j < i ==> #[trigger] states@[j] == TaskState::Pending,
            decreases descriptors - i,
        {
            states.push(TaskState::Pending);
            i = i + 1;
        }
        proof {
            lemma_tally_zero(states@, |t: TaskState| if t is InFlight { 1int } else { 0int });
            lemma_tally_zero(states@, |t: TaskState| if t is Failed { 1int } else { 0int });
            lemma_tally_zero(
                states@,
                |t: TaskState| match t { TaskState::Succeeded(b) => b as int, _ => 0int },
            );
        }
        Batch { ceiling, next: 0, in_flight: 0, total_bytes: 0, succeeded: true, states }
    }

    /// Starts the next descriptor when a slot is free and one is left: returns its
    /// index and marks it in flight. Otherwise returns `None` and changes nothing.
    pub fn start_next(&mut self) -> (r: Option<usize>)
        requires
            old(self).wf(),
        ensures
            final(self).wf(),
            final(self)@.ceiling == old(self)@.ceiling,
            ({
                let before = old(self)@;
                if in_flight_count(before.states) < before.ceiling && before.next < before.states.len() {
                    &&& r == Some(before.next as usize)
                    &&& final(self)@.next == before.next + 1
                    &&& final(self)@.states == before.states.update(
                        before.next as int,
                        TaskState::InFlight,
                    )
                } else {
                    &&& r is None
                    &&& final(self)@ == before
                }
            }),
    {
        if self.in_flight < self.ceiling && self.next < self.states.len() {
            let i = self.next;
            let ghost s = self.states@;
            proof {
                lemma_tally_update(s, i as int, TaskState::InFlight, |t: TaskState| if t is InFlight { 1int } else { 0int });
                lemma_tally_update(s, i as int, TaskState::InFlight, |t: TaskState| if t is Failed { 1int } else { 0int });
                lemma_tally_update(
                    s,
                    i as int,
                    TaskState::InFlight,
                    |t: TaskState| match t { TaskState::Succeeded(b) => b as int, _ => 0int },
                );
            }
            self.states.set(i, TaskState::InFlight);
            self.next = i + 1;
            self.in_flight = self.in_flight + 1;
            Some(i)
        } else {
            None
        }
    }

    /// Starts descriptors in order until the ceiling is reached or none is left,
    /// and returns the indices started. Afterwards every slot is taken or every
    /// descriptor has started.
    pub fn fill_slots(&mut self) -> (r: Vec<usize>)
        requires
            old(self).wf(),
        ensures
            final(self).wf(),
            final(self)@.ceiling == old(self)@.ceiling,
            old(self)@.next <= final(self)@.next,
            r@.len() == final(self)@.next - old(self)@.next,
            forall|k: int| 0 <= k < r@.len() ==> #[trigger] r@[k] == old(self)@.next + k,
            final(self)@.states.len() == old(self)@.states.len(),
            forall|i: int|
                0 <= i < final(self)@.states.len() ==> #[trigger] final(self)@.states[i] == if old(
                    self,
                )@.next <= i < final(self)@.next {
                    TaskState::InFlight
                } else {
                    old(self)@.states[i]
                },
            in_flight_count(final(self)@.states) == final(self)@.ceiling || final(self)@.next
                == final(self)@.states.len(),
    {
        let mut started: Vec<usize> = Vec::new();
        let ghost first = self@;
        loop
            invariant
                self.wf(),
                self@.ceiling == first.ceiling,
                first.next <= self@.next,
                started@.len() == self@.next - first.next,
                forall|k: int| 0 <= k < started@.len() ==> #[trigger] started@[k] == first.next + k,
                self@.states.len() == first.states.len(),
                forall|i: int|
                    0 <= i < self@.states.len() ==> #[trigger] self@.states[i] == if first.next <= i
                        < self@.next {
                        TaskState::InFlight
                    } else {
                        first.states[i]
                    },
            ensures
                self.wf(),
                in_flight_count(self@.states) == self@.ceiling || self@.next == self@.states.len(),
            decreases self@.states.len() - self@.next,
        {
            match self.start_next() {
                Some(i) => {
                    started.push(i);
                },
                None => {
                    break;
                },
            }
        }
        started
    }

    /// Records the outcome of the task for descriptor `index`. The task must be in
    /// flight; otherwise nothing changes and `Err(NotInFlight)` comes back.
    pub fn complete(&mut self, index: usize, outcome: &Outcome) -> (r: Result<(), NotInFlight>)
        requires
            old(self).wf(),
        ensures
            final(self).wf(),
            final(self)@.ceiling == old(self)@.ceiling,
            final(self)@.next == old(self)@.next,
            ({
                let before = old(self)@;
                if index < before.states.len() && before.states[index as int] is InFlight {
                    &&& r is Ok
                    &&& final(self)@.states == before.states.update(index as int, state_after(*outcome))
                } else {
                    &&& r == Err::<(), NotInFlight>(NotInFlight)
                    &&& final(self)@ == before
                }
            }),
    {
        if index >= self.states.len() {
            return Err(NotInFlight);
        }
        match self.states[index] {
            TaskState::InFlight => {},
            _ => {
                return Err(NotInFlight);
            },
        }
        let new_state = match outcome {
            Outcome::Succeeded { bytes, .. } => TaskState::Succeeded(*bytes),
            Outcome::Failed(_) => TaskState::Failed,
        };
        let ghost s = self.states@;
        proof {
            lemma_tally_update(s, index as int, new_state, |t: TaskState| if t is InFlight { 1int } else { 0int });
            lemma_tally_update(s, index as int, new_state, |t: TaskState| if t is Failed { 1int } else { 0int });
            lemma_tally_update(
                s,
                index as int,
                new_state,
                |t: TaskState| match t { TaskState::Succeeded(b) => b as int, _ => 0int },
            );
            lemma_tally_bounds(
                s.update(index as int, new_state),
                |t: TaskState| match t { TaskState::Succeeded(b) => b as int, _ => 0int },
                u64::MAX as int,
            );
            lemma_tally_bounds(s, |t: TaskState| if t is Failed { 1int } else { 0int }, 1);
            lemma_tally_update(s, index as int, TaskState::Pending, |t: TaskState| if t is InFlight { 1int } else { 0int });
            lemma_tally_bounds(
                s.update(index as int, TaskState::Pending),
                |t: TaskState| if t is InFlight { 1int } else { 0int },
                1,
            );
            assert(s.len() * (u64::MAX as int) < u128::MAX) by (nonlinear_arith)
                requires
                    s.len() <= usize::MAX,
            ;
        }
        self.states.set(index, new_state);
        self.in_flight = self.in_flight - 1;
        match new_state {
            TaskState::Succeeded(b) => {
                self.total_bytes = self.total_bytes + b as u128;
            },
            _ => {
                self.succeeded = false;
            },
        }
        Ok(())
    }

    /// The most tasks that may be in flight at once.
    pub fn ceiling(&self) -> (r: usize)
        ensures
            r == self@.ceiling,
    {
        self.ceiling
    }

    /// How many descriptors the batch runs.
    pub fn descriptors(&self) -> (r: usize)
        ensures
            r == self@.states.len(),
    {
        self.states.len()
    }

    /// The state of descriptor `index`.
    pub fn state(&self, index: usize) -> (r: TaskState)
        requires
            index < self@.states.len(),
        ensures
            r == self@.states[index as int],
    {
        self.states[index]
    }

    /// How many tasks are in flight now.
    pub fn in_flight(&self) -> (r: usize)
        requires
            self.wf(),
        ensures
            r == in_flight_count(self@.states),
            r <= self@.ceiling,
    {
        self.in_flight
    }

    /// The bytes written by every task that has succeeded so far.
    pub fn total_bytes(&self) -> (r: u128)
        requires
            self.wf(),
        ensures
            r == succeeded_bytes(self@.states),
    {
        self.total_bytes
    }

    /// Whether no task has failed so far.
    pub fn overall_success(&self) -> (r: bool)
        requires
            self.wf(),
        ensures
            r == (failed_count(self@.states) == 0),
    {
        self.succeeded
    }

    /// Whether every descriptor has been started and has finished.
    pub fn is_complete(&self) -> (r: bool)
        requires
            self.wf(),
        ensures
            r == (self@.next == self@.states.len() && in_flight_count(self@.states) == 0),
    {
        self.next == self.states.len() && self.in_flight == 0
    }

    /// `Ok` when no task has failed so far, `Err` otherwise.
    pub fn status(&self) -> (r: Result<(), ()>)
        requires
            self.wf(),
        ensures
            r is Ok <==> failed_count(self@.states) == 0,
    {
        if self.succeeded {
            Ok(())
        } else {
            Err(())
        }
    }
}

/// At no instant are more tasks in flight than the ceiling allows.
pub proof fn lemma_ceiling_respected(b: &Batch)
    requires
        b.wf(),
    ensures
        in_flight_count(b@.states) <= b@.ceiling,
{
}

/// Once every descriptor has finished, the batch has succeeded exactly when no
/// descriptor failed, that is when every one of them succeeded.
pub proof fn lemma_success_iff_no_failure(b: &Batch)
    requires
        b.wf(),
        b@.next == b@.states.len(),
        in_flight_count(b@.states) == 0,
    ensures
        forall|i: int| 0 <= i < b@.states.len() ==> #[trigger] b@.states[i] is Succeeded || b@.states[i] is Failed,
        failed_count(b@.states) == 0 <==> forall|i: int|
            0 <= i < b@.states.len() ==> #[trigger] b@.states[i] is Succeeded,
{
    let s = b@.states;
    lemma_tally_zero(s, |t: TaskState| if t is InFlight { 1int } else { 0int });
    lemma_tally_zero(s, |t: TaskState| if t is Failed { 1int } else { 0int });
    assert forall|i: int| 0 <= i < s.len() implies #[trigger] s[i] is Succeeded || s[i] is Failed by {
        assert(!(s[i] is Pending));
        assert((|t: TaskState| if t is InFlight { 1int } else { 0int })(s[i]) == 0);
    }
    assert forall|i: int| 0 <= i < s.len() implies #[trigger] s[i] is Succeeded <==> (|t: TaskState|
        if t is Failed { 1int } else { 0int })(s[i]) == 0 by {
        assert(!(s[i] is Pending));
        assert((|t: TaskState| if t is InFlight { 1int } else { 0int })(s[i]) == 0);
    }
}

/// The bytes written and the failures seen do not depend on the order in which
/// two tasks finish.
pub proof fn lemma_completion_order_irrelevant(
    s: Seq<TaskState>,
    i: int,
    j: int,
    oi: Outcome,
    oj: Outcome,
)
    requires
        0 <= i < s.len(),
        0 <= j < s.len(),
        i != j,
    ensures
        s.update(i, state_after(oi)).update(j, state_after(oj)) == s.update(j, state_after(oj)).update(
            i,
            state_after(oi),
        ),
        succeeded_bytes(s.update(i, state_after(oi)).update(j, state_after(oj))) == succeeded_bytes(
            s.update(j, state_after(oj)).update(i, state_after(oi)),
        ),
        failed_count(s.update(i, state_after(oi)).update(j, state_after(oj))) == failed_count(
            s.update(j, state_after(oj)).update(i, state_after(oi)),
        ),
{
    assert(s.update(i, state_after(oi)).update(j, state_after(oj)) =~= s.update(j, state_after(oj)).update(
        i,
        state_after(oi),
    ));
}

} // verus!
