//! One write from start to end: taking the repository's lock with a bounded
//! wait, composing, asking again after a conflict, and releasing the lock on
//! every path.
//!
//! The session only decides. Its driver does what the pending action says
//! and reports what happened: it creates the lock marker with one atomic
//! create-if-absent, sleeps, composes, and removes the marker. The session is
//! total: an event that does not answer the pending action changes nothing.
//! With `write_step` the composing is done here as well, and the driver is
//! left with the marker and the clock.
//!
//! The marker records neither its owner nor its age. A marker left behind
//! by a writer that died is never reclaimed: every later write times out
//! until the marker is removed by hand. Waiting is by polling, with no
//! queue: under heavy contention a writer can be passed over until it times
//! out.

use vstd::prelude::*;
use vstd::string::StringExecFns;
use crate::composer::create_file_then_commit_then_push;
use crate::errors::{AppError, ErrorKind};
use crate::file::CreateFileInput;
use crate::object_id::ObjectId;

verus! {

/// How long a writer waits for the lock and how often it composes.
#[derive(Clone, Copy, Debug, PartialEq, Eq, Structural)]
pub struct WritePolicy {
    /// The wait after which a writer gives the lock up, in milliseconds.
    pub max_wait_ms: u64,
    /// The sleep between two attempts to take the lock, in milliseconds.
    pub poll_interval_ms: u64,
    /// How many times one write composes at most.
    pub max_attempts: u32,
    /// The sleep between two compositions, in milliseconds.
    pub retry_delay_ms: u64,
}

/// Where a write stands; each phase has one pending action.
#[derive(Clone, Copy, Debug, PartialEq, Eq, Structural)]
pub enum Phase {
    /// About to try to create the lock marker.
    Acquiring,
    /// The marker was there; about to sleep before the next try.
    Backoff,
    /// Holds the lock; about to compose.
    Composing,
    /// Holds the lock; about to sleep before composing again.
    Cooling,
    /// Holds the lock; about to remove the marker.
    Releasing,
    /// Done; the lock is not held.
    Finished,
}

/// What the driver has to do next.
#[derive(Clone, Copy, Debug, PartialEq, Eq, Structural)]
pub enum WriteAction {
    /// Create the lock marker if, and only if, it is absent, in one step.
    TryLock,
    /// Sleep for so many milliseconds.
    Sleep(u64),
    /// Compose one commit.
    Compose,
    /// Remove the lock marker.
    Unlock,
    /// Nothing: take the result.
    Finish,
}

/// What the driver reports.
#[derive(Debug, PartialEq, Eq)]
pub enum WriteEvent {
    /// The marker was absent and is now this writer's.
    LockCreated,
    /// The marker was there already.
    LockHeld,
    /// The marker could not be created for another reason, given in words.
    LockFailed(String),
    /// The sleep is over.
    Slept,
    /// The composition ended so.
    Composed(Result<ObjectId, AppError>),
    /// The marker is removed.
    Unlocked,
}

/// How a write ended, as far as it has.
#[derive(Debug, PartialEq, Eq)]
pub enum Outcome {
    /// Not ended yet.
    Pending,
    /// The lock could not be had within the bounded wait.
    Busy,
    /// Ended without waiting out the lock, with this result.
    Settled(Result<ObjectId, AppError>),
}

/// The state of one write.
#[derive(Debug, PartialEq, Eq)]
pub struct WriteSession {
    pub policy: WritePolicy,
    pub phase: Phase,
    /// The milliseconds slept so far while waiting for the lock.
    pub waited_ms: u64,
    /// The compositions that ended in a conflict and were tried again.
    pub attempts: u32,
    pub outcome: Outcome,
}

impl WritePolicy {
    /// A policy under which every wait ends: the poll interval is not zero
    /// and at least one composition is allowed.
    pub open spec fn is_valid(self) -> bool {
        self.poll_interval_ms > 0 && self.max_attempts > 0
    }

    /// Twenty thousand polls one second apart, and three compositions one
    /// second apart.
    pub fn standard() -> (policy: WritePolicy)
        ensures
            policy.is_valid(),
            policy == (WritePolicy {
                max_wait_ms: 20_000_000,
                poll_interval_ms: 1_000,
                max_attempts: 3,
                retry_delay_ms: 1_000,
            }),
    {
        WritePolicy {
            max_wait_ms: 20_000_000,
            poll_interval_ms: 1_000,
            max_attempts: 3,
            retry_delay_ms: 1_000,
        }
    }
}

/// The session of a write that has not started.
pub open spec fn fresh(policy: WritePolicy) -> WriteSession {
    WriteSession {
        policy,
        phase: Phase::Acquiring,
        waited_ms: 0,
        attempts: 0,
        outcome: Outcome::Pending,
    }
}

/// What the driver has to do for a session in this state.
pub open spec fn pending(s: WriteSession) -> WriteAction {
    match s.phase {
        Phase::Acquiring => WriteAction::TryLock,
        Phase::Backoff => WriteAction::Sleep(s.policy.poll_interval_ms),
        Phase::Composing => WriteAction::Compose,
        Phase::Cooling => WriteAction::Sleep(s.policy.retry_delay_ms),
        Phase::Releasing => WriteAction::Unlock,
        Phase::Finished => WriteAction::Finish,
    }
}

/// Whether the session holds the repository's lock: from the creation of
/// the marker until its removal.
pub open spec fn holds_lock(s: WriteSession) -> bool {
    s.phase == Phase::Composing || s.phase == Phase::Cooling || s.phase == Phase::Releasing
}

/// The wait after one more poll interval, held at the largest value.
pub open spec fn waited_after_sleep(s: WriteSession) -> u64 {
    if s.waited_ms + s.policy.poll_interval_ms > u64::MAX {
        u64::MAX
    } else {
        (s.waited_ms + s.policy.poll_interval_ms) as u64
    }
}

/// Whether a composition that ended in `e` is tried again: `e` is a
/// conflict, and one more composition stays within the policy.
pub open spec fn is_retried(s: WriteSession, e: AppError) -> bool {
    e.kind_of() == ErrorKind::CommitConflict && s.attempts + 1 < s.policy.max_attempts
}

/// The state after `event`.
pub open spec fn next(s: WriteSession, event: WriteEvent) -> WriteSession {
    match (s.phase, event) {
        (Phase::Acquiring, WriteEvent::LockCreated) => WriteSession {
            phase: Phase::Composing,
            ..s
        },
        (Phase::Acquiring, WriteEvent::LockHeld) => if s.waited_ms >= s.policy.max_wait_ms {
            WriteSession { phase: Phase::Finished, outcome: Outcome::Busy, ..s }
        } else {
            WriteSession { phase: Phase::Backoff, ..s }
        },
        (Phase::Acquiring, WriteEvent::LockFailed(words)) => WriteSession {
            phase: Phase::Finished,
            outcome: Outcome::Settled(Err(AppError::ObjectStoreError(words))),
            ..s
        },
        (Phase::Backoff, WriteEvent::Slept) => WriteSession {
            phase: Phase::Acquiring,
            waited_ms: waited_after_sleep(s),
            ..s
        },
        (Phase::Composing, WriteEvent::Composed(Ok(id))) => WriteSession {
            phase: Phase::Releasing,
            outcome: Outcome::Settled(Ok(id)),
            ..s
        },
        (Phase::Composing, WriteEvent::Composed(Err(e))) => if is_retried(s, e) {
            WriteSession { phase: Phase::Cooling, attempts: (s.attempts + 1) as u32, ..s }
        } else {
            WriteSession { phase: Phase::Releasing, outcome: Outcome::Settled(Err(e)), ..s }
        },
        (Phase::Cooling, WriteEvent::Slept) => WriteSession { phase: Phase::Composing, ..s },
        (Phase::Releasing, WriteEvent::Unlocked) => WriteSession { phase: Phase::Finished, ..s },
        _ => s,
    }
}

/// Whether `r` is the result of the write on the repository at `repo_path`
/// that `s` stands for: none before the end; after it the settled result,
/// or the refusal of a busy repository, which names the repository.
pub open spec fn is_result_of(
    s: WriteSession,
    repo_path: Seq<char>,
    r: Option<Result<ObjectId, AppError>>,
) -> bool {
    if s.phase != Phase::Finished {
        r is None
    } else {
        match s.outcome {
            Outcome::Settled(settled) => r == Some(settled),
            _ => r matches Some(Err(e)) && e.says(ErrorKind::RepositoryBusy, repo_path),
        }
    }
}

impl WriteSession {
    /// The session of a write that has not started.
    pub fn new(policy: WritePolicy) -> (s: WriteSession)
        ensures
            s == fresh(policy),
    {
        WriteSession {
            policy,
            phase: Phase::Acquiring,
            waited_ms: 0,
            attempts: 0,
            outcome: Outcome::Pending,
        }
    }

    /// What the driver has to do now.
    pub fn action(&self) -> (action: WriteAction)
        ensures
            action == pending(*self),
    {
        match self.phase {
            Phase::Acquiring => WriteAction::TryLock,
            Phase::Backoff => WriteAction::Sleep(self.policy.poll_interval_ms),
            Phase::Composing => WriteAction::Compose,
            Phase::Cooling => WriteAction::Sleep(self.policy.retry_delay_ms),
            Phase::Releasing => WriteAction::Unlock,
            Phase::Finished => WriteAction::Finish,
        }
    }

    /// Whether the write has ended.
    pub fn is_finished(&self) -> (b: bool)
        ensures
            b == (self.phase == Phase::Finished),
    {
        matches!(self.phase, Phase::Finished)
    }

    /// Whether the session holds the repository's lock.
    pub fn is_holding_lock(&self) -> (b: bool)
        ensures
            b == holds_lock(*self),
    {
        matches!(self.phase, Phase::Composing | Phase::Cooling | Phase::Releasing)
    }

    /// Takes in what the driver reports and says what it has to do next.
    pub fn advance(&mut self, event: WriteEvent) -> (action: WriteAction)
        ensures
            *final(self) == next(*old(self), event),
            action == pending(*final(self)),
    {
        match self.phase {
            Phase::Acquiring => match event {
                WriteEvent::LockCreated => {
                    self.phase = Phase::Composing;
                },
                WriteEvent::LockHeld => {
                    if self.waited_ms >= self.policy.max_wait_ms {
                        self.phase = Phase::Finished;
                        self.outcome = Outcome::Busy;
                    } else {
                        self.phase = Phase::Backoff;
                    }
                },
                WriteEvent::LockFailed(words) => {
                    self.phase = Phase::Finished;
                    self.outcome = Outcome::Settled(Err(AppError::ObjectStoreError(words)));
                },
                _ => {},
            },
            Phase::Backoff => match event {
                WriteEvent::Slept => {
                    self.waited_ms = if self.policy.poll_interval_ms > u64::MAX - self.waited_ms {
                        u64::MAX
                    } else {
                        self.waited_ms + self.policy.poll_interval_ms
                    };
                    self.phase = Phase::Acquiring;
                },
                _ => {},
            },
            Phase::Composing => match event {
                WriteEvent::Composed(Ok(id)) => {
                    self.phase = Phase::Releasing;
                    self.outcome = Outcome::Settled(Ok(id));
                },
                WriteEvent::Composed(Err(e)) => {
                    let conflict = matches!(e, AppError::CommitConflictError(_));
                    if conflict && self.policy.max_attempts > 0 && self.attempts
                        < self.policy.max_attempts - 1 {
                        self.phase = Phase::Cooling;
                        self.attempts = self.attempts + 1;
                    } else {
                        self.phase = Phase::Releasing;
                        self.outcome = Outcome::Settled(Err(e));
                    }
                },
                _ => {},
            },
            Phase::Cooling => match event {
                WriteEvent::Slept => {
                    self.phase = Phase::Composing;
                },
                _ => {},
            },
            Phase::Releasing => match event {
                WriteEvent::Unlocked => {
                    self.phase = Phase::Finished;
                },
                _ => {},
            },
            Phase::Finished => {},
        }
        self.action()
    }

    /// The result of the write, once it has ended.
    pub fn finish(self, repo_path: &str) -> (r: Option<Result<ObjectId, AppError>>)
        ensures
            is_result_of(self, repo_path@, r),
    {
        if !self.is_finished() {
            return None;
        }
        match self.outcome {
            Outcome::Settled(settled) => Some(settled),
            _ => Some(Err(AppError::RepositoryBusyError(String::from_str(repo_path)))),
        }
    }
}

/// The state after a composition that returned `composed`.
pub open spec fn after_composing(
    s: WriteSession,
    composed: Result<ObjectId, AppError>,
) -> WriteSession {
    next(s, WriteEvent::Composed(composed))
}

/// Whether `after` is what `write_step` makes of `before` and `event`: the
/// state after the event, and, where composing is pending then, the state
/// after one composition, whatever it returned.
pub open spec fn is_step(before: WriteSession, event: WriteEvent, after: WriteSession) -> bool {
    let told = next(before, event);
    if pending(told) is Compose {
        exists|composed: Result<ObjectId, AppError>|
            after == #[trigger] after_composing(told, composed)
    } else {
        after == told
    }
}

/// One step of the write of `input` into `repo`: takes in what the driver
/// reports and, where the session then is to compose, composes at once, so
/// that a commit is only ever composed by a session that holds the lock.
/// What is left to the driver is the marker and the clock: the action that
/// is returned is never to compose.
pub fn write_step(
    session: &mut WriteSession,
    event: WriteEvent,
    repo: &git2::Repository,
    input: &CreateFileInput,
    author_signature: &git2::Signature<'_>,
    committer_signature: &git2::Signature<'_>,
) -> (action: WriteAction)
    ensures
        is_step(*old(session), event, *final(session)),
        action == pending(*final(session)),
        action !is Compose,
{
    let told = session.advance(event);
    match told {
        WriteAction::Compose => {
            let composed = match create_file_then_commit_then_push(
                repo,
                input.file_path.as_str(),
                input.file_content.as_str(),
                input.branch.as_str(),
                author_signature,
                committer_signature,
                input.commit_message.as_str(),
            ) {
                Ok(record) => Ok(record.id),
                Err(e) => Err(e),
            };
            let ghost composing = *session;
            let action = session.advance(WriteEvent::Composed(composed));
            assert(*session == after_composing(composing, composed));
            action
        },
        _ => told,
    }
}

/// What holds of every session that a driver can reach from a fresh one
/// under a valid policy: the wait never passes the bound by a whole poll
/// interval, a writer only sleeps while the bound is not reached, the
/// conflicts stay below the allowed compositions, and the outcome is
/// settled exactly when composing is over.
pub open spec fn is_consistent(s: WriteSession) -> bool {
    &&& s.policy.is_valid()
    &&& s.waited_ms < s.policy.max_wait_ms + s.policy.poll_interval_ms
    &&& s.attempts < s.policy.max_attempts
    &&& s.phase == Phase::Backoff ==> s.waited_ms < s.policy.max_wait_ms
    &&& match s.phase {
        Phase::Releasing => s.outcome is Settled,
        Phase::Finished => s.outcome !is Pending,
        _ => s.outcome is Pending,
    }
}

/// A fresh session under a valid policy is consistent.
pub proof fn lemma_fresh_is_consistent(policy: WritePolicy)
    requires
        policy.is_valid(),
    ensures
        is_consistent(fresh(policy)),
        !holds_lock(fresh(policy)),
{
}

/// No event makes a consistent session inconsistent.
pub proof fn lemma_next_is_consistent(s: WriteSession, event: WriteEvent)
    requires
        is_consistent(s),
    ensures
        is_consistent(next(s, event)),
{
}

/// The lock is taken only by creating the marker: a session that did not
/// hold the lock holds it after an event only if it was acquiring and the
/// event is the creation of the marker.
pub proof fn lemma_lock_is_taken_by_creation(s: WriteSession, event: WriteEvent)
    requires
        !holds_lock(s),
        holds_lock(next(s, event)),
    ensures
        s.phase == Phase::Acquiring,
        event == WriteEvent::LockCreated,
{
}

/// The lock is released on every path: a session that held the lock no
/// longer holds it after an event only if it was releasing and the event is
/// the removal of the marker. Whatever composing returned, the session does
/// not end before that.
pub proof fn lemma_lock_is_left_by_release(s: WriteSession, event: WriteEvent)
    requires
        holds_lock(s),
        !holds_lock(next(s, event)),
    ensures
        s.phase == Phase::Releasing,
        event == WriteEvent::Unlocked,
        next(s, event).phase == Phase::Finished,
{
}

/// After a composition the session either releases the lock with the
/// composition's own result settled, or, after a conflict that the policy
/// lets it retry, cools down to compose again.
pub proof fn lemma_composition_is_settled_or_retried(
    s: WriteSession,
    composed: Result<ObjectId, AppError>,
)
    requires
        s.phase == Phase::Composing,
    ensures
        ({
            let after = next(s, WriteEvent::Composed(composed));
            if composed matches Err(e) && is_retried(s, e) {
                after.phase == Phase::Cooling && after.attempts == s.attempts + 1 && after.outcome
                    == s.outcome
            } else {
                after.phase == Phase::Releasing && after.outcome == Outcome::Settled(composed)
            }
        }),
{
}

/// Whether `event` is an answer to `action`.
pub open spec fn answers(event: WriteEvent, action: WriteAction) -> bool {
    match action {
        WriteAction::TryLock => event is LockCreated || event is LockHeld || event is LockFailed,
        WriteAction::Sleep(_) => event is Slept,
        WriteAction::Compose => event is Composed,
        WriteAction::Unlock => event is Unlocked,
        WriteAction::Finish => false,
    }
}

/// The most answers that a session that holds the lock still takes until
/// the lock is released; zero for a session that does not hold it.
pub open spec fn steps_to_release(s: WriteSession) -> int {
    match s.phase {
        Phase::Composing => 2 * (s.policy.max_attempts - s.attempts) + 1,
        Phase::Cooling => 2 * (s.policy.max_attempts - s.attempts) + 2,
        Phase::Releasing => 1,
        _ => 0,
    }
}

/// The lock is released after a bounded number of steps: every answer to
/// what is pending brings a session that holds the lock nearer to the
/// release, whatever composing returns, and the release is never more than
/// two steps for each allowed composition, and two more, away.
pub proof fn lemma_holder_nears_release(s: WriteSession, event: WriteEvent)
    requires
        is_consistent(s),
        holds_lock(s),
        answers(event, pending(s)),
    ensures
        0 <= steps_to_release(next(s, event)) < steps_to_release(s) <= 2 * s.policy.max_attempts
            + 2,
        steps_to_release(next(s, event)) == 0 <==> !holds_lock(next(s, event)),
{
}

/// What a writer is told while the marker is there and is never removed.
pub open spec fn refusal(s: WriteSession) -> WriteEvent {
    if s.phase == Phase::Backoff {
        WriteEvent::Slept
    } else {
        WriteEvent::LockHeld
    }
}

/// The session after `steps` events of a writer that finds the marker
/// there at every try.
pub open spec fn starved(s: WriteSession, steps: nat) -> WriteSession
    decreases steps,
{
    if steps == 0 {
        s
    } else {
        starved(next(s, refusal(s)), (steps - 1) as nat)
    }
}

/// A session that has ended stays as it is.
pub proof fn lemma_finished_stays(s: WriteSession, steps: nat)
    requires
        s.phase == Phase::Finished,
    ensures
        starved(s, steps) == s,
    decreases steps,
{
    if steps > 0 {
        lemma_finished_stays(s, (steps - 1) as nat);
    }
}

/// A writer that waits for a marker that is never removed gives up once
/// the polls that are left cover the rest of the bounded wait: its session
/// ends as busy, having waited the bound or more and less than the bound and
/// one poll interval.
pub proof fn lemma_waiting_ends(s: WriteSession, polls: nat, steps: nat)
    requires
        s.phase == Phase::Acquiring,
        s.outcome is Pending,
        s.waited_ms < s.policy.max_wait_ms + s.policy.poll_interval_ms,
        polls * s.policy.poll_interval_ms + s.waited_ms >= s.policy.max_wait_ms,
        steps >= 2 * polls + 1,
    ensures
        starved(s, steps).phase == Phase::Finished,
        starved(s, steps).outcome == Outcome::Busy,
        starved(s, steps).policy == s.policy,
        starved(s, steps).attempts == s.attempts,
        s.policy.max_wait_ms <= starved(s, steps).waited_ms < s.policy.max_wait_ms
            + s.policy.poll_interval_ms,
    decreases polls,
{
    let refused = next(s, WriteEvent::LockHeld);
    assert(starved(s, steps) == starved(refused, (steps - 1) as nat));
    if s.waited_ms >= s.policy.max_wait_ms {
        lemma_finished_stays(refused, (steps - 1) as nat);
    } else {
        let rested = next(refused, WriteEvent::Slept);
        assert(polls > 0) by {
            if polls == 0 {
                assert(polls * s.policy.poll_interval_ms == 0) by (nonlinear_arith)
                    requires
                        polls == 0,
                ;
            }
        }
        assert(starved(refused, (steps - 1) as nat) == starved(rested, (steps - 2) as nat));
        assert((polls - 1) * s.policy.poll_interval_ms == polls * s.policy.poll_interval_ms
            - s.policy.poll_interval_ms) by (nonlinear_arith);
        assert((polls - 1) * s.policy.poll_interval_ms >= 0) by (nonlinear_arith)
            requires
                polls >= 1,
                s.policy.poll_interval_ms >= 0,
        ;
        lemma_waiting_ends(rested, (polls - 1) as nat, (steps - 2) as nat);
    }
}

/// Timeout: while the marker is there and is never removed, a fresh write
/// never holds the lock and never composes, and once its polls cover the
/// bounded wait it has ended as busy, after the bounded wait and less than
/// one poll interval more.
pub proof fn lemma_starved_write_times_out(policy: WritePolicy, polls: nat, steps: nat)
    requires
        policy.is_valid(),
        polls * policy.poll_interval_ms >= policy.max_wait_ms,
        steps >= 2 * polls + 1,
    ensures
        starved(fresh(policy), steps).phase == Phase::Finished,
        starved(fresh(policy), steps).outcome == Outcome::Busy,
        policy.max_wait_ms <= starved(fresh(policy), steps).waited_ms < policy.max_wait_ms
            + policy.poll_interval_ms,
        forall|earlier: nat| !holds_lock(#[trigger] starved(fresh(policy), earlier)),
{
    lemma_waiting_ends(fresh(policy), polls, steps);
    assert forall|earlier: nat| !holds_lock(#[trigger] starved(fresh(policy), earlier)) by {
        lemma_starved_never_holds(fresh(policy), earlier);
    }
}

/// A writer that is refused at every try never holds the lock, so it never
/// composes: no commit is written and no reference moves.
pub proof fn lemma_starved_never_holds(s: WriteSession, steps: nat)
    requires
        !holds_lock(s),
    ensures
        !holds_lock(starved(s, steps)),
        starved(s, steps).outcome is Settled ==> s.outcome is Settled,
    decreases steps,
{
    if steps > 0 {
        lemma_starved_never_holds(next(s, refusal(s)), (steps - 1) as nat);
    }
}

/// The writers of one repository and whether its lock marker is there.
pub struct Contention {
    pub marker: bool,
    pub writers: Seq<WriteSession>,
}

/// What the driver of `s` reports when it does what is pending while the
/// marker is there or not; `composed` is what composing returns if that is
/// what is pending.
pub open spec fn report(
    marker: bool,
    s: WriteSession,
    composed: Result<ObjectId, AppError>,
) -> WriteEvent {
    match pending(s) {
        WriteAction::TryLock => if marker {
            WriteEvent::LockHeld
        } else {
            WriteEvent::LockCreated
        },
        WriteAction::Sleep(_) => WriteEvent::Slept,
        WriteAction::Compose => WriteEvent::Composed(composed),
        WriteAction::Unlock => WriteEvent::Unlocked,
        WriteAction::Finish => WriteEvent::Unlocked,
    }
}

/// Whether the marker is there after the driver of `s` did what is pending:
/// an atomic create leaves it there, a removal leaves it absent, and nothing
/// else touches it.
pub open spec fn marker_after(marker: bool, s: WriteSession) -> bool {
    match pending(s) {
        WriteAction::TryLock => true,
        WriteAction::Unlock => false,
        _ => marker,
    }
}

/// The repository after writer `i` did what is pending for it.
pub open spec fn turn(c: Contention, i: int, composed: Result<ObjectId, AppError>) -> Contention {
    Contention {
        marker: marker_after(c.marker, c.writers[i]),
        writers: c.writers.update(
            i,
            next(c.writers[i], report(c.marker, c.writers[i], composed)),
        ),
    }
}

/// At most one writer holds the lock, and while one does the marker is
/// there.
pub open spec fn is_exclusive(c: Contention) -> bool {
    &&& forall|i: int, j: int|
        0 <= i < c.writers.len() && 0 <= j < c.writers.len() && i != j ==> !(holds_lock(
            #[trigger] c.writers[i],
        ) && holds_lock(#[trigger] c.writers[j]))
    &&& forall|i: int| 0 <= i < c.writers.len() && holds_lock(#[trigger] c.writers[i]) ==> c.marker
}

/// Writers that have not started exclude each other, whether a marker was
/// left behind or not.
pub proof fn lemma_fresh_writers_are_exclusive(c: Contention)
    requires
        forall|i: int| 0 <= i < c.writers.len() ==> !holds_lock(#[trigger] c.writers[i]),
    ensures
        is_exclusive(c),
{
}

/// Mutual exclusion: whichever writer takes the next turn, and whatever its
/// composition returns, at most one writer holds the lock afterwards, so at
/// most one composition is in flight at any instant.
pub proof fn lemma_turn_keeps_exclusive(c: Contention, i: int, composed: Result<ObjectId, AppError>)
    requires
        is_exclusive(c),
        0 <= i < c.writers.len(),
    ensures
        is_exclusive(turn(c, i, composed)),
        turn(c, i, composed).writers.len() == c.writers.len(),
{
    let after = turn(c, i, composed);
    let mover = c.writers[i];
    assert forall|a: int, b: int|
        0 <= a < after.writers.len() && 0 <= b < after.writers.len() && a != b implies !(holds_lock(
        #[trigger] after.writers[a],
    ) && holds_lock(#[trigger] after.writers[b])) by {
        if a != i && b != i {
            assert(after.writers[a] == c.writers[a]);
            assert(after.writers[b] == c.writers[b]);
        } else {
            let other = if a == i {
                b
            } else {
                a
            };
            assert(after.writers[other] == c.writers[other]);
            if holds_lock(c.writers[other]) {
                assert(c.marker);
                assert(!holds_lock(mover));
                assert(!holds_lock(after.writers[i]));
            }
        }
    }
    assert forall|a: int|
        0 <= a < after.writers.len() && holds_lock(
            #[trigger] after.writers[a],
        ) implies after.marker by {
        if a != i {
            assert(after.writers[a] == c.writers[a]);
            assert(c.marker);
            assert(!holds_lock(mover));
        }
    }
}

/// The repository after the turns `turns`, oldest first; each turn names
/// the writer that moves and what its composition returns if it composes. A
/// turn of a writer that is not there changes nothing.
pub open spec fn played(c: Contention, turns: Seq<(int, Result<ObjectId, AppError>)>) -> Contention
    decreases turns.len(),
{
    if turns.len() == 0 {
        c
    } else {
        let before = played(c, turns.drop_last());
        if 0 <= turns.last().0 < before.writers.len() {
            turn(before, turns.last().0, turns.last().1)
        } else {
            before
        }
    }
}

/// Mutual exclusion at every instant: writers that start without the lock
/// exclude each other after any turns in any order, whatever their
/// compositions return and whether a marker was left behind or not.
pub proof fn lemma_writers_stay_exclusive(
    c: Contention,
    turns: Seq<(int, Result<ObjectId, AppError>)>,
)
    requires
        forall|i: int| 0 <= i < c.writers.len() ==> !holds_lock(#[trigger] c.writers[i]),
    ensures
        is_exclusive(played(c, turns)),
        played(c, turns).writers.len() == c.writers.len(),
    decreases turns.len(),
{
    if turns.len() == 0 {
        lemma_fresh_writers_are_exclusive(c);
    } else {
        lemma_writers_stay_exclusive(c, turns.drop_last());
        let before = played(c, turns.drop_last());
        if 0 <= turns.last().0 < before.writers.len() {
            lemma_turn_keeps_exclusive(before, turns.last().0, turns.last().1);
        }
    }
}

/// Where at most one writer holds the lock, two writers that are both
/// composing are the same writer.
pub proof fn lemma_one_composition_in_flight(c: Contention, i: int, j: int)
    requires
        is_exclusive(c),
        0 <= i < c.writers.len(),
        0 <= j < c.writers.len(),
        c.writers[i].phase == Phase::Composing,
        c.writers[j].phase == Phase::Composing,
    ensures
        i == j,
{
}

} // verus!
