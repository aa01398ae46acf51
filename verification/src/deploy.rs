//! The deployment sequencer: whether and when to release the solar panels.
//!
//! Release happens once in a mission and cannot be undone, so the sequencer
//! is careful in a fixed order. A satellite that has deployed does nothing
//! more. The remove-before-flight interlock, where it is set or cannot be
//! read, blocks release whatever else holds. Only then does the hold timer
//! count: release waits until the configured delay has passed since the hold
//! first began, and the beginning is kept in the durable store so that a
//! reboot resumes the hold instead of starting it again.
//!
//! Reading the store and the clock, waiting, and commanding the hardware are
//! the driver's work. A [`Sequencer`] says through [`Sequencer::pending`]
//! what to do first; the driver does it and reports the result to
//! [`Sequencer::step`], which says what to do next, until the action is
//! [`DeployAction::Finish`].

use crate::hold::{remaining_hold, remaining_of, StartRecord, Time};
use vstd::prelude::*;

verus! {

/// The pause between enabling the release mechanism and arming it.
pub const RELEASE_PAUSE_NANOS: u32 = 100_000_000;

/// The name under which the store keeps whether the panels have deployed.
pub const VAR_DEPLOYED: &'static str = "deployed";

/// The name under which the store keeps the interlock.
pub const VAR_REMOVE_BEFORE_FLIGHT: &'static str = "remove_before_flight";

/// The name under which the store keeps the beginning of the hold.
pub const VAR_DEPLOY_START: &'static str = "deploy_start";

/// The module whose controller drives the release mechanism.
pub const RELEASE_MODULE: &'static str = "bim";

/// What an evaluation finds.
#[derive(Clone, Copy, Debug, PartialEq, Eq, Structural)]
pub enum DeployStatus {
    /// The interlock is set, or cannot be read: release is blocked.
    RemoveBeforeFlight,
    /// The hold is over and nothing blocks release.
    Ready,
    /// The panels have deployed before.
    AlreadyDeployed,
}

/// A step of the release sequence.
#[derive(Clone, Copy, Debug, PartialEq, Eq, Structural)]
pub enum FireStep {
    /// Enable the release mechanism.
    Enable,
    /// Arm it.
    Arm,
    /// Fire it.
    Fire,
}

/// A step of bringing up the radios.
#[derive(Clone, Copy, Debug, PartialEq, Eq, Structural)]
pub enum RadioStep {
    /// Power the two-way radio.
    PowerDuplex,
    /// Power the one-way radio.
    PowerSimplex,
    /// Route the one-way radio to its serial line.
    RouteSimplex,
    /// Open the passthrough to the one-way radio.
    PassSimplex,
    /// Start the beacon.
    StartBeacon,
}

/// Which steps of a release sequence reported failure.
#[derive(Clone, Copy, Debug, PartialEq, Eq, Structural)]
pub struct StepFailures {
    pub enable: bool,
    pub arm: bool,
    pub fire: bool,
}

impl StepFailures {
    /// No step has failed.
    pub open spec fn spec_none() -> StepFailures {
        StepFailures { enable: false, arm: false, fire: false }
    }

    /// Whether any step has failed.
    pub open spec fn spec_any(self) -> bool {
        self.enable || self.arm || self.fire
    }

    /// These failures and the result of one more step.
    pub open spec fn spec_with(self, step: FireStep, ok: bool) -> StepFailures {
        match step {
            FireStep::Enable => StepFailures { enable: !ok, ..self },
            FireStep::Arm => StepFailures { arm: !ok, ..self },
            FireStep::Fire => StepFailures { fire: !ok, ..self },
        }
    }

    /// No step has failed.
    #[verifier::when_used_as_spec(spec_none)]
    pub fn none() -> (f: StepFailures)
        ensures
            f == StepFailures::spec_none(),
    {
        StepFailures { enable: false, arm: false, fire: false }
    }

    /// Whether any step has failed.
    #[verifier::when_used_as_spec(spec_any)]
    pub fn any(self) -> (b: bool)
        ensures
            b == self.spec_any(),
    {
        self.enable || self.arm || self.fire
    }

    /// These failures and the result of one more step.
    #[verifier::when_used_as_spec(spec_with)]
    pub fn with(self, step: FireStep, ok: bool) -> (f: StepFailures)
        ensures
            f == self.spec_with(step, ok),
    {
        match step {
            FireStep::Enable => StepFailures { enable: !ok, arm: self.arm, fire: self.fire },
            FireStep::Arm => StepFailures { enable: self.enable, arm: !ok, fire: self.fire },
            FireStep::Fire => StepFailures { enable: self.enable, arm: self.arm, fire: !ok },
        }
    }
}

/// A read or a write of the durable store that failed. The sequencer
/// recovers from it on the spot, towards safety for the interlock and
/// towards progress for the hold, and does not try again.
#[derive(Clone, Copy, Debug, PartialEq, Eq, Structural)]
pub struct PersistenceError;

/// What a read of a flag of the store gave.
pub type Flag = Result<bool, PersistenceError>;

/// Whether a flag was read as set.
pub open spec fn is_set(flag: Flag) -> bool {
    flag == Ok::<bool, PersistenceError>(true)
}

/// Whether a flag was read as clear.
pub open spec fn is_clear(flag: Flag) -> bool {
    flag == Ok::<bool, PersistenceError>(false)
}

/// Why a deployment did not go through cleanly.
#[derive(Clone, Copy, Debug, PartialEq, Eq)]
pub enum DeployError {
    /// The interlock blocks release. No hardware was commanded.
    SafetyInterlock,
    /// The release sequence ran to its end, but these steps reported failure.
    /// The panels may have been released all the same.
    PartialDeployFailure(StepFailures),
}

/// How a run of the sequencer ends.
pub type Outcome = Result<DeployStatus, DeployError>;

/// What a run of the sequencer is for.
#[derive(Clone, Copy, Debug, PartialEq, Eq)]
pub enum Goal {
    /// Find the deployment status, waiting out the hold.
    Evaluate,
    /// Release the panels. With `force` the hold is not waited out and an
    /// earlier deployment is not asked about; the interlock applies all the
    /// same.
    Fire { force: bool },
    /// Release the panels as `Fire` does without force, then bring up the
    /// radios, whatever became of the release.
    Boot,
}

/// What the driver of the sequencer has to do next.
#[derive(Clone, Copy, Debug, PartialEq, Eq)]
pub enum DeployAction {
    /// Read `deployed` from the store and report it as `Deployed`.
    ReadDeployed,
    /// Read `remove_before_flight` from the store and report it as
    /// `Interlock`.
    ReadInterlock,
    /// Read `deploy_start` from the store and report it as `Start`.
    ReadStart,
    /// Read the clock and report it as `Clock`.
    ReadClock,
    /// Write this time to the store as `deploy_start` and report as
    /// `Persisted` whether that worked.
    PersistStart(Time),
    /// Wait this long, then report `Elapsed`.
    Wait(Time),
    /// Command this step of the release sequence and report as `Commanded`
    /// whether it worked.
    Release(FireStep),
    /// Command this step of the radio bring-up and report as `Commanded`
    /// whether it worked.
    StartRadio(RadioStep),
    /// The run is over with this outcome.
    Finish(Outcome),
}

/// What the driver reports back.
#[derive(Clone, Copy, Debug, PartialEq, Eq)]
pub enum DeployEvent {
    /// The value of `deployed`, or the failure to read it.
    Deployed(Flag),
    /// The value of `remove_before_flight`, or the failure to read it.
    Interlock(Flag),
    /// What the store holds as the beginning of the hold.
    Start(StartRecord),
    /// The time since the epoch, or `None` where the clock cannot tell it.
    Clock(Option<Time>),
    /// Whether the beginning of the hold was written.
    Persisted(Result<(), PersistenceError>),
    /// The requested wait is over.
    Elapsed,
    /// Whether the commanded step worked.
    Commanded(bool),
}

/// Where a run of the sequencer stands.
#[derive(Clone, Copy, Debug, PartialEq, Eq)]
pub enum DeployPhase {
    /// Asking whether the panels have deployed.
    CheckingDeployed,
    /// Asking for the interlock.
    CheckingInterlock,
    /// Asking for the beginning of the hold.
    ReadingStart,
    /// Asking for the time, with the beginning of the hold in hand.
    ReadingClock { start: StartRecord },
    /// Writing the beginning of the hold.
    Persisting { at: Time },
    /// Waiting out the hold.
    Holding { left: Time },
    /// A step of the release sequence is under way.
    Releasing { step: FireStep, failures: StepFailures },
    /// Pausing between enabling and arming.
    ReleasePause { failures: StepFailures },
    /// A step of the radio bring-up is under way.
    StartingRadios { stage: RadioStep, outcome: Outcome },
    /// The run is over.
    Done { outcome: Outcome },
}

/// The status that the two flags of the store give, before any hold: an
/// earlier deployment comes first, then the interlock, which blocks unless
/// it is read as clear.
pub open spec fn status_of_flags(deployed: Flag, interlock: Flag) -> DeployStatus {
    if is_set(deployed) {
        DeployStatus::AlreadyDeployed
    } else if !is_clear(interlock) {
        DeployStatus::RemoveBeforeFlight
    } else {
        DeployStatus::Ready
    }
}

/// The phase in which a run for a goal begins.
pub open spec fn initial_phase(goal: Goal) -> DeployPhase {
    match goal {
        Goal::Fire { force: true } => DeployPhase::CheckingInterlock,
        _ => DeployPhase::CheckingDeployed,
    }
}

/// The outcome of a release sequence that ran to its end.
pub open spec fn release_outcome(failures: StepFailures) -> Outcome {
    if failures.spec_any() {
        Err(DeployError::PartialDeployFailure(failures))
    } else {
        Ok(DeployStatus::Ready)
    }
}

/// The radio step that follows a step, if any.
pub open spec fn radio_step_after(step: RadioStep) -> Option<RadioStep> {
    match step {
        RadioStep::PowerDuplex => Some(RadioStep::PowerSimplex),
        RadioStep::PowerSimplex => Some(RadioStep::RouteSimplex),
        RadioStep::RouteSimplex => Some(RadioStep::PassSimplex),
        RadioStep::PassSimplex => Some(RadioStep::StartBeacon),
        RadioStep::StartBeacon => None,
    }
}

/// What follows once the release is settled, one way or the other.
pub open spec fn after_release(goal: Goal, outcome: Outcome) -> (DeployPhase, DeployAction) {
    match goal {
        Goal::Boot => (
            DeployPhase::StartingRadios { stage: RadioStep::PowerDuplex, outcome },
            DeployAction::StartRadio(RadioStep::PowerDuplex),
        ),
        _ => (DeployPhase::Done { outcome }, DeployAction::Finish(outcome)),
    }
}

/// What follows once the deployment status is known.
pub open spec fn conclude(goal: Goal, status: DeployStatus) -> (DeployPhase, DeployAction) {
    match goal {
        Goal::Evaluate => (
            DeployPhase::Done { outcome: Ok(status) },
            DeployAction::Finish(Ok(status)),
        ),
        _ => match status {
            DeployStatus::Ready => (
                DeployPhase::Releasing {
                    step: FireStep::Enable,
                    failures: StepFailures::spec_none(),
                },
                DeployAction::Release(FireStep::Enable),
            ),
            DeployStatus::RemoveBeforeFlight => after_release(
                goal,
                Err(DeployError::SafetyInterlock),
            ),
            DeployStatus::AlreadyDeployed => after_release(goal, Ok(DeployStatus::AlreadyDeployed)),
        },
    }
}

/// The action that a phase waits on.
pub open spec fn awaited(phase: DeployPhase) -> DeployAction {
    match phase {
        DeployPhase::CheckingDeployed => DeployAction::ReadDeployed,
        DeployPhase::CheckingInterlock => DeployAction::ReadInterlock,
        DeployPhase::ReadingStart => DeployAction::ReadStart,
        DeployPhase::ReadingClock { .. } => DeployAction::ReadClock,
        DeployPhase::Persisting { at } => DeployAction::PersistStart(at),
        DeployPhase::Holding { left } => DeployAction::Wait(left),
        DeployPhase::Releasing { step, .. } => DeployAction::Release(step),
        DeployPhase::ReleasePause { .. } => DeployAction::Wait(
            Time { secs: 0, nanos: RELEASE_PAUSE_NANOS },
        ),
        DeployPhase::StartingRadios { stage, .. } => DeployAction::StartRadio(stage),
        DeployPhase::Done { outcome } => DeployAction::Finish(outcome),
    }
}

/// What follows the reading of the clock, given what the store holds as the
/// beginning of the hold.
///
/// Without a clock there is no hold. A hold that has not begun begins now:
/// the time is written to the store. A hold that has begun is waited out for
/// what is left of it, if anything is.
pub open spec fn on_clock(goal: Goal, delay_secs: u64, start: StartRecord, now: Option<Time>) -> (
    DeployPhase,
    DeployAction,
) {
    match (start, now) {
        (StartRecord::Unset, Some(at)) => (
            DeployPhase::Persisting { at },
            DeployAction::PersistStart(at),
        ),
        (StartRecord::At(began), Some(at)) => match remaining_of(began, at, delay_secs) {
            Some(left) => (DeployPhase::Holding { left }, DeployAction::Wait(left)),
            None => conclude(goal, DeployStatus::Ready),
        },
        _ => conclude(goal, DeployStatus::Ready),
    }
}

/// The sequencer's rules: the phase that follows a phase on an event, and the
/// action to take on entering it. An event that does not answer the awaited
/// action changes nothing, and the awaited action is asked for again.
pub open spec fn transition(
    goal: Goal,
    delay_secs: u64,
    phase: DeployPhase,
    event: DeployEvent,
) -> (DeployPhase, DeployAction) {
    match (phase, event) {
        (DeployPhase::CheckingDeployed, DeployEvent::Deployed(deployed)) => if is_set(deployed) {
            conclude(goal, DeployStatus::AlreadyDeployed)
        } else {
            (DeployPhase::CheckingInterlock, DeployAction::ReadInterlock)
        },
        (DeployPhase::CheckingInterlock, DeployEvent::Interlock(interlock)) => if !is_clear(
            interlock,
        ) {
            conclude(goal, DeployStatus::RemoveBeforeFlight)
        } else if goal == (Goal::Fire { force: true }) {
            conclude(goal, DeployStatus::Ready)
        } else {
            (DeployPhase::ReadingStart, DeployAction::ReadStart)
        },
        (DeployPhase::ReadingStart, DeployEvent::Start(start)) => if start == StartRecord::Corrupt {
            conclude(goal, DeployStatus::Ready)
        } else {
            (DeployPhase::ReadingClock { start }, DeployAction::ReadClock)
        },
        (DeployPhase::ReadingClock { start }, DeployEvent::Clock(now)) => on_clock(
            goal,
            delay_secs,
            start,
            now,
        ),
        (DeployPhase::Persisting { .. }, DeployEvent::Persisted(written)) => if written is Ok
            && delay_secs > 0 {
            let left = Time { secs: delay_secs, nanos: 0 };
            (DeployPhase::Holding { left }, DeployAction::Wait(left))
        } else {
            conclude(goal, DeployStatus::Ready)
        },
        (DeployPhase::Holding { .. }, DeployEvent::Elapsed) => conclude(goal, DeployStatus::Ready),
        (DeployPhase::Releasing { step, failures }, DeployEvent::Commanded(ok)) => {
            let failures = failures.spec_with(step, ok);
            match step {
                FireStep::Enable => (
                    DeployPhase::ReleasePause { failures },
                    DeployAction::Wait(Time { secs: 0, nanos: RELEASE_PAUSE_NANOS }),
                ),
                FireStep::Arm => (
                    DeployPhase::Releasing { step: FireStep::Fire, failures },
                    DeployAction::Release(FireStep::Fire),
                ),
                FireStep::Fire => after_release(goal, release_outcome(failures)),
            }
        },
        (DeployPhase::ReleasePause { failures }, DeployEvent::Elapsed) => (
            DeployPhase::Releasing { step: FireStep::Arm, failures },
            DeployAction::Release(FireStep::Arm),
        ),
        (DeployPhase::StartingRadios { stage, outcome }, DeployEvent::Commanded(_)) => {
            match radio_step_after(stage) {
                Some(next) => (
                    DeployPhase::StartingRadios { stage: next, outcome },
                    DeployAction::StartRadio(next),
                ),
                None => (DeployPhase::Done { outcome }, DeployAction::Finish(outcome)),
            }
        },
        _ => (phase, awaited(phase)),
    }
}

/// The phase that a run is in after a sequence of events.
pub open spec fn phase_after(
    goal: Goal,
    delay_secs: u64,
    phase: DeployPhase,
    events: Seq<DeployEvent>,
) -> DeployPhase
    decreases events.len(),
{
    if events.len() == 0 {
        phase
    } else {
        phase_after(
            goal,
            delay_secs,
            transition(goal, delay_secs, phase, events[0]).0,
            events.drop_first(),
        )
    }
}

/// The actions that the driver is given in the course of a sequence of
/// events, one for each event.
pub open spec fn actions_of(
    goal: Goal,
    delay_secs: u64,
    phase: DeployPhase,
    events: Seq<DeployEvent>,
) -> Seq<DeployAction>
    decreases events.len(),
{
    if events.len() == 0 {
        Seq::empty()
    } else {
        let (next, action) = transition(goal, delay_secs, phase, events[0]);
        seq![action] + actions_of(goal, delay_secs, next, events.drop_first())
    }
}

/// Whether release is still out of reach in a phase: no run gets from here to
/// the release sequence without the report that the interlock is clear.
pub open spec fn before_clearance(phase: DeployPhase) -> bool {
    match phase {
        DeployPhase::CheckingDeployed => true,
        DeployPhase::CheckingInterlock => true,
        DeployPhase::StartingRadios { outcome, .. } => outcome != Ok::<DeployStatus, DeployError>(
            DeployStatus::Ready,
        ) && !(outcome is Err && outcome->Err_0 is PartialDeployFailure),
        DeployPhase::Done { outcome } => outcome != Ok::<DeployStatus, DeployError>(
            DeployStatus::Ready,
        ) && !(outcome is Err && outcome->Err_0 is PartialDeployFailure),
        _ => false,
    }
}

/// The two flags of the store decide what an evaluation finds: it ends with
/// `AlreadyDeployed` on the first report or with `RemoveBeforeFlight` on the
/// second exactly where the flags say so, and goes on to the hold only where
/// they say `Ready`.
pub proof fn law_flags_decide(delay_secs: u64, deployed: Flag, interlock: Flag)
    ensures
        ({
            let first = transition(
                Goal::Evaluate,
                delay_secs,
                DeployPhase::CheckingDeployed,
                DeployEvent::Deployed(deployed),
            );
            let second = transition(
                Goal::Evaluate,
                delay_secs,
                first.0,
                DeployEvent::Interlock(interlock),
            );
            match status_of_flags(deployed, interlock) {
                DeployStatus::AlreadyDeployed => first.1 == DeployAction::Finish(
                    Ok(DeployStatus::AlreadyDeployed),
                ),
                DeployStatus::RemoveBeforeFlight => first.1 == DeployAction::ReadInterlock
                    && second.1 == DeployAction::Finish(Ok(DeployStatus::RemoveBeforeFlight)),
                DeployStatus::Ready => first.1 == DeployAction::ReadInterlock && second
                    == (DeployPhase::ReadingStart, DeployAction::ReadStart),
            }
        }),
{
}

/// A satellite that has deployed is found `AlreadyDeployed` at once, whatever
/// the interlock, the hold and the delay are: nothing else is read and
/// nothing is written, waited for or commanded.
pub proof fn law_deployed_wins(delay_secs: u64)
    ensures
        initial_phase(Goal::Evaluate) == DeployPhase::CheckingDeployed,
        awaited(DeployPhase::CheckingDeployed) == DeployAction::ReadDeployed,
        transition(
            Goal::Evaluate,
            delay_secs,
            DeployPhase::CheckingDeployed,
            DeployEvent::Deployed(Ok(true)),
        ) == (
            DeployPhase::Done { outcome: Ok(DeployStatus::AlreadyDeployed) },
            DeployAction::Finish(Ok(DeployStatus::AlreadyDeployed)),
        ),
        transition(
            Goal::Fire { force: false },
            delay_secs,
            DeployPhase::CheckingDeployed,
            DeployEvent::Deployed(Ok(true)),
        ).1 == DeployAction::Finish(Ok(DeployStatus::AlreadyDeployed)),
{
}

/// An interlock that is set, or that cannot be read, ends an evaluation with
/// `RemoveBeforeFlight` and a release with `SafetyInterlock`, forced or not,
/// before the hold is looked at: the hold's record and the clock are not
/// read.
pub proof fn law_interlock_blocks(force: bool, delay_secs: u64, interlock: Flag)
    requires
        !is_clear(interlock),
    ensures
        transition(
            Goal::Evaluate,
            delay_secs,
            DeployPhase::CheckingInterlock,
            DeployEvent::Interlock(interlock),
        ).1 == DeployAction::Finish(Ok(DeployStatus::RemoveBeforeFlight)),
        transition(
            Goal::Fire { force },
            delay_secs,
            DeployPhase::CheckingInterlock,
            DeployEvent::Interlock(interlock),
        ).1 == DeployAction::Finish(Err(DeployError::SafetyInterlock)),
        transition(
            Goal::Boot,
            delay_secs,
            DeployPhase::CheckingInterlock,
            DeployEvent::Interlock(interlock),
        ).1 == DeployAction::StartRadio(RadioStep::PowerDuplex),
{
}

/// The interlock blocks release without exception: in a run that is never
/// told that the interlock is clear, whatever its goal and whatever else it
/// is told, no step of the release sequence is commanded.
pub proof fn law_no_release_without_clearance(
    goal: Goal,
    delay_secs: u64,
    phase: DeployPhase,
    events: Seq<DeployEvent>,
)
    requires
        before_clearance(phase),
        forall|i: int| 0 <= i < events.len() ==> events[i] != DeployEvent::Interlock(Ok(false)),
    ensures
        before_clearance(phase_after(goal, delay_secs, phase, events)),
        forall|i: int|
            0 <= i < actions_of(goal, delay_secs, phase, events).len() ==> !(#[trigger] actions_of(
                goal,
                delay_secs,
                phase,
                events,
            )[i] is Release),
    decreases events.len(),
{
    if events.len() > 0 {
        let (next, action) = transition(goal, delay_secs, phase, events[0]);
        let rest = events.drop_first();
        assert(events[0] != DeployEvent::Interlock(Ok(false)));
        assert(before_clearance(next));
        assert(!(action is Release));
        assert forall|i: int| 0 <= i < rest.len() implies rest[i] != DeployEvent::Interlock(
            Ok(false),
        ) by {
            assert(rest[i] == events[i + 1]);
        }
        law_no_release_without_clearance(goal, delay_secs, next, rest);
        let all = actions_of(goal, delay_secs, phase, events);
        let tail = actions_of(goal, delay_secs, next, rest);
        assert forall|i: int| 0 <= i < all.len() implies !(#[trigger] all[i] is Release) by {
            if i > 0 {
                assert(all[i] == tail[i - 1]);
            }
        }
    }
}

/// Every run begins before clearance.
pub proof fn law_runs_begin_before_clearance(goal: Goal)
    ensures
        before_clearance(initial_phase(goal)),
{
}

/// The hold begins once. A run that finds no record of the hold writes the
/// time to the store; a later run that reads that record back writes nothing
/// and waits for what is left of the hold that began then.
pub proof fn law_hold_begins_once(goal: Goal, delay_secs: u64, first: Time, later: Time)
    requires
        first.secs != 0 || first.nanos != 0,
    ensures
        transition(
            goal,
            delay_secs,
            DeployPhase::ReadingClock { start: StartRecord::Unset },
            DeployEvent::Clock(Some(first)),
        ) == (DeployPhase::Persisting { at: first }, DeployAction::PersistStart(first)),
        crate::hold::record_of(Some(crate::hold::text_of_start(first))) == StartRecord::At(first),
        !(transition(
            goal,
            delay_secs,
            DeployPhase::ReadingClock { start: StartRecord::At(first) },
            DeployEvent::Clock(Some(later)),
        ).1 is PersistStart),
        remaining_of(first, later, delay_secs) matches Some(left) ==> transition(
            goal,
            delay_secs,
            DeployPhase::ReadingClock { start: StartRecord::At(first) },
            DeployEvent::Clock(Some(later)),
        ) == (DeployPhase::Holding { left }, DeployAction::Wait(left)),
{
    crate::hold::law_record_roundtrip(first);
}

/// The beginning of the hold, once it is in the store, is never written
/// again: the store is written to only by a run that was told that the store
/// holds no beginning, and with the time that the clock then gave.
pub proof fn law_start_written_only_when_unset(
    goal: Goal,
    delay_secs: u64,
    phase: DeployPhase,
    event: DeployEvent,
)
    requires
        transition(goal, delay_secs, phase, event).1 is PersistStart,
    ensures
        ({
            let at = transition(goal, delay_secs, phase, event).1->PersistStart_0;
            ||| phase == (DeployPhase::ReadingClock { start: StartRecord::Unset }) && event
                == DeployEvent::Clock(Some(at))
            ||| phase == (DeployPhase::Persisting { at }) && !(event is Persisted)
        }),
{
}

/// A hold that could not be recorded, a record that cannot be read and a
/// clock that cannot be read never hold release up: the run goes on as if
/// the hold were over.
pub proof fn law_faults_skip_hold(goal: Goal, delay_secs: u64, start: StartRecord, at: Time)
    ensures
        transition(
            goal,
            delay_secs,
            DeployPhase::Persisting { at },
            DeployEvent::Persisted(Err(PersistenceError)),
        ) == conclude(goal, DeployStatus::Ready),
        transition(
            goal,
            delay_secs,
            DeployPhase::ReadingStart,
            DeployEvent::Start(StartRecord::Corrupt),
        ) == conclude(goal, DeployStatus::Ready),
        transition(goal, delay_secs, DeployPhase::ReadingClock { start }, DeployEvent::Clock(None))
            == conclude(goal, DeployStatus::Ready),
{
}

/// The release sequence runs to its end whatever its steps report: enable,
/// the pause, arm, fire. It succeeds only if all three steps worked, and
/// otherwise tells which did not.
pub proof fn law_release_runs_through(
    force: bool,
    delay_secs: u64,
    enabled: bool,
    armed: bool,
    fired: bool,
)
    ensures
        ({
            let goal = Goal::Fire { force };
            let begin = DeployPhase::Releasing {
                step: FireStep::Enable,
                failures: StepFailures::spec_none(),
            };
            let events = seq![
                DeployEvent::Commanded(enabled),
                DeployEvent::Elapsed,
                DeployEvent::Commanded(armed),
                DeployEvent::Commanded(fired),
            ];
            let failures = StepFailures { enable: !enabled, arm: !armed, fire: !fired };
            actions_of(goal, delay_secs, begin, events) == seq![
                DeployAction::Wait(Time { secs: 0, nanos: RELEASE_PAUSE_NANOS }),
                DeployAction::Release(FireStep::Arm),
                DeployAction::Release(FireStep::Fire),
                DeployAction::Finish(
                    if enabled && armed && fired {
                        Ok(DeployStatus::Ready)
                    } else {
                        Err(DeployError::PartialDeployFailure(failures))
                    },
                ),
            ]
        }),
{
    let goal = Goal::Fire { force };
    let begin = DeployPhase::Releasing {
        step: FireStep::Enable,
        failures: StepFailures::spec_none(),
    };
    let on_enable = DeployEvent::Commanded(enabled);
    let on_pause = DeployEvent::Elapsed;
    let on_arm = DeployEvent::Commanded(armed);
    let on_fire = DeployEvent::Commanded(fired);
    let events = seq![on_enable, on_pause, on_arm, on_fire];
    let enabled_phase = transition(goal, delay_secs, begin, on_enable).0;
    let paused_phase = transition(goal, delay_secs, enabled_phase, on_pause).0;
    let armed_phase = transition(goal, delay_secs, paused_phase, on_arm).0;
    let fired_phase = transition(goal, delay_secs, armed_phase, on_fire).0;
    let after_enable = events.drop_first();
    let after_pause = after_enable.drop_first();
    let after_arm = after_pause.drop_first();
    let after_fire = after_arm.drop_first();
    assert(after_enable == seq![on_pause, on_arm, on_fire]);
    assert(after_pause == seq![on_arm, on_fire]);
    assert(after_arm == seq![on_fire]);
    assert(after_fire == Seq::<DeployEvent>::empty());
    assert(actions_of(goal, delay_secs, fired_phase, after_fire) == Seq::<DeployAction>::empty());
    assert(actions_of(goal, delay_secs, armed_phase, after_arm) == seq![
        transition(goal, delay_secs, armed_phase, on_fire).1,
    ]);
    assert(actions_of(goal, delay_secs, paused_phase, after_pause) == seq![
        transition(goal, delay_secs, paused_phase, on_arm).1,
        transition(goal, delay_secs, armed_phase, on_fire).1,
    ]);
    assert(actions_of(goal, delay_secs, enabled_phase, after_enable) == seq![
        transition(goal, delay_secs, enabled_phase, on_pause).1,
        transition(goal, delay_secs, paused_phase, on_arm).1,
        transition(goal, delay_secs, armed_phase, on_fire).1,
    ]);
    assert(actions_of(goal, delay_secs, begin, events) == seq![
        transition(goal, delay_secs, begin, on_enable).1,
        transition(goal, delay_secs, enabled_phase, on_pause).1,
        transition(goal, delay_secs, paused_phase, on_arm).1,
        transition(goal, delay_secs, armed_phase, on_fire).1,
    ]);
}

/// A run that is over stays over: whatever is reported to it, it gives its
/// outcome again.
pub proof fn law_finished_stays_finished(
    goal: Goal,
    delay_secs: u64,
    outcome: Outcome,
    event: DeployEvent,
)
    ensures
        transition(goal, delay_secs, DeployPhase::Done { outcome }, event) == (
            DeployPhase::Done { outcome },
            DeployAction::Finish(outcome),
        ),
{
}

/// The satellite as a run of the sequencer finds it: what the store holds,
/// what the clock tells, and what becomes of what the run asks for.
#[derive(Clone, Copy, Debug, PartialEq, Eq)]
pub struct Conditions {
    /// The value of `deployed`, or the failure to read it.
    pub deployed: Flag,
    /// The value of `remove_before_flight`, or the failure to read it.
    pub interlock: Flag,
    /// What the store holds as the beginning of the hold.
    pub start: StartRecord,
    /// The time, or `None` where the clock cannot tell it.
    pub now: Option<Time>,
    /// Whether the store takes the beginning of the hold.
    pub store_writable: bool,
    /// Whether enabling the release mechanism works.
    pub enable_works: bool,
    /// Whether arming it works.
    pub arm_works: bool,
    /// Whether firing it works.
    pub fire_works: bool,
}

/// What a faithful driver reports in a phase under given conditions.
pub open spec fn reply_in(phase: DeployPhase, c: Conditions) -> DeployEvent {
    match phase {
        DeployPhase::CheckingDeployed => DeployEvent::Deployed(c.deployed),
        DeployPhase::CheckingInterlock => DeployEvent::Interlock(c.interlock),
        DeployPhase::ReadingStart => DeployEvent::Start(c.start),
        DeployPhase::ReadingClock { .. } => DeployEvent::Clock(c.now),
        DeployPhase::Persisting { .. } => DeployEvent::Persisted(
            if c.store_writable {
                Ok(())
            } else {
                Err(PersistenceError)
            },
        ),
        DeployPhase::Holding { .. } => DeployEvent::Elapsed,
        DeployPhase::Releasing { step, .. } => DeployEvent::Commanded(
            match step {
                FireStep::Enable => c.enable_works,
                FireStep::Arm => c.arm_works,
                FireStep::Fire => c.fire_works,
            },
        ),
        DeployPhase::ReleasePause { .. } => DeployEvent::Elapsed,
        DeployPhase::StartingRadios { .. } => DeployEvent::Commanded(true),
        DeployPhase::Done { .. } => DeployEvent::Elapsed,
    }
}

/// How a run ends that is driven faithfully from a phase on, if it ends
/// within `steps` steps.
pub open spec fn driven(
    goal: Goal,
    delay_secs: u64,
    phase: DeployPhase,
    c: Conditions,
    steps: nat,
) -> Option<Outcome>
    decreases steps,
{
    if steps == 0 {
        None
    } else {
        let (next, action) = transition(goal, delay_secs, phase, reply_in(phase, c));
        match action {
            DeployAction::Finish(outcome) => Some(outcome),
            _ => driven(goal, delay_secs, next, c, (steps - 1) as nat),
        }
    }
}

/// Whether release is cleared for a goal under given conditions: for a
/// forced release by the interlock alone, for any other goal by both flags.
pub open spec fn cleared(goal: Goal, c: Conditions) -> bool {
    if goal == (Goal::Fire { force: true }) {
        is_clear(c.interlock)
    } else {
        status_of_flags(c.deployed, c.interlock) == DeployStatus::Ready
    }
}

/// How a run for a goal ends under given conditions.
///
/// An evaluation ends with the status that the two flags give. A release
/// ends with `SafetyInterlock` where the interlock blocks it, with
/// `AlreadyDeployed` where an earlier deployment makes it needless, and
/// otherwise as its three steps went. The record of the hold, the clock, the
/// delay, and whether the store can be written to make no difference to how
/// a run ends: they decide only how long it waits.
pub open spec fn end_of(goal: Goal, c: Conditions) -> Outcome {
    let failures = StepFailures { enable: !c.enable_works, arm: !c.arm_works, fire: !c.fire_works };
    if goal == Goal::Evaluate {
        Ok(status_of_flags(c.deployed, c.interlock))
    } else if cleared(goal, c) {
        release_outcome(failures)
    } else if goal != (Goal::Fire { force: true }) && is_set(c.deployed) {
        Ok(DeployStatus::AlreadyDeployed)
    } else {
        Err(DeployError::SafetyInterlock)
    }
}

/// Whether a run can be in a phase under given conditions.
pub open spec fn reachable(goal: Goal, phase: DeployPhase, c: Conditions) -> bool {
    match phase {
        DeployPhase::CheckingDeployed => goal != (Goal::Fire { force: true }),
        DeployPhase::CheckingInterlock => goal == (Goal::Fire { force: true }) || !is_set(
            c.deployed,
        ),
        DeployPhase::ReadingStart => goal != (Goal::Fire { force: true }) && cleared(goal, c),
        DeployPhase::ReadingClock { .. } => goal != (Goal::Fire { force: true }) && cleared(
            goal,
            c,
        ),
        DeployPhase::Persisting { .. } => goal != (Goal::Fire { force: true }) && cleared(
            goal,
            c,
        ),
        DeployPhase::Holding { .. } => goal != (Goal::Fire { force: true }) && cleared(goal, c),
        DeployPhase::Releasing { step, failures } => goal != Goal::Evaluate && cleared(goal, c)
            && failures == match step {
            FireStep::Enable => StepFailures::spec_none(),
            FireStep::Arm => StepFailures { enable: !c.enable_works, arm: false, fire: false },
            FireStep::Fire => StepFailures {
                enable: !c.enable_works,
                arm: !c.arm_works,
                fire: false,
            },
        },
        DeployPhase::ReleasePause { failures } => goal != Goal::Evaluate && cleared(goal, c)
            && failures == (StepFailures { enable: !c.enable_works, arm: false, fire: false }),
        DeployPhase::StartingRadios { outcome, .. } => goal == Goal::Boot && outcome == end_of(
            goal,
            c,
        ),
        DeployPhase::Done { outcome } => outcome == end_of(goal, c),
    }
}

/// The most steps that a run still takes from a phase on.
pub open spec fn steps_left(phase: DeployPhase) -> nat {
    match phase {
        DeployPhase::CheckingDeployed => 15,
        DeployPhase::CheckingInterlock => 14,
        DeployPhase::ReadingStart => 13,
        DeployPhase::ReadingClock { .. } => 12,
        DeployPhase::Persisting { .. } => 11,
        DeployPhase::Holding { .. } => 10,
        DeployPhase::Releasing { step: FireStep::Enable, .. } => 9,
        DeployPhase::ReleasePause { .. } => 8,
        DeployPhase::Releasing { step: FireStep::Arm, .. } => 7,
        DeployPhase::Releasing { step: FireStep::Fire, .. } => 6,
        DeployPhase::StartingRadios { stage: RadioStep::PowerDuplex, .. } => 5,
        DeployPhase::StartingRadios { stage: RadioStep::PowerSimplex, .. } => 4,
        DeployPhase::StartingRadios { stage: RadioStep::RouteSimplex, .. } => 3,
        DeployPhase::StartingRadios { stage: RadioStep::PassSimplex, .. } => 2,
        DeployPhase::StartingRadios { stage: RadioStep::StartBeacon, .. } => 1,
        DeployPhase::Done { .. } => 1,
    }
}

/// A run that is driven faithfully from a phase that it can be in ends, and
/// ends as the conditions say.
pub proof fn law_driven_from(
    goal: Goal,
    delay_secs: u64,
    phase: DeployPhase,
    c: Conditions,
    steps: nat,
)
    requires
        reachable(goal, phase, c),
        steps >= steps_left(phase),
    ensures
        driven(goal, delay_secs, phase, c, steps) == Some(end_of(goal, c)),
    decreases steps,
{
    let (next, action) = transition(goal, delay_secs, phase, reply_in(phase, c));
    if !(action is Finish) {
        assert(reachable(goal, next, c));
        assert(steps_left(next) < steps_left(phase));
        law_driven_from(goal, delay_secs, next, c, (steps - 1) as nat);
    }
}

/// Every run that is driven faithfully ends within 15 steps, and how it ends
/// is decided by the two flags of the store and, for a release, by how its
/// steps went. In particular an evaluation of a satellite that has deployed
/// ends with `AlreadyDeployed` whatever else holds, and where the interlock
/// is not read as clear an evaluation of a satellite that has not deployed
/// ends with `RemoveBeforeFlight` and a release with `SafetyInterlock`,
/// whatever the state of the hold.
pub proof fn law_run_ends(goal: Goal, delay_secs: u64, c: Conditions)
    ensures
        driven(goal, delay_secs, initial_phase(goal), c, 15) == Some(end_of(goal, c)),
        is_set(c.deployed) ==> end_of(Goal::Evaluate, c) == Ok::<DeployStatus, DeployError>(
            DeployStatus::AlreadyDeployed,
        ),
        !is_set(c.deployed) && !is_clear(c.interlock) ==> end_of(Goal::Evaluate, c) == Ok::<
            DeployStatus,
            DeployError,
        >(DeployStatus::RemoveBeforeFlight) && end_of(Goal::Fire { force: false }, c) == Err::<
            DeployStatus,
            DeployError,
        >(DeployError::SafetyInterlock),
        !is_clear(c.interlock) ==> end_of(Goal::Fire { force: true }, c) == Err::<
            DeployStatus,
            DeployError,
        >(DeployError::SafetyInterlock),
{
    law_driven_from(goal, delay_secs, initial_phase(goal), c, 15);
}

impl FireStep {
    /// The command that carries out this step.
    pub open spec fn spec_command(self) -> Seq<char> {
        match self {
            FireStep::Enable => "BIM:TINI ENAB"@,
            FireStep::Arm => "BIM:TINI ARM"@,
            FireStep::Fire => "BIM:TINI FIRE,30"@,
        }
    }

    /// The command that carries out this step, for the controller of
    /// [`RELEASE_MODULE`].
    pub fn command(self) -> (text: &'static str)
        ensures
            text@ == self.spec_command(),
    {
        match self {
            FireStep::Enable => "BIM:TINI ENAB",
            FireStep::Arm => "BIM:TINI ARM",
            FireStep::Fire => "BIM:TINI FIRE,30",
        }
    }
}

impl RadioStep {
    /// The module and the command that carry out this step, where it is a
    /// command to a module's controller.
    pub open spec fn spec_passthrough(self) -> Option<(Seq<char>, Seq<char>)> {
        match self {
            RadioStep::PowerDuplex => Some(("bim"@, "BIM:UART:POW 2,ON"@)),
            RadioStep::PowerSimplex => Some(("rhm"@, "RHM:GS:POW ON"@)),
            RadioStep::RouteSimplex => Some(("rhm"@, "RHM:GS:COMM UART4"@)),
            RadioStep::PassSimplex => Some(("rhm"@, "RHM:GS:PASS ON"@)),
            RadioStep::StartBeacon => None,
        }
    }

    /// The module and the command that carry out this step. Starting the
    /// beacon is no command to a module: it has none.
    pub fn passthrough(self) -> (target: Option<(&'static str, &'static str)>)
        ensures
            match target {
                Some((module, command)) => self.spec_passthrough() == Some((module@, command@)),
                None => self.spec_passthrough().is_none(),
            },
    {
        match self {
            RadioStep::PowerDuplex => Some(("bim", "BIM:UART:POW 2,ON")),
            RadioStep::PowerSimplex => Some(("rhm", "RHM:GS:POW ON")),
            RadioStep::RouteSimplex => Some(("rhm", "RHM:GS:COMM UART4")),
            RadioStep::PassSimplex => Some(("rhm", "RHM:GS:PASS ON")),
            RadioStep::StartBeacon => None,
        }
    }

    /// The step that follows this one, if any.
    pub fn next(self) -> (step: Option<RadioStep>)
        ensures
            step == radio_step_after(self),
    {
        match self {
            RadioStep::PowerDuplex => Some(RadioStep::PowerSimplex),
            RadioStep::PowerSimplex => Some(RadioStep::RouteSimplex),
            RadioStep::RouteSimplex => Some(RadioStep::PassSimplex),
            RadioStep::PassSimplex => Some(RadioStep::StartBeacon),
            RadioStep::StartBeacon => None,
        }
    }
}

/// A run of the deployment sequencer.
#[derive(Clone, Copy, Debug, PartialEq, Eq)]
pub struct Sequencer {
    /// What the run is for.
    pub goal: Goal,
    /// The configured hold, in seconds.
    pub delay_secs: u64,
    /// Where the run stands.
    pub phase: DeployPhase,
}

impl Sequencer {
    /// A run for a goal, with the configured hold in seconds.
    pub fn new(goal: Goal, delay_secs: u64) -> (run: Sequencer)
        ensures
            run == (Sequencer { goal, delay_secs, phase: initial_phase(goal) }),
    {
        let phase = match goal {
            Goal::Fire { force: true } => DeployPhase::CheckingInterlock,
            _ => DeployPhase::CheckingDeployed,
        };
        Sequencer { goal, delay_secs, phase }
    }

    /// The outcome, once the run is over.
    pub fn outcome(&self) -> (outcome: Option<Outcome>)
        ensures
            outcome == match self.phase {
                DeployPhase::Done { outcome } => Some(outcome),
                _ => None,
            },
    {
        match self.phase {
            DeployPhase::Done { outcome } => Some(outcome),
            _ => None,
        }
    }

    /// The action that the run waits on.
    pub fn pending(&self) -> (action: DeployAction)
        ensures
            action == awaited(self.phase),
    {
        match self.phase {
            DeployPhase::CheckingDeployed => DeployAction::ReadDeployed,
            DeployPhase::CheckingInterlock => DeployAction::ReadInterlock,
            DeployPhase::ReadingStart => DeployAction::ReadStart,
            DeployPhase::ReadingClock { .. } => DeployAction::ReadClock,
            DeployPhase::Persisting { at } => DeployAction::PersistStart(at),
            DeployPhase::Holding { left } => DeployAction::Wait(left),
            DeployPhase::Releasing { step, .. } => DeployAction::Release(step),
            DeployPhase::ReleasePause { .. } => DeployAction::Wait(
                Time { secs: 0, nanos: RELEASE_PAUSE_NANOS },
            ),
            DeployPhase::StartingRadios { stage, .. } => DeployAction::StartRadio(stage),
            DeployPhase::Done { outcome } => DeployAction::Finish(outcome),
        }
    }

    fn settle(&self, outcome: Outcome) -> (next: (DeployPhase, DeployAction))
        ensures
            next == after_release(self.goal, outcome),
    {
        match self.goal {
            Goal::Boot => (
                DeployPhase::StartingRadios { stage: RadioStep::PowerDuplex, outcome },
                DeployAction::StartRadio(RadioStep::PowerDuplex),
            ),
            _ => (DeployPhase::Done { outcome }, DeployAction::Finish(outcome)),
        }
    }

    fn conclude(&self, status: DeployStatus) -> (next: (DeployPhase, DeployAction))
        ensures
            next == conclude(self.goal, status),
    {
        match self.goal {
            Goal::Evaluate => (
                DeployPhase::Done { outcome: Ok(status) },
                DeployAction::Finish(Ok(status)),
            ),
            _ => match status {
                DeployStatus::Ready => (
                    DeployPhase::Releasing {
                        step: FireStep::Enable,
                        failures: StepFailures::none(),
                    },
                    DeployAction::Release(FireStep::Enable),
                ),
                DeployStatus::RemoveBeforeFlight => self.settle(Err(DeployError::SafetyInterlock)),
                DeployStatus::AlreadyDeployed => self.settle(Ok(DeployStatus::AlreadyDeployed)),
            },
        }
    }

    fn is_forced(&self) -> (forced: bool)
        ensures
            forced == (self.goal == (Goal::Fire { force: true })),
    {
        match self.goal {
            Goal::Fire { force } => force,
            _ => false,
        }
    }

    /// Takes the result of the last action and returns the next one.
    pub fn step(&mut self, event: DeployEvent) -> (next: DeployAction)
        ensures
            (final(self).phase, next) == transition(
                old(self).goal,
                old(self).delay_secs,
                old(self).phase,
                event,
            ),
            final(self).goal == old(self).goal,
            final(self).delay_secs == old(self).delay_secs,
    {
        let (phase, next) = match (self.phase, event) {
            (DeployPhase::CheckingDeployed, DeployEvent::Deployed(deployed)) => {
                match deployed {
                    Ok(true) => self.conclude(DeployStatus::AlreadyDeployed),
                    _ => (DeployPhase::CheckingInterlock, DeployAction::ReadInterlock),
                }
            },
            (DeployPhase::CheckingInterlock, DeployEvent::Interlock(interlock)) => {
                match interlock {
                    Ok(false) => if self.is_forced() {
                        self.conclude(DeployStatus::Ready)
                    } else {
                        (DeployPhase::ReadingStart, DeployAction::ReadStart)
                    },
                    _ => self.conclude(DeployStatus::RemoveBeforeFlight),
                }
            },
            (DeployPhase::ReadingStart, DeployEvent::Start(start)) => {
                match start {
                    StartRecord::Corrupt => self.conclude(DeployStatus::Ready),
                    _ => (DeployPhase::ReadingClock { start }, DeployAction::ReadClock),
                }
            },
            (DeployPhase::ReadingClock { start }, DeployEvent::Clock(now)) => {
                match (start, now) {
                    (StartRecord::Unset, Some(at)) => (
                        DeployPhase::Persisting { at },
                        DeployAction::PersistStart(at),
                    ),
                    (StartRecord::At(began), Some(at)) => {
                        match remaining_hold(began, at, self.delay_secs) {
                            Some(left) => (DeployPhase::Holding { left }, DeployAction::Wait(left)),
                            None => self.conclude(DeployStatus::Ready),
                        }
                    },
                    _ => self.conclude(DeployStatus::Ready),
                }
            },
            (DeployPhase::Persisting { .. }, DeployEvent::Persisted(written)) => {
                if written.is_ok() && self.delay_secs > 0 {
                    let left = Time { secs: self.delay_secs, nanos: 0 };
                    (DeployPhase::Holding { left }, DeployAction::Wait(left))
                } else {
                    self.conclude(DeployStatus::Ready)
                }
            },
            (DeployPhase::Holding { .. }, DeployEvent::Elapsed) => self.conclude(
                DeployStatus::Ready,
            ),
            (DeployPhase::Releasing { step, failures }, DeployEvent::Commanded(ok)) => {
                let failures = failures.with(step, ok);
                match step {
                    FireStep::Enable => (
                        DeployPhase::ReleasePause { failures },
                        DeployAction::Wait(Time { secs: 0, nanos: RELEASE_PAUSE_NANOS }),
                    ),
                    FireStep::Arm => (
                        DeployPhase::Releasing { step: FireStep::Fire, failures },
                        DeployAction::Release(FireStep::Fire),
                    ),
                    FireStep::Fire => {
                        let outcome = if failures.any() {
                            Err(DeployError::PartialDeployFailure(failures))
                        } else {
                            Ok(DeployStatus::Ready)
                        };
                        self.settle(outcome)
                    },
                }
            },
            (DeployPhase::ReleasePause { failures }, DeployEvent::Elapsed) => (
                DeployPhase::Releasing { step: FireStep::Arm, failures },
                DeployAction::Release(FireStep::Arm),
            ),
            (DeployPhase::StartingRadios { stage, outcome }, DeployEvent::Commanded(_)) => {
                match stage.next() {
                    Some(next) => (
                        DeployPhase::StartingRadios { stage: next, outcome },
                        DeployAction::StartRadio(next),
                    ),
                    None => (DeployPhase::Done { outcome }, DeployAction::Finish(outcome)),
                }
            },
            _ => (self.phase, self.pending()),
        };
        self.phase = phase;
        next
    }
}

/// Begins the release of the panels: the run that evaluates the deployment
/// status, unless forced, and on `Ready` commands the release sequence.
pub fn try_deploy(force: bool, delay_secs: u64) -> (run: Sequencer)
    ensures
        run == (Sequencer {
            goal: Goal::Fire { force },
            delay_secs,
            phase: initial_phase(Goal::Fire { force }),
        }),
{
    Sequencer::new(Goal::Fire { force }, delay_secs)
}

/// Begins the boot-time deployment: the run that releases the panels as
/// [`try_deploy`] does without force, and then brings up the radios.
pub fn deploy(delay_secs: u64) -> (run: Sequencer)
    ensures
        run == (Sequencer { goal: Goal::Boot, delay_secs, phase: DeployPhase::CheckingDeployed }),
{
    Sequencer::new(Goal::Boot, delay_secs)
}

/// Begins an evaluation: the run that finds the deployment status and waits
/// out the hold.
pub fn check_deploy(delay_secs: u64) -> (run: Sequencer)
    ensures
        run == (Sequencer {
            goal: Goal::Evaluate,
            delay_secs,
            phase: DeployPhase::CheckingDeployed,
        }),
{
    Sequencer::new(Goal::Evaluate, delay_secs)
}

} // verus!
