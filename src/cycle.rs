use vstd::prelude::*;
use vstd::utf8::encode_utf8;
use crate::activation::{
    activation_requests, lemma_restart_only_on_change, plan_activation, plan_of, requests_of,
    run_restarts, unit_order, ServiceRequest, UnitKind,
};
use crate::commands::{
    batch_advance, failure_of, succeeded, BatchStep, CommandBatch, CommandError, CommandOutcome,
};
use crate::config::Config;
use crate::fingerprint::{bytes_equal, fingerprint, sha256_of};
use crate::install::{install_outcome, install_outcome_of, needs_write, InstallOutcome};
use crate::units::{
    generate_units, run_unit_text, timer_unit_text, update_unit_text, EnvironmentFacts, UnitSet,
};

verus! {

/// The steps of one update cycle.
#[derive(Clone, Copy, Debug, PartialEq, Eq, Structural)]
pub enum Phase {
    Idle,
    LockAcquiring,
    Updating,
    /// Waiting for the executable's content after the update commands. The
    /// step that receives it compares fingerprints and renders the units,
    /// so there is no separate generating phase.
    Detecting,
    Installing,
    Activating,
    Done,
    Failed,
}

/// Why an update cycle failed.
#[derive(Debug)]
pub enum UpdateError {
    /// Another update of the same program holds the lock.
    ConcurrentUpdate,
    /// An update command did not succeed.
    Command(CommandError),
    /// Reading or writing a file failed during this phase.
    Io(Phase),
    /// The service manager refused or could not be reached for this request.
    ServiceManager(ServiceRequest),
}

/// What the driver of a cycle does next, then reports back.
#[derive(Debug)]
pub enum Action {
    /// Try to take the program's lock without waiting.
    AcquireLock,
    /// Read the watched executable's content.
    ReadWatched,
    /// Run this shell command.
    RunCommand(String),
    /// Read the installed file of this unit, if there is one.
    ReadUnit(UnitKind),
    /// Replace the file of this unit with this content, atomically.
    WriteUnit(UnitKind, String),
    /// Send this request to the service manager.
    Request(ServiceRequest),
    /// The cycle is over: release the lock if asked, and report the error.
    Finish { release_lock: bool, error: Option<UpdateError> },
}

pub open spec fn is_terminal(p: Phase) -> bool {
    p == Phase::Done || p == Phase::Failed
}

/// The phases during which the cycle holds the lock.
pub open spec fn is_locked_phase(p: Phase) -> bool {
    p == Phase::Updating || p == Phase::Detecting || p == Phase::Installing || p == Phase::Activating
}

/// The outcome of one update cycle, driven by the outcomes of the actions
/// it asks for.
pub struct UpdateCycle {
    config: Config,
    env: EnvironmentFacts,
    phase: Phase,
    failed_at: Phase,
    lock_held: bool,
    batch: CommandBatch,
    before: Option<Vec<u8>>,
    changed: bool,
    units: UnitSet,
    outcomes: Vec<InstallOutcome>,
    write_pending: bool,
    requests: Vec<ServiceRequest>,
    issued: usize,
}

impl UpdateCycle {
    pub closed spec fn phase(&self) -> Phase {
        self.phase
    }

    /// The phase in which a failed cycle stopped.
    pub closed spec fn failed_at(&self) -> Phase {
        self.failed_at
    }

    pub closed spec fn lock_held(&self) -> bool {
        self.lock_held
    }

    pub closed spec fn config(&self) -> Config {
        self.config
    }

    pub closed spec fn env(&self) -> EnvironmentFacts {
        self.env
    }

    pub closed spec fn batch(&self) -> CommandBatch {
        self.batch
    }

    /// The fingerprint taken before the update commands.
    pub closed spec fn before(&self) -> Option<Seq<u8>> {
        match self.before {
            Some(d) => Some(d@),
            None => None,
        }
    }

    /// Whether the watched executable changed during the update.
    pub closed spec fn changed(&self) -> bool {
        self.changed
    }

    /// The install outcomes so far, in the order of `unit_order`.
    pub closed spec fn outcomes(&self) -> Seq<InstallOutcome> {
        self.outcomes@
    }

    /// A unit file is being written.
    pub closed spec fn write_pending(&self) -> bool {
        self.write_pending
    }

    pub closed spec fn requests(&self) -> Seq<ServiceRequest> {
        self.requests@
    }

    /// How many of the requests were sent.
    pub closed spec fn issued(&self) -> nat {
        self.issued as nat
    }

    /// The text of a unit, rendered from the configuration and environment.
    pub open spec fn unit_text(&self, k: UnitKind) -> Seq<char> {
        let c = self.config();
        let e = self.env();
        match k {
            UnitKind::UpdateService => update_unit_text(
                c.program_name@,
                e.executable@,
                e.working_dir@,
                e.config_path@,
            ),
            UnitKind::UpdateTimer => timer_unit_text(c.program_name@, c.update.interval as nat),
            UnitKind::RunService => run_unit_text(
                c.program_name@,
                e.executable@,
                e.working_dir@,
                e.config_path@,
            ),
        }
    }

    /// The install outcome of the unit that is read next, given what its
    /// file holds.
    pub open spec fn outcome_for(&self, existing: Option<Seq<u8>>) -> InstallOutcome {
        install_outcome_of(existing, encode_utf8(self.unit_text(unit_order()[self.outcomes().len() as int])))
    }

    pub open spec fn wf(&self) -> bool {
        &&& self.inv(true)
        &&& self.phase() == Phase::Activating ==> 1 <= self.issued() <= self.requests().len()
    }

    /// The invariant; `counted` says whether it also bounds the count of
    /// install outcomes, which one step breaks for a moment.
    pub closed spec fn inv(&self, counted: bool) -> bool {
        &&& (self.phase == Phase::Idle || self.phase == Phase::LockAcquiring || is_terminal(self.phase))
            ==> !self.lock_held
        &&& is_locked_phase(self.phase) ==> self.lock_held
        &&& self.batch.wf()
        &&& self.batch.commands() == self.config.update.commands@
        &&& (self.phase == Phase::Idle || self.phase == Phase::LockAcquiring) ==> {
            &&& self.before is None
            &&& self.batch.state() == (0nat, None::<nat>)
        }
        &&& self.phase == Phase::Updating ==> (if self.before is None {
            self.batch.state() == (0nat, None::<nat>)
        } else {
            self.batch.state().1 is None
        })
        &&& self.phase == Phase::Detecting ==> self.before is Some
        &&& (self.phase == Phase::Installing || self.phase == Phase::Activating) ==> {
            &&& self.units.update_service@ == self.unit_text(UnitKind::UpdateService)
            &&& self.units.update_timer@ == self.unit_text(UnitKind::UpdateTimer)
            &&& self.units.run_service@ == self.unit_text(UnitKind::RunService)
        }
        &&& self.phase == Phase::Activating ==> 1 <= self.issued <= self.requests@.len()
        &&& (counted && self.phase == Phase::Installing) ==> self.installing_count_ok()
    }

    closed spec fn installing_count_ok(&self) -> bool {
        if self.write_pending {
            1 <= self.outcomes@.len() <= 3
        } else {
            self.outcomes@.len() < 3
        }
    }


    /// Whether a step from `self` to `next` that returned `r` ends the
    /// cycle correctly: a cycle that ends says so and releases the lock
    /// exactly when it held it, and holds it no longer.
    pub open spec fn exits_cleanly(&self, next: &UpdateCycle, r: &Action) -> bool {
        is_terminal(next.phase()) ==> {
            &&& (r matches Action::Finish { release_lock, .. } && release_lock == self.lock_held())
            &&& !next.lock_held()
        }
    }

    /// A cycle that has not started.
    pub fn new(config: Config, env: EnvironmentFacts) -> (r: UpdateCycle)
        ensures
            r.wf(),
            r.phase() == Phase::Idle,
            r.config() == config,
            r.env() == env,
            r.batch().commands() == config.update.commands@,
            r.batch().state() == (0nat, None::<nat>),
            !r.lock_held(),
    {
        let batch = CommandBatch::new(config.update.commands.clone());
        UpdateCycle {
            config,
            env,
            phase: Phase::Idle,
            failed_at: Phase::Idle,
            lock_held: false,
            batch,
            before: None,
            changed: false,
            units: UnitSet { update_service: String::new(), update_timer: String::new(), run_service: String::new() },
            outcomes: Vec::new(),
            write_pending: false,
            requests: Vec::new(),
            issued: 0,
        }
    }
}

impl UpdateCycle {
    /// Starts the cycle by asking for the lock.
    pub fn start(&mut self) -> (r: Action)
        requires
            old(self).wf(),
            old(self).phase() == Phase::Idle,
        ensures
            final(self).wf(),
            final(self).phase() == Phase::LockAcquiring,
            final(self).config() == old(self).config(),
            final(self).env() == old(self).env(),
            final(self).batch() == old(self).batch(),
            r is AcquireLock,
    {
        self.phase = Phase::LockAcquiring;
        Action::AcquireLock
    }

    /// Reports whether the lock was taken. A lock that another update holds
    /// ends the cycle at once, with no retry.
    pub fn lock_result(&mut self, acquired: bool) -> (r: Action)
        requires
            old(self).wf(),
            old(self).phase() == Phase::LockAcquiring,
        ensures
            final(self).wf(),
            old(self).exits_cleanly(final(self), &r),
            final(self).config() == old(self).config(),
            final(self).env() == old(self).env(),
            final(self).batch() == old(self).batch(),
            acquired ==> (final(self).phase() == Phase::Updating && final(self).lock_held()
                && final(self).before() is None && r is ReadWatched),
            !acquired ==> (r matches Action::Finish { release_lock: false, error: Some(UpdateError::ConcurrentUpdate) }
                && final(self).phase() == Phase::Failed
                && final(self).failed_at() == Phase::LockAcquiring),
    {
        if acquired {
            self.lock_held = true;
            self.phase = Phase::Updating;
            Action::ReadWatched
        } else {
            self.phase = Phase::Failed;
            self.failed_at = Phase::LockAcquiring;
            Action::Finish { release_lock: false, error: Some(UpdateError::ConcurrentUpdate) }
        }
    }

    /// Asks for the next update command, or moves on to change detection
    /// once all of them succeeded.
    fn after_command(&mut self) -> (r: Action)
        requires
            old(self).wf(),
            old(self).phase() == Phase::Updating,
            old(self).before() is Some,
            old(self).batch().state().1 is None,
            old(self).batch().state().0 <= old(self).batch().total(),
        ensures
            final(self).wf(),
            final(self).config() == old(self).config(),
            final(self).env() == old(self).env(),
            final(self).batch() == old(self).batch(),
            final(self).before() == old(self).before(),
            old(self).batch().is_running() ==> (r matches Action::RunCommand(c)
                && c@ == old(self).batch().commands()[old(self).batch().state().0 as int]@
                && final(self).phase() == Phase::Updating),
            !old(self).batch().is_running() ==> (final(self).phase() == Phase::Detecting
                && r is ReadWatched),
    {
        match self.batch.next_step() {
            BatchStep::Execute { index: _, command } => Action::RunCommand(command),
            _ => {
                self.phase = Phase::Detecting;
                Action::ReadWatched
            },
        }
    }

    /// Reports the watched executable's content: before the update
    /// commands it is fingerprinted; after them it is compared with that
    /// fingerprint, and the units are rendered.
    pub fn watched_read(&mut self, content: &[u8]) -> (r: Action)
        requires
            old(self).wf(),
            (old(self).phase() == Phase::Updating && old(self).before() is None)
                || old(self).phase() == Phase::Detecting,
        ensures
            final(self).wf(),
            old(self).exits_cleanly(final(self), &r),
            final(self).config() == old(self).config(),
            final(self).env() == old(self).env(),
            old(self).phase() == Phase::Updating ==> {
                &&& final(self).before() == Some(sha256_of(content@))
                &&& final(self).batch() == old(self).batch()
                &&& old(self).config().update.commands@.len() > 0 ==> (r matches Action::RunCommand(c)
                    && c@ == old(self).config().update.commands@[0]@
                    && final(self).phase() == Phase::Updating)
                &&& old(self).config().update.commands@.len() == 0 ==> (final(self).phase() == Phase::Detecting
                    && r is ReadWatched)
            },
            old(self).phase() == Phase::Detecting ==> {
                &&& final(self).phase() == Phase::Installing
                &&& final(self).changed() == (old(self).before() != Some(sha256_of(content@)))
                &&& final(self).outcomes() == Seq::<InstallOutcome>::empty()
                &&& !final(self).write_pending()
                &&& r == Action::ReadUnit(UnitKind::UpdateService)
            },
    {
        let digest = fingerprint(content);
        if self.phase == Phase::Updating {
            self.before = Some(digest);
            self.after_command()
        } else {
            let same = match &self.before {
                Some(b) => bytes_equal(b.as_slice(), digest.as_slice()),
                None => false,
            };
            self.changed = !same;
            self.units = generate_units(&self.config, &self.env);
            self.outcomes = Vec::new();
            self.write_pending = false;
            self.phase = Phase::Installing;
            Action::ReadUnit(UnitKind::UpdateService)
        }
    }

    /// Reports how the running update command ended. The first command
    /// that does not succeed ends the cycle.
    pub fn command_done(&mut self, outcome: CommandOutcome) -> (r: Action)
        requires
            old(self).wf(),
            old(self).phase() == Phase::Updating,
            old(self).before() is Some,
            old(self).batch().is_running(),
        ensures
            final(self).wf(),
            old(self).exits_cleanly(final(self), &r),
            final(self).config() == old(self).config(),
            final(self).env() == old(self).env(),
            final(self).batch().commands() == old(self).batch().commands(),
            final(self).batch().state() == batch_advance(
                old(self).batch().total(),
                old(self).batch().state(),
                succeeded(outcome),
            ),
            !succeeded(outcome) ==> (r matches Action::Finish { release_lock: true, error: Some(UpdateError::Command(e)) }
                && e.index == old(self).batch().state().0
                && e.kind == failure_of(outcome)
                && e.command@ == old(self).config().update.commands@[e.index as int]@
                && final(self).phase() == Phase::Failed
                && final(self).failed_at() == Phase::Updating),
            succeeded(outcome) ==> {
                &&& final(self).before() == old(self).before()
                &&& final(self).batch().is_running() ==> (r matches Action::RunCommand(c)
                    && c@ == old(self).config().update.commands@[final(self).batch().state().0 as int]@
                    && final(self).phase() == Phase::Updating)
                &&& !final(self).batch().is_running() ==> (final(self).phase() == Phase::Detecting
                    && r is ReadWatched)
            },
    {
        self.batch.record(outcome);
        match self.batch.next_step() {
            BatchStep::Stopped(e) => {
                self.phase = Phase::Failed;
                self.failed_at = Phase::Updating;
                self.lock_held = false;
                Action::Finish { release_lock: true, error: Some(UpdateError::Command(e)) }
            },
            BatchStep::Execute { index: _, command } => Action::RunCommand(command),
            BatchStep::Completed => {
                self.phase = Phase::Detecting;
                Action::ReadWatched
            },
        }
    }
}


impl UpdateCycle {
    fn unit_content(&self, k: UnitKind) -> (r: &String)
        requires
            self.wf(),
            self.phase() == Phase::Installing,
        ensures
            r@ == self.unit_text(k),
    {
        match k {
            UnitKind::UpdateService => &self.units.update_service,
            UnitKind::UpdateTimer => &self.units.update_timer,
            UnitKind::RunService => &self.units.run_service,
        }
    }

    fn unit_at(i: usize) -> (k: UnitKind)
        requires
            i < 3,
        ensures
            k == unit_order()[i as int],
    {
        if i == 0 {
            UnitKind::UpdateService
        } else if i == 1 {
            UnitKind::UpdateTimer
        } else {
            UnitKind::RunService
        }
    }

    /// Moves to the next unit once the current one is installed, or to
    /// activation after the last.
    fn after_install(&mut self) -> (r: Action)
        requires
            old(self).inv(false),
            old(self).phase() == Phase::Installing,
            !old(self).write_pending(),
            old(self).outcomes().len() <= 3,
        ensures
            final(self).wf(),
            final(self).config() == old(self).config(),
            final(self).env() == old(self).env(),
            final(self).outcomes() == old(self).outcomes(),
            final(self).changed() == old(self).changed(),
            !final(self).write_pending(),
            old(self).outcomes().len() < 3 ==> (final(self).phase() == Phase::Installing
                && r == Action::ReadUnit(unit_order()[old(self).outcomes().len() as int])),
            old(self).outcomes().len() == 3 ==> {
                let o = old(self).outcomes();
                &&& final(self).phase() == Phase::Activating
                &&& final(self).requests() == requests_of(plan_of(o[0], o[1], o[2], old(self).changed()))
                &&& final(self).issued() == 1
                &&& r == Action::Request(final(self).requests()[0])
            },
    {
        let n = self.outcomes.len();
        if n < 3 {
            Action::ReadUnit(Self::unit_at(n))
        } else {
            let plan = plan_activation(self.outcomes[0], self.outcomes[1], self.outcomes[2], self.changed);
            self.requests = activation_requests(plan);
            let first = self.requests[0];
            self.issued = 1;
            self.phase = Phase::Activating;
            Action::Request(first)
        }
    }

    /// Reports what the file of the unit being installed holds (`None`
    /// when there is none). It is written only when its bytes differ from
    /// the rendered text.
    pub fn unit_read(&mut self, existing: Option<Vec<u8>>) -> (r: Action)
        requires
            old(self).wf(),
            old(self).phase() == Phase::Installing,
            !old(self).write_pending(),
        ensures
            final(self).wf(),
            old(self).exits_cleanly(final(self), &r),
            final(self).config() == old(self).config(),
            final(self).env() == old(self).env(),
            final(self).changed() == old(self).changed(),
            ({
                let o = old(self).outcome_for(match existing { Some(e) => Some(e@), None => None });
                let k = unit_order()[old(self).outcomes().len() as int];
                let n = old(self).outcomes().len() + 1;
                &&& final(self).outcomes() == old(self).outcomes().push(o)
                &&& needs_write(o) ==> (r matches Action::WriteUnit(u, t)
                    && u == k && t@ == old(self).unit_text(k)
                    && final(self).phase() == Phase::Installing && final(self).write_pending())
                &&& !needs_write(o) ==> !final(self).write_pending()
                &&& (!needs_write(o) && n < 3) ==> (final(self).phase() == Phase::Installing
                    && r == Action::ReadUnit(unit_order()[n as int]))
                &&& (!needs_write(o) && n == 3) ==> {
                    let os = old(self).outcomes().push(o);
                    &&& final(self).phase() == Phase::Activating
                    &&& final(self).requests() == requests_of(plan_of(os[0], os[1], os[2], old(self).changed()))
                    &&& final(self).issued() == 1
                    &&& r == Action::Request(final(self).requests()[0])
                }
            }),
    {
        let k = Self::unit_at(self.outcomes.len());
        let text = self.unit_content(k);
        let bytes = text.as_str().as_bytes();
        let o = install_outcome(&existing, bytes);
        let write = !matches!(o, InstallOutcome::Unchanged);
        let content = if write { text.clone() } else { String::new() };
        self.outcomes.push(o);
        if write {
            self.write_pending = true;
            Action::WriteUnit(k, content)
        } else {
            self.after_install()
        }
    }

    /// Reports that the unit file was written.
    pub fn unit_written(&mut self) -> (r: Action)
        requires
            old(self).wf(),
            old(self).phase() == Phase::Installing,
            old(self).write_pending(),
        ensures
            final(self).wf(),
            old(self).exits_cleanly(final(self), &r),
            final(self).config() == old(self).config(),
            final(self).env() == old(self).env(),
            final(self).changed() == old(self).changed(),
            final(self).outcomes() == old(self).outcomes(),
            !final(self).write_pending(),
            old(self).outcomes().len() < 3 ==> (final(self).phase() == Phase::Installing
                && r == Action::ReadUnit(unit_order()[old(self).outcomes().len() as int])),
            old(self).outcomes().len() == 3 ==> {
                let o = old(self).outcomes();
                &&& final(self).phase() == Phase::Activating
                &&& final(self).requests() == requests_of(plan_of(o[0], o[1], o[2], old(self).changed()))
                &&& final(self).issued() == 1
                &&& r == Action::Request(final(self).requests()[0])
            },
    {
        self.write_pending = false;
        self.after_install()
    }

    /// Reports whether the service manager carried out the last request.
    /// After the last request the cycle is done.
    pub fn request_done(&mut self, ok: bool) -> (r: Action)
        requires
            old(self).wf(),
            old(self).phase() == Phase::Activating,
        ensures
            final(self).wf(),
            old(self).exits_cleanly(final(self), &r),
            final(self).config() == old(self).config(),
            final(self).env() == old(self).env(),
            final(self).changed() == old(self).changed(),
            final(self).requests() == old(self).requests(),
            !ok ==> (r matches Action::Finish { release_lock: true, error: Some(UpdateError::ServiceManager(q)) }
                && q == old(self).requests()[old(self).issued() - 1]
                && final(self).phase() == Phase::Failed
                && final(self).failed_at() == Phase::Activating),
            (ok && old(self).issued() < old(self).requests().len()) ==> (final(self).phase() == Phase::Activating
                && final(self).issued() == old(self).issued() + 1
                && r == Action::Request(old(self).requests()[old(self).issued() as int])),
            (ok && old(self).issued() == old(self).requests().len()) ==> (final(self).phase() == Phase::Done
                && r matches Action::Finish { release_lock: true, error: None }),
    {
        if !ok {
            let q = self.requests[self.issued - 1];
            self.phase = Phase::Failed;
            self.failed_at = Phase::Activating;
            self.lock_held = false;
            Action::Finish { release_lock: true, error: Some(UpdateError::ServiceManager(q)) }
        } else if self.issued < self.requests.len() {
            let q = self.requests[self.issued];
            self.issued = self.issued + 1;
            Action::Request(q)
        } else {
            self.phase = Phase::Done;
            self.lock_held = false;
            Action::Finish { release_lock: true, error: None }
        }
    }

    /// Reports that reading or writing a file failed: the cycle stops in
    /// the phase it was in, and releases the lock.
    pub fn io_failed(&mut self) -> (r: Action)
        requires
            old(self).wf(),
            is_locked_phase(old(self).phase()),
        ensures
            final(self).wf(),
            old(self).exits_cleanly(final(self), &r),
            final(self).phase() == Phase::Failed,
            final(self).failed_at() == old(self).phase(),
            r matches Action::Finish { release_lock: true, error: Some(UpdateError::Io(p)) }
                && p == old(self).phase(),
    {
        let p = self.phase;
        self.phase = Phase::Failed;
        self.failed_at = p;
        self.lock_held = false;
        Action::Finish { release_lock: true, error: Some(UpdateError::Io(p)) }
    }

    /// The current phase.
    pub fn current_phase(&self) -> (r: Phase)
        ensures
            r == self.phase(),
    {
        self.phase
    }

    /// The phase in which a failed cycle stopped.
    pub fn failed_phase(&self) -> (r: Option<Phase>)
        ensures
            r == (if self.phase() == Phase::Failed { Some(self.failed_at()) } else { None }),
    {
        if self.phase == Phase::Failed {
            Some(self.failed_at)
        } else {
            None
        }
    }

    /// Whether the cycle holds the lock.
    pub fn holds_lock(&self) -> (r: bool)
        ensures
            r == self.lock_held(),
    {
        self.lock_held
    }

    /// Whether the watched executable changed during the update.
    pub fn binary_changed(&self) -> (r: bool)
        ensures
            r == self.changed(),
    {
        self.changed
    }
}


/// A cycle that has ended, whether done or failed, holds no lock.
pub proof fn lemma_ended_cycle_holds_no_lock(c: UpdateCycle)
    requires
        c.wf(),
        is_terminal(c.phase()),
    ensures
        !c.lock_held(),
{
}


/// When the watched executable holds the same bytes before and after the
/// update commands, the cycle sees no change, and with the run unit's file
/// left as it was the run service is not restarted.
pub proof fn lemma_same_bytes_no_restart(
    before: Seq<u8>,
    after: Seq<u8>,
    update_service: InstallOutcome,
    update_timer: InstallOutcome,
)
    requires
        before == after,
    ensures
        run_restarts(
            requests_of(
                plan_of(
                    update_service,
                    update_timer,
                    InstallOutcome::Unchanged,
                    Some(sha256_of(before)) != Some(sha256_of(after)),
                ),
            ),
        ) == 0,
{
    lemma_restart_only_on_change(update_service, update_timer, false);
}

} // verus!
