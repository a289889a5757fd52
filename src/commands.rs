use vstd::prelude::*;

verus! {

/// How one shell command ended.
#[derive(Clone, Copy, Debug, PartialEq, Eq, Structural)]
pub enum CommandOutcome {
    /// The shell exited with this status code.
    Exited(i32),
    /// The shell was ended by a signal, with no status code.
    Signalled,
    /// The shell could not be started.
    SpawnFailed,
}

/// Why a command batch stopped.
#[derive(Clone, Copy, Debug, PartialEq, Eq, Structural)]
pub enum FailureKind {
    /// The command exited with a non-zero status.
    ExitStatus(i32),
    /// The command was ended by a signal.
    Signalled,
    /// The shell could not be started for the command.
    Spawn,
}

/// The first command of a batch that did not succeed.
#[derive(Debug)]
pub struct CommandError {
    /// Position of the command in its batch, from 0.
    pub index: usize,
    /// The command's text.
    pub command: String,
    pub kind: FailureKind,
}

/// What the driver of a batch does next.
#[derive(Debug)]
pub enum BatchStep {
    /// Run this command and report how it ended.
    Execute { index: usize, command: String },
    /// Every command succeeded.
    Completed,
    /// A command failed; the ones after it are never started.
    Stopped(CommandError),
}

pub open spec fn succeeded(o: CommandOutcome) -> bool {
    o == CommandOutcome::Exited(0)
}

pub open spec fn failure_of(o: CommandOutcome) -> FailureKind {
    match o {
        CommandOutcome::Exited(c) => FailureKind::ExitStatus(c),
        CommandOutcome::Signalled => FailureKind::Signalled,
        CommandOutcome::SpawnFailed => FailureKind::Spawn,
    }
}

/// The abstract state of a batch of `total` commands: how many were
/// started, and the position of the one that failed, if any.
pub open spec fn batch_running(total: nat, started: nat, failed: Option<nat>) -> bool {
    failed is None && started < total
}

/// One reported outcome applied to the abstract state; outcomes that come
/// when no command is running change nothing.
pub open spec fn batch_advance(total: nat, state: (nat, Option<nat>), ok: bool) -> (nat, Option<nat>) {
    if batch_running(total, state.0, state.1) {
        (state.0 + 1, if ok { None } else { Some(state.0) })
    } else {
        state
    }
}

/// The abstract state after the outcomes `oks` were reported in order,
/// from a fresh batch of `total` commands.
pub open spec fn batch_after(total: nat, oks: Seq<bool>) -> (nat, Option<nat>)
    decreases oks.len(),
{
    if oks.len() == 0 {
        (0, None)
    } else {
        batch_advance(total, batch_after(total, oks.drop_last()), oks.last())
    }
}

/// An ordered list of shell commands, run one at a time, that stops at the
/// first command that does not succeed.
pub struct CommandBatch {
    commands: Vec<String>,
    started: usize,
    failure: Option<CommandError>,
}

impl CommandBatch {
    pub closed spec fn commands(&self) -> Seq<String> {
        self.commands@
    }

    /// The abstract state: commands started, and the failed position.
    pub closed spec fn state(&self) -> (nat, Option<nat>) {
        (
            self.started as nat,
            match self.failure {
                Some(e) => Some(e.index as nat),
                None => None,
            },
        )
    }

    pub closed spec fn failure_kind(&self) -> Option<FailureKind> {
        match self.failure {
            Some(e) => Some(e.kind),
            None => None,
        }
    }

    pub closed spec fn wf(&self) -> bool {
        &&& self.started <= self.commands@.len()
        &&& match self.failure {
            Some(e) => {
                &&& e.index + 1 == self.started
                &&& e.command@ == self.commands@[e.index as int]@
            },
            None => true,
        }
    }

    pub open spec fn total(&self) -> nat {
        self.commands().len()
    }

    pub open spec fn is_running(&self) -> bool {
        batch_running(self.total(), self.state().0, self.state().1)
    }

    /// A batch over `commands`, none of them started.
    pub fn new(commands: Vec<String>) -> (r: CommandBatch)
        ensures
            r.wf(),
            r.commands() == commands@,
            r.state() == (0nat, None::<nat>),
            r.failure_kind() is None,
    {
        CommandBatch { commands, started: 0, failure: None }
    }

    /// What to do next: run the next command, or report how the batch ended.
    pub fn next_step(&self) -> (r: BatchStep)
        requires
            self.wf(),
        ensures
            self.is_running() ==> (r matches BatchStep::Execute { index, command }
                && index == self.state().0 && command@ == self.commands()[index as int]@),
            self.state().1 is Some ==> (r matches BatchStep::Stopped(e)
                && Some(e.index as nat) == self.state().1
                && Some(e.kind) == self.failure_kind()
                && e.command@ == self.commands()[e.index as int]@),
            (self.state().1 is None && self.state().0 == self.total()) ==> r is Completed,
    {
        match &self.failure {
            Some(e) => BatchStep::Stopped(e.clone_error()),
            None => {
                if self.started < self.commands.len() {
                    BatchStep::Execute {
                        index: self.started,
                        command: self.commands[self.started].clone(),
                    }
                } else {
                    BatchStep::Completed
                }
            },
        }
    }

    /// Records how the running command ended.
    pub fn record(&mut self, outcome: CommandOutcome)
        requires
            old(self).wf(),
            old(self).is_running(),
        ensures
            final(self).wf(),
            final(self).commands() == old(self).commands(),
            final(self).state() == batch_advance(old(self).total(), old(self).state(), succeeded(outcome)),
            final(self).failure_kind() == (if succeeded(outcome) { None } else { Some(failure_of(outcome)) }),
    {
        let index = self.started;
        assert(self.started < self.commands.len());
        self.started = self.started + 1;
        let kind = match outcome {
            CommandOutcome::Exited(c) => {
                if c == 0 {
                    return;
                }
                FailureKind::ExitStatus(c)
            },
            CommandOutcome::Signalled => FailureKind::Signalled,
            CommandOutcome::SpawnFailed => FailureKind::Spawn,
        };
        self.failure = Some(CommandError { index, command: self.commands[index].clone(), kind });
    }
}

impl CommandError {
    /// A copy of the error.
    pub fn clone_error(&self) -> (r: CommandError)
        ensures
            r.index == self.index,
            r.command@ == self.command@,
            r.kind == self.kind,
    {
        CommandError { index: self.index, command: self.command.clone(), kind: self.kind }
    }
}

/// A batch stops at its first failing command: when outcome `k` is the
/// first failure among `total` commands, exactly the commands `0..=k` were
/// started and the batch reports `k` as failed; later outcomes change
/// nothing.
pub proof fn lemma_stops_at_first_failure(total: nat, oks: Seq<bool>, k: nat)
    requires
        oks.len() == total,
        k < total,
        !oks[k as int],
        forall|i: int| 0 <= i < k ==> oks[i],
    ensures
        batch_after(total, oks) == (k + 1, Some(k)),
{
    lemma_prefix_state(total, oks, k, total);
    assert(oks.take(total as int) =~= oks);
}

/// When every command succeeds, all of them are started and none failed.
pub proof fn lemma_all_succeed(total: nat, oks: Seq<bool>)
    requires
        oks.len() == total,
        forall|i: int| 0 <= i < total ==> oks[i],
    ensures
        batch_after(total, oks) == (total, None::<nat>),
{
    lemma_prefix_all_ok(total, oks, total);
    assert(oks.take(total as int) =~= oks);
}

proof fn lemma_prefix_all_ok(total: nat, oks: Seq<bool>, j: nat)
    requires
        j <= oks.len() <= total,
        forall|i: int| 0 <= i < j ==> oks[i],
    ensures
        batch_after(total, oks.take(j as int)) == (j, None::<nat>),
    decreases j,
{
    if j > 0 {
        lemma_prefix_all_ok(total, oks, (j - 1) as nat);
        assert(oks.take(j as int).drop_last() =~= oks.take(j - 1));
    } else {
        assert(oks.take(0).len() == 0);
    }
}

proof fn lemma_prefix_state(total: nat, oks: Seq<bool>, k: nat, j: nat)
    requires
        oks.len() == total,
        k < j <= total,
        !oks[k as int],
        forall|i: int| 0 <= i < k ==> oks[i],
    ensures
        batch_after(total, oks.take(j as int)) == (k + 1, Some(k)),
    decreases j,
{
    if j == k + 1 {
        lemma_prefix_all_ok(total, oks, k);
        assert(oks.take(j as int).drop_last() =~= oks.take(k as int));
    } else {
        lemma_prefix_state(total, oks, k, (j - 1) as nat);
        assert(oks.take(j as int).drop_last() =~= oks.take(j - 1));
    }
}

} // verus!
