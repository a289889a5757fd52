use vstd::prelude::*;
use crate::install::{needs_write, InstallOutcome};

verus! {

/// One of the three units of a program.
#[derive(Clone, Copy, Debug, PartialEq, Eq, Structural)]
pub enum UnitKind {
    UpdateService,
    UpdateTimer,
    RunService,
}

/// A request to the service manager.
#[derive(Clone, Copy, Debug, PartialEq, Eq, Structural)]
pub enum ServiceRequest {
    /// Reload the unit definitions.
    Reload,
    /// Enable the unit and start it now.
    EnableNow(UnitKind),
    /// Restart the unit.
    Restart(UnitKind),
}

/// The units in the order they are installed.
pub open spec fn unit_order() -> Seq<UnitKind> {
    seq![UnitKind::UpdateService, UnitKind::UpdateTimer, UnitKind::RunService]
}

/// Which activation requests an update cycle issues.
#[derive(Clone, Copy, Debug, PartialEq, Eq, Structural)]
pub struct ActivationPlan {
    /// Some unit file was written.
    pub reload: bool,
    /// The run unit was installed for the first time.
    pub start_run: bool,
    /// The running instance is out of date.
    pub restart_run: bool,
}

/// The plan for the install outcomes of the three units and for whether the
/// watched executable changed: reload when a file was written; start the run
/// service when its unit is new; otherwise restart it when the executable or
/// its unit changed.
pub open spec fn plan_of(
    update_service: InstallOutcome,
    update_timer: InstallOutcome,
    run_service: InstallOutcome,
    binary_changed: bool,
) -> ActivationPlan {
    ActivationPlan {
        reload: needs_write(update_service) || needs_write(update_timer) || needs_write(run_service),
        start_run: run_service == InstallOutcome::Created,
        restart_run: run_service != InstallOutcome::Created
            && (binary_changed || run_service == InstallOutcome::Replaced),
    }
}

/// The requests of a plan, in the order they are issued. The update timer
/// is always enabled and started.
pub open spec fn requests_of(plan: ActivationPlan) -> Seq<ServiceRequest> {
    (if plan.reload { seq![ServiceRequest::Reload] } else { Seq::empty() })
        + seq![ServiceRequest::EnableNow(UnitKind::UpdateTimer)]
        + (if plan.start_run { seq![ServiceRequest::EnableNow(UnitKind::RunService)] } else { Seq::empty() })
        + (if plan.restart_run { seq![ServiceRequest::Restart(UnitKind::RunService)] } else { Seq::empty() })
}

/// How many requests in `rs` restart the run service.
pub open spec fn run_restarts(rs: Seq<ServiceRequest>) -> nat
    decreases rs.len(),
{
    if rs.len() == 0 {
        0
    } else {
        run_restarts(rs.drop_last()) + if rs.last() == ServiceRequest::Restart(UnitKind::RunService) { 1nat } else { 0nat }
    }
}

pub fn plan_activation(
    update_service: InstallOutcome,
    update_timer: InstallOutcome,
    run_service: InstallOutcome,
    binary_changed: bool,
) -> (r: ActivationPlan)
    ensures
        r == plan_of(update_service, update_timer, run_service, binary_changed),
{
    let written = |o: InstallOutcome| -> (w: bool)
        ensures
            w == needs_write(o),
        { !matches!(o, InstallOutcome::Unchanged) };
    let fresh = matches!(run_service, InstallOutcome::Created);
    ActivationPlan {
        reload: written(update_service) || written(update_timer) || written(run_service),
        start_run: fresh,
        restart_run: !fresh && (binary_changed || matches!(run_service, InstallOutcome::Replaced)),
    }
}

pub fn activation_requests(plan: ActivationPlan) -> (r: Vec<ServiceRequest>)
    ensures
        r@ == requests_of(plan),
{
    let mut r: Vec<ServiceRequest> = Vec::new();
    if plan.reload {
        r.push(ServiceRequest::Reload);
    }
    r.push(ServiceRequest::EnableNow(UnitKind::UpdateTimer));
    if plan.start_run {
        r.push(ServiceRequest::EnableNow(UnitKind::RunService));
    }
    if plan.restart_run {
        r.push(ServiceRequest::Restart(UnitKind::RunService));
    }
    assert(r@ =~= requests_of(plan));
    r
}

/// Restarts follow change detection: once the run unit is installed and
/// its file stays as it was, the run service is restarted exactly once when
/// the executable changed and never when it did not.
pub proof fn lemma_restart_only_on_change(
    update_service: InstallOutcome,
    update_timer: InstallOutcome,
    binary_changed: bool,
)
    ensures
        run_restarts(
            requests_of(plan_of(update_service, update_timer, InstallOutcome::Unchanged, binary_changed)),
        ) == if binary_changed { 1nat } else { 0nat },
{
    let plan = plan_of(update_service, update_timer, InstallOutcome::Unchanged, binary_changed);
    let a: Seq<ServiceRequest> = if plan.reload { seq![ServiceRequest::Reload] } else { Seq::empty() };
    let b = a + seq![ServiceRequest::EnableNow(UnitKind::UpdateTimer)];
    let rs = requests_of(plan);
    assert(run_restarts(a) == 0) by {
        if plan.reload {
            assert(a.drop_last() =~= Seq::<ServiceRequest>::empty());
            assert(run_restarts(Seq::<ServiceRequest>::empty()) == 0);
            assert(a.last() == ServiceRequest::Reload);
        } else {
            assert(a.len() == 0);
        }
    }
    assert(b.drop_last() =~= a);
    assert(run_restarts(b) == 0);
    if binary_changed {
        assert(rs =~= b.push(ServiceRequest::Restart(UnitKind::RunService)));
        assert(rs.drop_last() =~= b);
    } else {
        assert(rs =~= b);
    }
}

} // verus!
