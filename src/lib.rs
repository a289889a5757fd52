//! A self-deploying updater: runs a program's update commands, detects
//! whether its executable changed, renders and installs the service-manager
//! units, and decides which activation requests to issue.
//!
//! Every decision is made by verified code in this crate. The file system,
//! the shell, the lock and the service manager are reached by the caller,
//! which hands the outcomes back as plain values.

mod activation;
mod commands;
mod config;
mod cycle;
mod fingerprint;
mod install;
mod units;

pub use activation::{
    activation_requests, lemma_restart_only_on_change, plan_activation, plan_of, requests_of,
    run_restarts, unit_order, ActivationPlan, ServiceRequest, UnitKind,
};
pub use commands::{
    batch_advance, batch_after, batch_running, failure_of, lemma_all_succeed,
    lemma_stops_at_first_failure, succeeded, BatchStep, CommandBatch, CommandError,
    CommandOutcome, FailureKind,
};
pub use config::{Config, Run, Update};
pub use cycle::{
    is_locked_phase, is_terminal, lemma_ended_cycle_holds_no_lock, lemma_same_bytes_no_restart,
    Action, Phase, UpdateCycle, UpdateError,
};
pub use fingerprint::{bytes_equal, fingerprint, fingerprints_differ, sha256_of};
pub use install::{
    file_after_install, install_outcome, install_outcome_of, lemma_install_twice, needs_write,
    InstallOutcome,
};
pub use units::{
    decimal, decimal_string, digit_char, generate_units, lemma_generation_deterministic,
    lemma_interval_only_changes_timer_value, lock_path, lock_path_of, renders, run_service_name,
    run_service_unit, run_unit_text, timer_head, timer_tail, timer_unit_text, unit_name,
    unit_name_of, unit_path, unit_path_of, update_service_name, update_service_unit,
    update_timer_name, update_timer_unit, update_unit_text, EnvironmentFacts, UnitSet,
};
