use deploy_helper::{
    bytes_equal, fingerprint, fingerprints_differ, install_outcome, plan_activation,
    activation_requests, ActivationPlan, InstallOutcome, ServiceRequest, UnitKind,
};

fn hex(b: &[u8]) -> String {
    b.iter().map(|x| format!("{:02x}", x)).collect()
}

#[test]
fn fingerprint_is_sha256() {
    assert_eq!(
        hex(&fingerprint(b"abc")),
        "ba7816bf8f01cfea414140de5dae2223b00361a396177a9cb410ff61f20015ad"
    );
    assert_eq!(
        hex(&fingerprint(b"")),
        "e3b0c44298fc1c149afbf4c8996fb92427ae41e4649b934ca495991b7852b855"
    );
}

#[test]
fn fingerprint_comparison() {
    let a = vec![fingerprint(b"old binary")];
    let same = vec![fingerprint(b"old binary")];
    let other = vec![fingerprint(b"new binary")];
    assert!(!fingerprints_differ(&a, &same));
    assert!(fingerprints_differ(&a, &other));
    assert!(fingerprints_differ(&a, &vec![]));
    assert!(!fingerprints_differ(&vec![], &vec![]));
}

#[test]
fn byte_equality() {
    assert!(bytes_equal(b"", b""));
    assert!(bytes_equal(b"unit", b"unit"));
    assert!(!bytes_equal(b"unit", b"unix"));
    assert!(!bytes_equal(b"unit", b"units"));
}

#[test]
fn install_decisions() {
    assert_eq!(install_outcome(&None, b"text"), InstallOutcome::Created);
    assert_eq!(install_outcome(&Some(b"text".to_vec()), b"text"), InstallOutcome::Unchanged);
    assert_eq!(install_outcome(&Some(b"old".to_vec()), b"text"), InstallOutcome::Replaced);
    assert_eq!(install_outcome(&Some(Vec::new()), b""), InstallOutcome::Unchanged);
}

#[test]
fn install_twice_writes_once() {
    let content = b"[Unit]\n".to_vec();
    let mut file: Option<Vec<u8>> = None;
    let mut writes = 0;
    for _ in 0..2 {
        let o = install_outcome(&file, &content);
        if o != InstallOutcome::Unchanged {
            writes += 1;
            file = Some(content.clone());
        }
    }
    assert_eq!(writes, 1);
    assert_eq!(install_outcome(&file, &content), InstallOutcome::Unchanged);
}

#[test]
fn activation_on_first_install() {
    let p = plan_activation(InstallOutcome::Created, InstallOutcome::Created, InstallOutcome::Created, false);
    assert_eq!(p, ActivationPlan { reload: true, start_run: true, restart_run: false });
    assert_eq!(
        activation_requests(p),
        vec![
            ServiceRequest::Reload,
            ServiceRequest::EnableNow(UnitKind::UpdateTimer),
            ServiceRequest::EnableNow(UnitKind::RunService),
        ]
    );
}

#[test]
fn restart_only_when_binary_changed() {
    let u = InstallOutcome::Unchanged;
    let same = activation_requests(plan_activation(u, u, u, false));
    assert_eq!(same, vec![ServiceRequest::EnableNow(UnitKind::UpdateTimer)]);
    let changed = activation_requests(plan_activation(u, u, u, true));
    assert_eq!(
        changed,
        vec![
            ServiceRequest::EnableNow(UnitKind::UpdateTimer),
            ServiceRequest::Restart(UnitKind::RunService),
        ]
    );
    let restarts = changed
        .iter()
        .filter(|r| **r == ServiceRequest::Restart(UnitKind::RunService))
        .count();
    assert_eq!(restarts, 1);
}

#[test]
fn replaced_run_unit_restarts_and_reloads() {
    let p = plan_activation(InstallOutcome::Unchanged, InstallOutcome::Unchanged, InstallOutcome::Replaced, false);
    assert_eq!(p, ActivationPlan { reload: true, start_run: false, restart_run: true });
    let q = plan_activation(InstallOutcome::Unchanged, InstallOutcome::Replaced, InstallOutcome::Unchanged, false);
    assert_eq!(q, ActivationPlan { reload: true, start_run: false, restart_run: false });
}
