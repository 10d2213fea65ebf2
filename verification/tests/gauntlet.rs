use sovereign_cli::gauntlet_report::{compile_isolation, AddressSpaceLimit};

const ONE_GIB: u64 = 1024 * 1024 * 1024;

#[test]
fn a_worker_that_never_started_is_not_evidence_of_containment() {
    let verdict = compile_isolation(false, true, AddressSpaceLimit::Enforced(ONE_GIB));
    assert!(!verdict.pass, "a check reported the worker contained a hostile compile that never ran in it");
    assert!(verdict.detail.contains("never started"), "the reader is not told why this proves nothing: {}", verdict.detail);
}

#[test]
fn a_hostile_compile_that_did_not_fail_closed_is_a_failure() {
    let verdict = compile_isolation(true, false, AddressSpaceLimit::Enforced(ONE_GIB));
    assert!(!verdict.pass);
}

#[test]
fn a_passing_check_names_the_ceiling_it_actually_enforced() {
    let verdict = compile_isolation(true, true, AddressSpaceLimit::Enforced(ONE_GIB));
    assert!(verdict.pass);
    assert!(verdict.detail.contains("1024 MiB"), "a claimed memory cap must state its size: {}", verdict.detail);
}

#[test]
fn a_passing_check_does_not_claim_a_cap_the_platform_cannot_apply() {
    let verdict = compile_isolation(true, true, AddressSpaceLimit::Unavailable);
    assert!(verdict.pass, "process containment still held; only the memory ceiling is missing");
    assert!(!verdict.detail.contains("memory-limited"), "the detail claims a limit this platform does not apply: {}", verdict.detail);
    assert!(verdict.detail.contains("no address-space ceiling"), "the missing ceiling must be stated, not omitted: {}", verdict.detail);
}

#[test]
fn a_ceiling_below_one_mebibyte_reads_as_zero_mib() {
    let verdict = compile_isolation(true, true, AddressSpaceLimit::Enforced(1048575));
    assert_eq!(
        verdict.detail,
        "an artifact that fails compilation was compiled in a killable worker process; the failure was contained in the child and the host stayed up, under a hard address-space ceiling of 0 MiB"
    );
}

#[test]
fn a_failed_hostile_compile_reports_the_exact_reason() {
    let verdict = compile_isolation(true, false, AddressSpaceLimit::Unavailable);
    assert_eq!(verdict.detail, "compiling a malformed artifact did not fail closed in the parent");
}
