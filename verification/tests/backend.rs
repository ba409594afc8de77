use nub::backend::{apply, stub, Applied, Degradation, Platform};
use nub::policy::{FsPolicy, NetPolicy, SandboxPolicy};

fn policy(write: bool, read: bool, net: bool) -> SandboxPolicy {
    SandboxPolicy {
        fs: FsPolicy { write_enforce: write, read_enforce: read },
        net: NetPolicy { enforce: net },
    }
}

#[test]
fn warning_is_none_when_fully_enforced() {
    let full = Degradation::full();
    assert!(full.is_full(), "empty `lost` must read as full enforcement");
    assert!(
        full.warning().is_none(),
        "full enforcement must NOT emit a reduced-mode warning"
    );
}

#[test]
fn degraded_axis_with_reason_names_the_axis_and_reason() {
    let deg = Degradation {
        lost: vec!["fs".into(), "net-per-host".into()],
        reason: Some("Landlock unavailable on this kernel".into()),
    };
    assert!(!deg.is_full(), "a non-empty `lost` is NOT full enforcement");
    let w = deg
        .warning()
        .expect("a lost axis MUST produce a warning — never silent");
    assert!(w.contains("reduced mode"), "warning text changed: {w}");
    assert!(w.contains("fs"), "lost axis `fs` missing from warning: {w}");
    assert!(
        w.contains("net-per-host"),
        "lost axis `net-per-host` missing from warning: {w}"
    );
    assert!(
        w.contains("Landlock unavailable on this kernel"),
        "reason missing from warning: {w}"
    );
}

#[test]
fn degraded_axis_without_reason_still_warns() {
    let deg = Degradation {
        lost: vec!["fs".into()],
        reason: None,
    };
    let w = deg
        .warning()
        .expect("a lost axis with no reason MUST still warn");
    assert!(w.contains("reduced mode") && w.contains("fs"), "{w}");
}

#[test]
fn stub_reports_fs_and_net_lost_never_claims_full() {
    let policy = policy(true, true, true);
    assert!(policy.fs.write_enforce && policy.net.enforce);

    let deg = stub::apply(&policy);
    assert!(
        !deg.is_full(),
        "stub falsely claimed full enforcement it does not deliver"
    );
    assert!(deg.lost.iter().any(|a| a == "fs"), "fs not reported lost");
    assert!(deg.lost.iter().any(|a| a == "net"), "net not reported lost");
    assert!(
        deg.warning().is_some(),
        "stub must surface a reduced-mode warning"
    );
}

#[test]
fn warning_with_reason_reads_exactly() {
    let deg = Degradation {
        lost: vec!["fs".into(), "net".into(), "pid".into()],
        reason: Some("old kernel".into()),
    };
    assert_eq!(
        deg.warning().unwrap(),
        "build sandbox running in reduced mode — fs, net, pid not enforced (old kernel)"
    );
}

#[test]
fn warning_without_reason_reads_exactly() {
    let deg = Degradation { lost: vec!["net".into()], reason: None };
    assert_eq!(
        deg.warning().unwrap(),
        "build sandbox running in reduced mode — net not enforced"
    );
}

#[test]
fn reason_alone_is_no_warning() {
    let deg = Degradation { lost: vec![], reason: Some("old kernel".into()) };
    assert!(deg.is_full());
    assert_eq!(deg.warning(), None);
}

#[test]
fn default_is_full_enforcement() {
    let deg = Degradation::default();
    assert!(deg.lost.is_empty());
    assert_eq!(deg.reason, None);
}

#[test]
fn stub_reports_only_the_axes_asked_for() {
    let reason = "OS write/net sandbox not yet implemented on this platform (env-scrub only)";
    let cases: [(SandboxPolicy, Vec<&str>); 5] = [
        (policy(false, false, false), vec![]),
        (policy(true, false, false), vec!["fs"]),
        (policy(false, true, false), vec!["fs"]),
        (policy(false, false, true), vec!["net"]),
        (policy(false, true, true), vec!["fs", "net"]),
    ];
    for (policy, lost) in cases {
        let deg = stub::apply(&policy);
        assert_eq!(deg.lost, lost);
        assert_eq!(deg.reason.as_deref(), Some(reason));
        assert_eq!(deg.is_full(), lost.is_empty());
    }
}

#[test]
fn platforms_with_a_backend_are_left_to_it() {
    let policy = policy(true, true, true);
    assert!(matches!(apply(Platform::MacOs, &policy), Applied::Seatbelt));
    assert!(matches!(apply(Platform::Linux, &policy), Applied::Landlock));
}

#[test]
fn other_unix_loses_both_axes_whatever_the_policy() {
    for asked in [false, true] {
        match apply(Platform::OtherUnix, &policy(asked, asked, asked)) {
            Applied::Unenforced(deg) => {
                assert_eq!(deg.lost, vec!["fs", "net"]);
                assert_eq!(
                    deg.warning().unwrap(),
                    "build sandbox running in reduced mode — fs, net not enforced (no unprivileged sandbox backend for this OS)"
                );
            }
            other => panic!("{other:?}"),
        }
    }
}

#[test]
fn non_unix_gets_the_report_of_the_stub() {
    match apply(Platform::NonUnix, &policy(false, true, false)) {
        Applied::Unenforced(deg) => assert_eq!(deg.lost, vec!["fs"]),
        other => panic!("{other:?}"),
    }
}
