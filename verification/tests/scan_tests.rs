use sysinfo::{get_current_pid, PidExt, ProcessExt, SystemExt};
use watchdog::{failures_of, find_matches, is_blacklisted, KillAttempt, ProcEntry, Snapshot};

fn entry(pid: u32, name: &str) -> ProcEntry {
    ProcEntry { pid, name: name.to_string() }
}

#[test]
fn matching_is_name_exact() {
    let entries = vec![entry(1, "Foo")];

    let by_case = find_matches(&entries, &vec!["foo".to_string()]);
    assert_eq!(by_case.len(), 0);

    let by_prefix = find_matches(&entries, &vec!["Fo".to_string()]);
    assert_eq!(by_prefix.len(), 0);

    let by_suffix = find_matches(&entries, &vec!["oo".to_string()]);
    assert_eq!(by_suffix.len(), 0);

    let exact = find_matches(&entries, &vec!["Foo".to_string()]);
    assert_eq!(exact.len(), 1);
    assert_eq!(exact[0].pid, 1);
    assert_eq!(exact[0].name, "Foo");
}

#[test]
fn is_blacklisted_is_exact() {
    let bl = vec!["foo".to_string(), "Fo".to_string()];
    assert!(!is_blacklisted(&bl, &"Foo".to_string()));
    assert!(is_blacklisted(&bl, &"foo".to_string()));
    assert!(is_blacklisted(&bl, &"Fo".to_string()));
}

#[test]
fn two_matches_one_bystander() {
    let entries = vec![entry(10, "evil.exe"), entry(11, "evil.exe"), entry(12, "evil2.exe")];
    let bl = vec!["evil.exe".to_string()];
    let m = find_matches(&entries, &bl);
    assert_eq!(m.len(), 2);
    assert_eq!(m[0].pid, 10);
    assert_eq!(m[1].pid, 11);
    assert!(m.iter().all(|e| e.name == "evil.exe"));
}

#[test]
fn several_blacklist_names_all_match() {
    let entries = vec![entry(1, "a"), entry(2, "b"), entry(3, "c")];
    let bl = vec!["c".to_string(), "a".to_string()];
    let m = find_matches(&entries, &bl);
    assert_eq!(m.len(), 2);
    assert_eq!(m[0].pid, 1);
    assert_eq!(m[1].pid, 3);
}

#[test]
fn failures_of_keeps_only_failed_attempts() {
    let attempts = vec![
        KillAttempt { entry: entry(1, "a"), delivered: false },
        KillAttempt { entry: entry(2, "b"), delivered: true },
        KillAttempt { entry: entry(3, "c"), delivered: false },
    ];
    let f = failures_of(&attempts);
    assert_eq!(f.len(), 2);
    assert_eq!(f[0].entry.pid, 1);
    assert_eq!(f[1].entry.pid, 3);
}

#[test]
fn killing_an_exited_process_reports_failure_and_continues() {
    let snapshot = Snapshot::new();
    // No live process can carry this identifier; the terminate request fails
    // and the pass still attempts, and reports, every entry.
    let gone = vec![entry(u32::MAX, "already_gone"), entry(u32::MAX - 1, "also_gone")];
    let attempts = snapshot.kill_all(&gone);
    assert_eq!(attempts.len(), 2);
    assert!(attempts.iter().all(|a| !a.delivered));
    let f = failures_of(&attempts);
    assert_eq!(f.len(), 2);
}

#[test]
fn finds_the_running_test_process() {
    let sys = sysinfo::System::new_all();
    let me = get_current_pid().unwrap();
    let my_name = sys.process(me).unwrap().name().to_string();

    let snapshot = Snapshot::new();
    let matches = snapshot.find_blacklisted(&vec![my_name.clone()]);
    assert!(matches.iter().any(|e| e.pid == me.as_u32()));
    assert!(matches.iter().all(|e| e.name == my_name));
}

#[test]
fn scan_cycle_with_unmatchable_blacklist_finds_nothing() {
    let mut snapshot = Snapshot::new();
    // Process names on every supported host are far shorter than this entry,
    // so a scan pass must leave every live process untouched.
    let bl = vec!["no_process_has_this_very_long_name_for_sure_watchdog_test".to_string()];
    let attempts = snapshot.scan_and_kill(&bl);
    assert_eq!(attempts.len(), 0);
    snapshot.refresh();
    let matches = snapshot.find_blacklisted(&bl);
    assert_eq!(matches.len(), 0);
}
