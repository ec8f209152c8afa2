//! The process enumerator, the blacklist matcher and the terminator: a
//! snapshot of the live process table, exact-name matching against the
//! blacklist, and the kill pass that sends one terminate request per match
//! and never lets one failed request stop the rest.

use vstd::prelude::*;

use crate::config::names_of;
use sysinfo::PidExt;
use sysinfo::ProcessExt;
use sysinfo::SystemExt;

verus! {

/// One live process, as the scan loop sees it: its identifier and the
/// executable name the operating system reports for it.
pub struct ProcEntry {
    pub pid: u32,
    pub name: String,
}

/// Whether a process name is on the blacklist: exact, case-sensitive string
/// equality against some entry — no globbing, no substrings, no case folding.
pub open spec fn blacklist_matches(bl: Seq<Seq<char>>, name: Seq<char>) -> bool {
    bl.contains(name)
}

/// The entries of a process table whose names are blacklisted, in table
/// order.
pub open spec fn matched_entries(entries: Seq<ProcEntry>, bl: Seq<Seq<char>>) -> Seq<ProcEntry> {
    entries.filter(|e: ProcEntry| blacklist_matches(bl, e.name@))
}

/// No two entries carry the same process identifier.
pub open spec fn distinct_pids(s: Seq<ProcEntry>) -> bool {
    forall|i: int, j: int|
        0 <= i < s.len() && 0 <= j < s.len() && i != j ==> s[i].pid != s[j].pid
}

/// Whether `name` equals one of the blacklist's entries, exactly.
pub fn is_blacklisted(blacklist: &Vec<String>, name: &String) -> (r: bool)
    ensures
        r == blacklist_matches(names_of(blacklist@), name@),
{
    let mut j: usize = 0;
    while j < blacklist.len()
        invariant
            j <= blacklist.len(),
            forall|k: int| 0 <= k < j ==> names_of(blacklist@)[k] != name@,
        decreases blacklist.len() - j,
    {
        if blacklist[j] == *name {
            proof {
                assert(names_of(blacklist@)[j as int] == name@);
            }
            return true;
        }
        j += 1;
    }
    false
}

/// The blacklisted entries of a process table: exactly the entries whose
/// name equals a blacklist entry, kept in table order, duplicates and all.
pub fn find_matches(entries: &Vec<ProcEntry>, blacklist: &Vec<String>) -> (m: Vec<ProcEntry>)
    ensures
        m@ == matched_entries(entries@, names_of(blacklist@)),
{
    let mut m: Vec<ProcEntry> = Vec::new();
    let mut i: usize = 0;
    while i < entries.len()
        invariant
            i <= entries.len(),
            m@ == matched_entries(entries@.take(i as int), names_of(blacklist@)),
        decreases entries.len() - i,
    {
        let e = &entries[i];
        proof {
            reveal(Seq::filter);
            assert(entries@.take(i as int + 1).drop_last() =~= entries@.take(i as int));
            assert(entries@.take(i as int + 1).last() == entries@[i as int]);
        }
        if is_blacklisted(blacklist, &e.name) {
            m.push(ProcEntry { pid: e.pid, name: e.name.clone() });
        }
        i += 1;
    }
    proof {
        assert(entries@.take(entries@.len() as int) =~= entries@);
    }
    m
}

/// Every matched entry comes from the table and is blacklisted, and every
/// blacklisted table entry is matched.
proof fn lemma_matched_entries_props(entries: Seq<ProcEntry>, bl: Seq<Seq<char>>)
    ensures
        forall|i: int|
            0 <= i < matched_entries(entries, bl).len() ==> entries.contains(
                #[trigger] matched_entries(entries, bl)[i],
            ) && blacklist_matches(bl, matched_entries(entries, bl)[i].name@),
        forall|j: int|
            0 <= j < entries.len() && blacklist_matches(bl, (#[trigger] entries[j]).name@)
                ==> matched_entries(entries, bl).contains(entries[j]),
{
    broadcast use Seq::lemma_filter_pred, Seq::lemma_filter_contains, Seq::lemma_filter_contains_rev;

    let matched = matched_entries(entries, bl);
    assert forall|i: int| 0 <= i < matched.len() implies entries.contains(#[trigger] matched[i])
        && blacklist_matches(bl, matched[i].name@) by {
        assert(matched.contains(matched[i]));
    }
}

/// Matching keeps process identifiers distinct: a table without duplicate
/// identifiers yields a match list without duplicate identifiers, so one
/// scan pass sends a given process at most one terminate request.
proof fn lemma_matched_entries_distinct(entries: Seq<ProcEntry>, bl: Seq<Seq<char>>)
    requires
        distinct_pids(entries),
    ensures
        distinct_pids(matched_entries(entries, bl)),
    decreases entries.len(),
{
    reveal(Seq::filter);
    if entries.len() > 0 {
        let rest = entries.drop_last();
        let last = entries.last();
        assert(distinct_pids(rest)) by {
            assert forall|i: int, j: int|
                0 <= i < rest.len() && 0 <= j < rest.len() && i != j implies rest[i].pid
                != rest[j].pid by {
                assert(entries[i].pid != entries[j].pid);
            }
        }
        lemma_matched_entries_distinct(rest, bl);
        if blacklist_matches(bl, last.name@) {
            let prefix = matched_entries(rest, bl);
            assert(matched_entries(entries, bl) == prefix.push(last));
            lemma_matched_entries_props(rest, bl);
            assert forall|k: int| 0 <= k < prefix.len() implies prefix[k].pid != last.pid by {
                assert(rest.contains(prefix[k]));
                let j = choose|j: int| 0 <= j < rest.len() && rest[j] == prefix[k];
                assert(entries[j] == rest[j]);
                assert(entries[j].pid != entries[entries.len() - 1].pid);
            }
        }
    }
}

/// The exactness law: a process whose name is not letter-for-letter equal
/// to any blacklist entry is never matched — a near miss by case or by
/// prefix matches nothing, and no entry with such a name reaches the match
/// list.
pub proof fn lemma_matching_is_exact(entries: Seq<ProcEntry>, bl: Seq<Seq<char>>, name: Seq<char>)
    requires
        forall|j: int| 0 <= j < bl.len() ==> bl[j] != name,
    ensures
        !blacklist_matches(bl, name),
        forall|k: int|
            0 <= k < matched_entries(entries, bl).len() ==> (#[trigger] matched_entries(
                entries,
                bl,
            )[k]).name@ != name,
{
    lemma_matched_entries_props(entries, bl);
    assert forall|k: int|
        0 <= k < matched_entries(entries, bl).len() implies (#[trigger] matched_entries(
        entries,
        bl,
    )[k]).name@ != name by {
        assert(blacklist_matches(bl, matched_entries(entries, bl)[k].name@));
    }
}

/// The scan loop's phases. The loop is cyclic and has no terminal state:
/// it ends only with the whole process.
pub enum ScanPhase {
    /// Enumerate the snapshot and match names against the blacklist.
    Scanning,
    /// Send one terminate request per match.
    Killing,
    /// Sleep for the configured interval, then refresh the snapshot.
    Sleeping,
}

/// The scan loop's cycle: scanning, killing, sleeping, and around again.
pub open spec fn next_phase(p: ScanPhase) -> ScanPhase {
    match p {
        ScanPhase::Scanning => ScanPhase::Killing,
        ScanPhase::Killing => ScanPhase::Sleeping,
        ScanPhase::Sleeping => ScanPhase::Scanning,
    }
}

/// Advance the scan loop to its next phase.
pub fn advance_phase(p: &ScanPhase) -> (n: ScanPhase)
    ensures
        n == next_phase(*p),
{
    match p {
        ScanPhase::Scanning => ScanPhase::Killing,
        ScanPhase::Killing => ScanPhase::Sleeping,
        ScanPhase::Sleeping => ScanPhase::Scanning,
    }
}

/// The interval law, structurally: the only phase after a kill phase is a
/// sleep phase, and only after that does the next scan phase begin — so at
/// least the configured sleep lies between the end of one kill phase and
/// the start of the next scan phase.
pub proof fn lemma_sleep_separates_cycles()
    ensures
        next_phase(ScanPhase::Killing) is Sleeping,
        next_phase(next_phase(ScanPhase::Killing)) is Scanning,
        forall|p: ScanPhase| #[trigger] next_phase(p) is Scanning ==> p is Sleeping,
{
}

#[verifier::external_type_specification]
#[verifier::external_body]
pub struct ExSystem(sysinfo::System);

#[verifier::external_type_specification]
#[verifier::external_body]
pub struct ExProcess(sysinfo::Process);

/// What a system value's process table holds: each live process's name,
/// keyed by its identifier.
pub uninterp spec fn sys_procs(s: sysinfo::System) -> Map<u32, Seq<char>>;

/// Relies on sysinfo::System::new_all: builds a fresh view of the machine,
/// the live process table included. What the table holds depends on the
/// machine's state, so nothing is promised of it.
#[verifier::external_body]
fn new_system() -> sysinfo::System {
    sysinfo::System::new_all()
}

/// Relies on sysinfo::System::refresh_processes: re-reads the live process
/// table in place; entries of exited processes drop out, new processes
/// appear. The resulting table depends on the machine's state at call time,
/// so nothing is promised of it.
#[verifier::external_body]
fn refresh_system(s: &mut sysinfo::System) {
    s.refresh_processes()
}

/// Relies on sysinfo::System::processes: the process table, a hash map keyed
/// by process identifier, each entry handed out as its identifier and name.
/// The keys are unique and the walk order of the hash map is not fixed, so
/// nothing is claimed of the order.
#[verifier::external_body]
fn system_entries(s: &sysinfo::System) -> (r: Vec<ProcEntry>)
    ensures
        forall|i: int|
            0 <= i < r@.len() ==> sys_procs(*s).contains_key((#[trigger] r@[i]).pid) && sys_procs(
                *s,
            )[r@[i].pid] == r@[i].name@,
        forall|pid: u32|
            #[trigger] sys_procs(*s).contains_key(pid) ==> exists|i: int|
                0 <= i < r@.len() && (#[trigger] r@[i]).pid == pid,
        distinct_pids(r@),
{
    s.processes().iter().map(
        |entry: (&sysinfo::Pid, &sysinfo::Process)|
            ProcEntry { pid: entry.0.as_u32(), name: entry.1.name().to_string() },
    ).collect()
}

/// Relies on sysinfo::System::process: a lookup in the process table by
/// identifier; it returns an entry exactly when the identifier is a key of
/// the table.
#[verifier::external_body]
fn process_by_pid<'a>(s: &'a sysinfo::System, pid: u32) -> (r: Option<&'a sysinfo::Process>)
    ensures
        r is Some <==> sys_procs(*s).contains_key(pid),
{
    s.process(sysinfo::Pid::from_u32(pid))
}

/// Relies on sysinfo::Process::kill: sends the forceful kill signal and
/// reports whether the request was delivered. Success depends on the machine
/// (permissions, a racing exit), so nothing is promised of the outcome.
#[verifier::external_body]
fn kill_process(p: &sysinfo::Process) -> bool {
    p.kill()
}

/// One terminate request of a kill pass: the process it targeted and whether
/// the request was delivered.
pub struct KillAttempt {
    pub entry: ProcEntry,
    pub delivered: bool,
}

/// The attempts of a kill pass that failed, in pass order.
pub open spec fn spec_failures(attempts: Seq<KillAttempt>) -> Seq<KillAttempt> {
    attempts.filter(|a: KillAttempt| !a.delivered)
}

/// The failed attempts of a kill pass, for the per-failure diagnostics.
pub fn failures_of(attempts: &Vec<KillAttempt>) -> (f: Vec<KillAttempt>)
    ensures
        f@ == spec_failures(attempts@),
{
    let mut f: Vec<KillAttempt> = Vec::new();
    let mut i: usize = 0;
    while i < attempts.len()
        invariant
            i <= attempts.len(),
            f@ == spec_failures(attempts@.take(i as int)),
        decreases attempts.len() - i,
    {
        let a = &attempts[i];
        proof {
            reveal(Seq::filter);
            assert(attempts@.take(i as int + 1).drop_last() =~= attempts@.take(i as int));
            assert(attempts@.take(i as int + 1).last() == attempts@[i as int]);
        }
        if !a.delivered {
            f.push(
                KillAttempt {
                    entry: ProcEntry { pid: a.entry.pid, name: a.entry.name.clone() },
                    delivered: a.delivered,
                },
            );
        }
        i += 1;
    }
    proof {
        assert(attempts@.take(attempts@.len() as int) =~= attempts@);
    }
    f
}

/// The scan loop's private, periodically refreshed view of the operating
/// system's process table.
pub struct Snapshot {
    sys: sysinfo::System,
}

impl Snapshot {
    /// The process table this snapshot holds: each live process's name,
    /// keyed by its identifier.
    pub closed spec fn procs(self) -> Map<u32, Seq<char>> {
        sys_procs(self.sys)
    }

    /// A fresh snapshot of the machine's process table.
    pub fn new() -> Snapshot {
        Snapshot { sys: new_system() }
    }

    /// Re-reads the live process table in place: entries of exited processes
    /// drop out, new processes appear.
    pub fn refresh(&mut self) {
        refresh_system(&mut self.sys);
    }

    /// The scan phase: every live process whose name is exactly a blacklist
    /// entry — all of them, each at most once, and no other process.
    pub fn find_blacklisted(&self, blacklist: &Vec<String>) -> (m: Vec<ProcEntry>)
        ensures
            forall|i: int|
                0 <= i < m@.len() ==> self.procs().contains_key((#[trigger] m@[i]).pid)
                    && self.procs()[m@[i].pid] == m@[i].name@ && blacklist_matches(
                    names_of(blacklist@),
                    m@[i].name@,
                ),
            forall|pid: u32|
                #[trigger] self.procs().contains_key(pid) && blacklist_matches(
                    names_of(blacklist@),
                    self.procs()[pid],
                ) ==> exists|i: int| 0 <= i < m@.len() && (#[trigger] m@[i]).pid == pid,
            distinct_pids(m@),
    {
        let entries = system_entries(&self.sys);
        let m = find_matches(&entries, blacklist);
        proof {
            let bl = names_of(blacklist@);
            lemma_matched_entries_props(entries@, bl);
            lemma_matched_entries_distinct(entries@, bl);
            assert forall|i: int|
                0 <= i < m@.len() implies self.procs().contains_key((#[trigger] m@[i]).pid)
                && self.procs()[m@[i].pid] == m@[i].name@ && blacklist_matches(
                bl,
                m@[i].name@,
            ) by {
                assert(entries@.contains(m@[i]));
                let j = choose|j: int| 0 <= j < entries@.len() && entries@[j] == m@[i];
                assert(sys_procs(self.sys).contains_key(entries@[j].pid));
            }
            assert forall|pid: u32|
                #[trigger] self.procs().contains_key(pid) && blacklist_matches(
                    bl,
                    self.procs()[pid],
                ) implies exists|i: int| 0 <= i < m@.len() && (#[trigger] m@[i]).pid == pid by {
                let j = choose|j: int| 0 <= j < entries@.len() && (#[trigger] entries@[j]).pid == pid;
                assert(entries@[j].name@ == self.procs()[pid]);
                assert(matched_entries(entries@, bl).contains(entries@[j]));
                let k = choose|k: int| 0 <= k < m@.len() && m@[k] == entries@[j];
                assert(m@[k].pid == pid);
            }
        }
        m
    }

    /// The kill phase: one terminate request per entry of `matches`, in
    /// order. Every entry is attempted exactly once whatever became of the
    /// other attempts — a failed request never stops the rest.
    pub fn kill_all(&self, matches: &Vec<ProcEntry>) -> (r: Vec<KillAttempt>)
        ensures
            r@.len() == matches@.len(),
            forall|i: int| 0 <= i < r@.len() ==> (#[trigger] r@[i]).entry == matches@[i],
    {
        let mut r: Vec<KillAttempt> = Vec::new();
        let mut i: usize = 0;
        while i < matches.len()
            invariant
                i <= matches.len(),
                r@.len() == i,
                forall|k: int| 0 <= k < i ==> (#[trigger] r@[k]).entry == matches@[k],
            decreases matches.len() - i,
        {
            let e = &matches[i];
            let delivered = match process_by_pid(&self.sys, e.pid) {
                Some(p) => kill_process(p),
                None => false,
            };
            r.push(
                KillAttempt { entry: ProcEntry { pid: e.pid, name: e.name.clone() }, delivered },
            );
            i += 1;
        }
        r
    }

    /// One scan-and-kill pass: a terminate request is sent for every live
    /// process whose name is exactly a blacklist entry — each such process
    /// once, no other process — and a failed request never stops the rest.
    pub fn scan_and_kill(&self, blacklist: &Vec<String>) -> (r: Vec<KillAttempt>)
        ensures
            forall|i: int|
                0 <= i < r@.len() ==> self.procs().contains_key((#[trigger] r@[i]).entry.pid)
                    && self.procs()[r@[i].entry.pid] == r@[i].entry.name@ && blacklist_matches(
                    names_of(blacklist@),
                    r@[i].entry.name@,
                ),
            forall|pid: u32|
                #[trigger] self.procs().contains_key(pid) && blacklist_matches(
                    names_of(blacklist@),
                    self.procs()[pid],
                ) ==> exists|i: int| 0 <= i < r@.len() && (#[trigger] r@[i]).entry.pid == pid,
            forall|i: int, j: int|
                0 <= i < r@.len() && 0 <= j < r@.len() && i != j ==> (#[trigger] r@[i]).entry.pid
                    != (#[trigger] r@[j]).entry.pid,
    {
        let matches = self.find_blacklisted(blacklist);
        let r = self.kill_all(&matches);
        proof {
            assert forall|pid: u32|
                #[trigger] self.procs().contains_key(pid) && blacklist_matches(
                    names_of(blacklist@),
                    self.procs()[pid],
                ) implies exists|i: int|
                0 <= i < r@.len() && (#[trigger] r@[i]).entry.pid == pid by {
                let k = choose|k: int| 0 <= k < matches@.len() && (#[trigger] matches@[k]).pid == pid;
                assert(r@[k].entry.pid == pid);
            }
        }
        r
    }
}

} // verus!
