use vstd::prelude::*;

use std::collections::HashMap;

use crate::process::tracee::{reset_restart_spec, InfoBag, Tracee, TraceeRestartMethod};

verus! {

broadcast use vstd::std_specs::hash::group_hash_axioms;

/// Trace/breakpoint trap.
pub const SIGTRAP: i32 = 5;
/// Stop process.
pub const SIGSTOP: i32 = 19;
/// Bit set in the `si_code` of a syscall-stop reported with
/// `PTRACE_O_TRACESYSGOOD`.
pub const SYSGOOD_BIT: i32 = 0x80;

/// What `waitpid` reported about a tracee.
#[derive(Debug, Clone, Copy, PartialEq, Eq, Structural)]
pub enum WaitEvent {
    /// The tracee exited with the given status.
    Exited(i32, i32),
    /// The tracee was killed by the given signal.
    Signaled(i32, i32),
    /// The tracee was stopped by the given signal (signal-delivery-stop, or
    /// syscall-stop without `PTRACE_O_TRACESYSGOOD`).
    Stopped(i32, i32),
    /// The tracee was stopped by a `PTRACE_EVENT_*` stop (signal, event).
    PtraceEvent(i32, i32, i32),
    /// The tracee was stopped at a system call (`PTRACE_O_TRACESYSGOOD`).
    PtraceSyscall(i32),
    /// The tracee was resumed by `SIGCONT`.
    Continued(i32),
    /// Nothing to report yet.
    StillAlive,
}

/// The work that a stopped tracee asks of the tracer before it is
/// restarted.
#[derive(Debug, Clone, Copy, PartialEq, Eq, Structural)]
pub enum StopWork {
    /// Nothing but the restart.
    Nothing,
    /// Set the ptrace options on the tracee (first `SIGSTOP`).
    SetPtraceOptions,
    /// Read the signal information: a `SIGTRAP` is a syscall-stop when
    /// `is_syscall_stop_siginfo` holds of its `si_code`.
    CheckSigInfo,
    /// Translate the system call the tracee stopped at.
    TranslateSyscall,
}

/// What the tracer does about one `waitpid` report.
#[derive(Debug, Clone, Copy, PartialEq, Eq, Structural)]
pub enum EventAction {
    /// Nothing to do.
    Ignore,
    /// The tracee is gone and was forgotten.
    Forgotten(i32),
    /// Do `work` for the stopped tracee `pid`, then restart it with the
    /// method it holds, delivering `signal` if any.
    Handle { pid: i32, work: StopWork, signal: Option<i32> },
}

/// The pids other than `pid`.
pub open spec fn other_than(pid: i32) -> spec_fn(i32) -> bool {
    |p: i32| p != pid
}

/// Whether the `si_code` of a `SIGTRAP` tells a real syscall-stop.
pub fn is_syscall_stop_siginfo(si_code: i32) -> (r: bool)
    ensures
        r == (si_code == SIGTRAP || si_code == (SIGTRAP | SYSGOOD_BIT)),
{
    si_code == SIGTRAP || si_code == (SIGTRAP | SYSGOOD_BIT)
}

/// The tracer: the tracees it knows, indexed by pid, and those alive.
#[derive(Debug)]
pub struct PRoot {
    info_bag: InfoBag,
    tracees: HashMap<i32, Tracee>,
    alive_tracees: Vec<i32>,
}

impl PRoot {
    /// The tracees, by pid.
    pub closed spec fn tracees_spec(&self) -> Map<i32, Tracee> {
        self.tracees@
    }

    /// The pids of the tracees alive, in the order they appeared.
    pub closed spec fn alive_spec(&self) -> Seq<i32> {
        self.alive_tracees@
    }

    /// Whether the ptrace options have been set.
    pub closed spec fn options_set_spec(&self) -> bool {
        self.info_bag.options_already_set
    }

    /// Every tracee known is alive and stored under its own pid.
    pub open spec fn wf(&self) -> bool {
        &&& forall|p: i32| #[trigger]
            self.alive_spec().contains(p) <==> self.tracees_spec().contains_key(p)
        &&& forall|p: i32| #[trigger]
            self.tracees_spec().contains_key(p) ==> self.tracees_spec()[p].pid == p
    }

    /// The tracee `pid` is out (see `take_tracee`), and all else holds.
    pub open spec fn wf_except(&self, pid: i32) -> bool {
        &&& forall|p: i32|
            p != pid ==> (#[trigger] self.alive_spec().contains(p) <==> self.tracees_spec().contains_key(
                p,
            ))
        &&& forall|p: i32|
            p != pid && #[trigger] self.tracees_spec().contains_key(p) ==> self.tracees_spec()[p].pid
                == p
        &&& self.alive_spec().contains(pid)
    }

    pub fn new() -> (r: PRoot)
        ensures
            r.wf(),
            r.tracees_spec() == Map::<i32, Tracee>::empty(),
            r.alive_spec() == Seq::<i32>::empty(),
            !r.options_set_spec(),
    {
        let r = PRoot { info_bag: InfoBag::new(), tracees: HashMap::new(), alive_tracees: Vec::new() };
        assert(r.tracees@ =~= Map::<i32, Tracee>::empty());
        r
    }

    /// Whether some tracee is still alive.
    pub fn has_alive_tracees(&self) -> (r: bool)
        ensures
            r == (self.alive_spec().len() > 0),
    {
        !self.alive_tracees.is_empty()
    }

    /// The tracee of pid `pid`, if known.
    pub fn get_tracee(&self, pid: i32) -> (r: Option<&Tracee>)
        ensures
            match r {
                Some(t) => self.tracees_spec().contains_key(pid) && *t == self.tracees_spec()[pid],
                None => !self.tracees_spec().contains_key(pid),
            },
    {
        self.tracees.get(&pid)
    }

    /// Creates the tracee of pid `pid` and registers it as alive.
    pub fn create_tracee(&mut self, pid: i32)
        requires
            old(self).wf(),
        ensures
            final(self).wf(),
            final(self).tracees_spec().dom() == old(self).tracees_spec().dom().insert(pid),
            final(self).tracees_spec()[pid].pid == pid,
            final(self).tracees_spec()[pid].status == crate::process::tracee::TraceeStatus::SysEnter,
            forall|p: i32|
                p != pid && #[trigger] old(self).tracees_spec().contains_key(p)
                    ==> final(self).tracees_spec()[p] == old(self).tracees_spec()[p],
            final(self).alive_spec() == old(self).alive_spec().push(pid),
            final(self).options_set_spec() == old(self).options_set_spec(),
    {
        let tracee = Tracee::new(pid);
        self.tracees.insert(pid, tracee);
        self.register_alive_tracee(pid);
        proof {
            assert forall|p: i32| #[trigger]
                self.alive_spec().contains(p) <==> self.tracees_spec().contains_key(p) by {
                if p != pid && old(self).alive_spec().contains(p) {
                    let i = choose|i: int| 0 <= i < old(self).alive_spec().len() && old(self).alive_spec()[i] == p;
                    assert(self.alive_spec()[i] == p);
                }
                if p != pid && self.alive_spec().contains(p) {
                    let i = choose|i: int| 0 <= i < self.alive_spec().len() && self.alive_spec()[i] == p;
                    assert(old(self).alive_spec()[i] == p);
                }
                if p == pid {
                    assert(self.alive_spec()[self.alive_spec().len() - 1] == pid);
                }
            }
        }
    }

    fn register_alive_tracee(&mut self, pid: i32)
        ensures
            final(self).alive_spec() == old(self).alive_spec().push(pid),
            final(self).tracees_spec() == old(self).tracees_spec(),
            final(self).options_set_spec() == old(self).options_set_spec(),
    {
        self.alive_tracees.push(pid);
    }

    /// Forgets the tracee `finished_pid`, which exited or was killed.
    pub fn register_tracee_finished(&mut self, finished_pid: i32)
        requires
            old(self).wf(),
        ensures
            final(self).wf(),
            final(self).tracees_spec() == old(self).tracees_spec().remove(finished_pid),
            final(self).alive_spec() == old(self).alive_spec().filter(other_than(finished_pid)),
            !final(self).alive_spec().contains(finished_pid),
            final(self).options_set_spec() == old(self).options_set_spec(),
    {
        let ghost pred = other_than(finished_pid);
        let mut kept: Vec<i32> = Vec::new();
        let mut i: usize = 0;
        while i < self.alive_tracees.len()
            invariant
                i <= self.alive_tracees@.len(),
                self.alive_tracees@ == old(self).alive_tracees@,
                pred == other_than(finished_pid),
                kept@ == self.alive_tracees@.take(i as int).filter(pred),
            decreases self.alive_tracees@.len() - i,
        {
            let p = self.alive_tracees[i];
            let ghost before = kept@;
            if p != finished_pid {
                kept.push(p);
            }
            proof {
                let s = self.alive_tracees@.take(i + 1);
                assert(s.drop_last() =~= self.alive_tracees@.take(i as int));
                assert(s.last() == p);
                reveal(Seq::filter);
                assert(s.filter(pred) == (if pred(s.last()) {
                    s.drop_last().filter(pred).push(s.last())
                } else {
                    s.drop_last().filter(pred)
                }));
                assert(pred(p) == (p != finished_pid));
                if p != finished_pid {
                    assert(kept@ =~= before.push(p));
                } else {
                    assert(kept@ =~= before);
                }
                assert(kept@ == s.filter(pred));
            }
            i = i + 1;
        }
        assert(self.alive_tracees@.take(i as int) =~= self.alive_tracees@);
        self.alive_tracees = kept;
        self.tracees.remove(&finished_pid);
        proof {
            let old_alive = old(self).alive_spec();
            let f = old_alive.filter(pred);
            assert forall|p: i32| #[trigger]
                self.alive_spec().contains(p) <==> self.tracees_spec().contains_key(p) by {
                if f.contains(p) {
                    let j = choose|j: int| 0 <= j < f.len() && f[j] == p;
                    old_alive.lemma_filter_pred(pred, j);
                    lemma_filter_subset(old_alive, pred, p);
                }
                if p != finished_pid && old_alive.contains(p) {
                    let j = choose|j: int| 0 <= j < old_alive.len() && old_alive[j] == p;
                    old_alive.lemma_filter_contains(pred, j);
                }
            }
            if f.contains(finished_pid) {
                let j = choose|j: int| 0 <= j < f.len() && f[j] == finished_pid;
                old_alive.lemma_filter_pred(pred, j);
            }
        }
    }

    /// Chooses again the restart method of the stopped tracee `pid`.
    fn reset_stopped_tracee(&mut self, pid: i32)
        requires
            old(self).wf(),
            old(self).tracees_spec().contains_key(pid),
        ensures
            final(self).wf(),
            stopped_tracee_reset(*old(self), *final(self), pid),
            final(self).alive_spec() == old(self).alive_spec(),
            final(self).options_set_spec() == old(self).options_set_spec(),
    {
        let mut tracee = self.tracees.remove(&pid).unwrap();
        tracee.reset_restart_how();
        self.tracees.insert(pid, tracee);
        assert(self.tracees@.dom() =~= old(self).tracees@.dom());
        assert forall|p: i32| #[trigger]
            self.tracees_spec().contains_key(p) implies self.tracees_spec()[p].pid == p by {
            assert(old(self).tracees_spec().contains_key(p));
        }
        assert forall|p: i32| #[trigger]
            self.alive_spec().contains(p) <==> self.tracees_spec().contains_key(p) by {
            assert(old(self).alive_spec().contains(p) <==> old(self).tracees_spec().contains_key(p));
        }
    }

    /// The tracer's decision on one `waitpid` report: finished tracees are
    /// forgotten, a stopped tracee gets its restart method and the work
    /// to do before it is restarted.
    pub fn handle_wait_event(&mut self, event: WaitEvent) -> (r: EventAction)
        requires
            old(self).wf(),
            match event {
                WaitEvent::Stopped(pid, _) => old(self).tracees_spec().contains_key(pid),
                WaitEvent::PtraceEvent(pid, _, _) => old(self).tracees_spec().contains_key(pid),
                WaitEvent::PtraceSyscall(pid) => old(self).tracees_spec().contains_key(pid),
                _ => true,
            },
        ensures
            final(self).wf(),
            match event {
                WaitEvent::Exited(pid, _) | WaitEvent::Signaled(pid, _) => {
                    &&& r == EventAction::Forgotten(pid)
                    &&& final(self).tracees_spec() == old(self).tracees_spec().remove(pid)
                    &&& final(self).alive_spec() == old(self).alive_spec().filter(other_than(pid))
                    &&& final(self).options_set_spec() == old(self).options_set_spec()
                },
                WaitEvent::Stopped(pid, sig) => {
                    &&& r == EventAction::Handle {
                        pid,
                        work: if sig == SIGSTOP {
                            if old(self).options_set_spec() {
                                StopWork::Nothing
                            } else {
                                StopWork::SetPtraceOptions
                            }
                        } else if sig == SIGTRAP {
                            StopWork::CheckSigInfo
                        } else {
                            StopWork::Nothing
                        },
                        signal: Some(sig),
                    }
                    &&& stopped_tracee_reset(*old(self), *final(self), pid)
                    &&& final(self).alive_spec() == old(self).alive_spec()
                    &&& final(self).options_set_spec() == (old(self).options_set_spec() || sig
                        == SIGSTOP)
                },
                WaitEvent::PtraceEvent(pid, _, _) => {
                    &&& r == EventAction::Handle { pid, work: StopWork::Nothing, signal: None }
                    &&& stopped_tracee_reset(*old(self), *final(self), pid)
                    &&& final(self).alive_spec() == old(self).alive_spec()
                    &&& final(self).options_set_spec() == old(self).options_set_spec()
                },
                WaitEvent::PtraceSyscall(pid) => {
                    &&& r == EventAction::Handle {
                        pid,
                        work: StopWork::TranslateSyscall,
                        signal: None,
                    }
                    &&& stopped_tracee_reset(*old(self), *final(self), pid)
                    &&& final(self).alive_spec() == old(self).alive_spec()
                    &&& final(self).options_set_spec() == old(self).options_set_spec()
                },
                WaitEvent::Continued(_) | WaitEvent::StillAlive => {
                    &&& r == EventAction::Ignore
                    &&& final(self).tracees_spec() == old(self).tracees_spec()
                    &&& final(self).alive_spec() == old(self).alive_spec()
                    &&& final(self).options_set_spec() == old(self).options_set_spec()
                },
            },
    {
        match event {
            WaitEvent::Exited(pid, _) | WaitEvent::Signaled(pid, _) => {
                self.register_tracee_finished(pid);
                EventAction::Forgotten(pid)
            },
            WaitEvent::Stopped(pid, sig) => {
                self.reset_stopped_tracee(pid);
                let work = if sig == SIGSTOP {
                    // When the first child process starts, it sends a SIGSTOP
                    // to itself: the ptrace options are set at this point.
                    let tracee = self.tracees.get(&pid).unwrap();
                    if tracee.check_and_set_ptrace_options(&mut self.info_bag) {
                        StopWork::SetPtraceOptions
                    } else {
                        StopWork::Nothing
                    }
                } else if sig == SIGTRAP {
                    // Only PTRACE_GETSIGINFO tells a syscall-stop from a
                    // signal-delivery-stop here.
                    StopWork::CheckSigInfo
                } else {
                    StopWork::Nothing
                };
                EventAction::Handle { pid, work, signal: Some(sig) }
            },
            WaitEvent::PtraceEvent(pid, _, _) => {
                self.reset_stopped_tracee(pid);
                EventAction::Handle { pid, work: StopWork::Nothing, signal: None }
            },
            WaitEvent::PtraceSyscall(pid) => {
                self.reset_stopped_tracee(pid);
                EventAction::Handle { pid, work: StopWork::TranslateSyscall, signal: None }
            },
            WaitEvent::Continued(_) | WaitEvent::StillAlive => EventAction::Ignore,
        }
    }

    /// Takes the tracee of pid `pid` out, to work on it.
    pub fn take_tracee(&mut self, pid: i32) -> (r: Option<Tracee>)
        ensures
            final(self).tracees_spec() == old(self).tracees_spec().remove(pid),
            final(self).alive_spec() == old(self).alive_spec(),
            final(self).options_set_spec() == old(self).options_set_spec(),
            match r {
                Some(t) => old(self).tracees_spec().contains_key(pid) && t == old(self).tracees_spec()[pid],
                None => !old(self).tracees_spec().contains_key(pid),
            },
            old(self).wf() && r is Some ==> final(self).wf_except(pid) && r->0.pid == pid,
    {
        self.tracees.remove(&pid)
    }

    /// Puts back a tracee taken out by `take_tracee`.
    pub fn put_tracee(&mut self, tracee: Tracee)
        ensures
            final(self).tracees_spec() == old(self).tracees_spec().insert(tracee.pid, tracee),
            final(self).alive_spec() == old(self).alive_spec(),
            final(self).options_set_spec() == old(self).options_set_spec(),
            old(self).wf_except(tracee.pid) ==> final(self).wf(),
    {
        let pid = tracee.pid;
        self.tracees.insert(pid, tracee);
    }
}

/// The tracee `pid` got its restart method chosen again, and nothing else
/// changed among the tracees.
pub open spec fn stopped_tracee_reset(before: PRoot, after: PRoot, pid: i32) -> bool {
    let t0 = before.tracees_spec()[pid];
    let t1 = after.tracees_spec()[pid];
    &&& after.tracees_spec().dom() == before.tracees_spec().dom()
    &&& forall|p: i32|
        p != pid && #[trigger] before.tracees_spec().contains_key(p) ==> after.tracees_spec()[p]
            == before.tracees_spec()[p]
    &&& t1.restart_how == reset_restart_spec(t0.restart_how, t0.seccomp, t0.sysexit_pending)
    &&& t1.pid == t0.pid
    &&& t1.status == t0.status
    &&& t1.regs@ == t0.regs@
    &&& t1.seccomp == t0.seccomp
    &&& t1.sysexit_pending == t0.sysexit_pending
}

/// Taking a tracee out (`take_tracee`) and putting it back unchanged
/// (`put_tracee`) leaves the tracees as they were.
pub proof fn law_take_then_put_restores(tracees: Map<i32, Tracee>, pid: i32)
    requires
        tracees.contains_key(pid),
        tracees[pid].pid == pid,
    ensures
        tracees.remove(pid).insert(tracees[pid].pid, tracees[pid]) == tracees,
{
    assert(tracees.remove(pid).insert(pid, tracees[pid]) =~= tracees);
}

proof fn lemma_filter_subset(s: Seq<i32>, pred: spec_fn(i32) -> bool, p: i32)
    requires
        s.filter(pred).contains(p),
    ensures
        s.contains(p),
    decreases s.len(),
{
    reveal(Seq::filter);
    if s.len() > 0 {
        let sub = s.drop_last().filter(pred);
        if pred(s.last()) && p == s.last() {
            assert(s[s.len() - 1] == p);
        } else {
            if pred(s.last()) {
                let j = choose|j: int| 0 <= j < s.filter(pred).len() && s.filter(pred)[j] == p;
                assert(j < sub.len());
                assert(sub[j] == p);
            }
            assert(sub.contains(p));
            lemma_filter_subset(s.drop_last(), pred, p);
            let k = choose|k: int| 0 <= k < s.drop_last().len() && s.drop_last()[k] == p;
            assert(s[k] == p);
        }
    }
}

} // verus!
