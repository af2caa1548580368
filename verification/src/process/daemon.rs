//! Daemon management: the arguments a daemon is launched with, and the
//! procedure by which a daemon is terminated.
//!
//! Termination first checks that the process exists, then asks it to stop
//! (SIGINT) and checks on it once a second; if it is still running after ten
//! checks, it is killed (SIGKILL) and reaped.  The procedure is a state machine:
//! the caller performs each action it is handed and reports back.

use vstd::prelude::*;

use crate::paths::HolodekkPaths;
use crate::process::pidfile::{pid_text, pid_text_of};

verus! {

/// How many times a stopping process is checked on before it is killed.
pub const MAX_POLLS: u32 = 10;

/// The arguments that tell a daemon where Holodekk keeps its files, and which
/// pipe to report its pid on.
pub open spec fn daemon_args_spec(paths: &HolodekkPaths, child_fd: i32) -> Seq<Seq<char>> {
    seq![
        "--data-root"@,
        paths.data_root@,
        "--exec-root"@,
        paths.exec_root@,
        "--bin-path"@,
        paths.bin_root@,
        "--sync-pipe"@,
        pid_text_of(child_fd as int),
    ]
}

/// The views of a list of texts.
pub open spec fn texts(v: Seq<String>) -> Seq<Seq<char>> {
    v.map_values(|s: String| s@)
}

/// The arguments appended to a daemon's command line.
pub fn daemon_args(paths: &HolodekkPaths, child_fd: i32) -> (args: Vec<String>)
    ensures
        texts(args@) == daemon_args_spec(paths, child_fd),
{
    let mut args: Vec<String> = Vec::new();
    args.push("--data-root".to_owned());
    args.push(paths.data_root.clone());
    args.push("--exec-root".to_owned());
    args.push(paths.exec_root.clone());
    args.push("--bin-path".to_owned());
    args.push(paths.bin_root.clone());
    args.push("--sync-pipe".to_owned());
    args.push(pid_text(child_fd));
    assert(texts(args@) =~= daemon_args_spec(paths, child_fd));
    args
}

/// Where a termination stands.
#[derive(Clone, Copy, Debug, PartialEq, Eq, Structural)]
pub enum TerminationPhase {
    /// The process has not been looked at yet.
    Start,
    /// The process exists; it is to be asked to stop.
    Interrupting,
    /// The process was asked to stop and has been found running this many times.
    Polling(u32),
    /// The process was found running; a pause is due before the next check.
    Waiting(u32),
    /// The process outlasted every check; it is to be killed.
    Killing,
    /// The procedure is over.
    Done,
}

/// What the caller is to do next.
#[derive(Clone, Copy, Debug, PartialEq, Eq, Structural)]
pub enum TerminationAction {
    /// Check whether the process exists, and report it.
    Probe,
    /// Send SIGINT to the process.
    Interrupt,
    /// Pause for a second.
    Sleep,
    /// Send SIGKILL to the process and wait for it.
    Kill,
    /// Stop: the process was terminated; the procedure answers with this code.
    Finish(i32),
    /// Stop: no process exists with the pid.
    NotRunning,
}

/// The next phase and action once the caller reports what it did or saw:
/// `alive` is the outcome of a probe (ignored after other actions).
pub open spec fn step(phase: TerminationPhase, alive: bool, graceful: i32, forced: i32) -> (
    TerminationPhase,
    TerminationAction,
) {
    match phase {
        TerminationPhase::Start => if alive {
            (TerminationPhase::Interrupting, TerminationAction::Interrupt)
        } else {
            (TerminationPhase::Done, TerminationAction::NotRunning)
        },
        TerminationPhase::Interrupting => (TerminationPhase::Polling(0), TerminationAction::Probe),
        TerminationPhase::Polling(n) => if alive {
            (TerminationPhase::Waiting((n + 1) as u32), TerminationAction::Sleep)
        } else {
            (TerminationPhase::Done, TerminationAction::Finish(graceful))
        },
        TerminationPhase::Waiting(n) => if n < MAX_POLLS {
            (TerminationPhase::Polling(n), TerminationAction::Probe)
        } else {
            (TerminationPhase::Killing, TerminationAction::Kill)
        },
        TerminationPhase::Killing => (TerminationPhase::Done, TerminationAction::Finish(forced)),
        TerminationPhase::Done => (TerminationPhase::Done, TerminationAction::NotRunning),
    }
}

/// Rank of a phase among those reached without a probe.
pub open spec fn phase_rank(phase: TerminationPhase) -> nat {
    match phase {
        TerminationPhase::Start => 3,
        TerminationPhase::Interrupting => 2,
        TerminationPhase::Waiting(_) => 2,
        TerminationPhase::Polling(_) => 1,
        _ => 0,
    }
}

/// The first stopping action met when the procedure runs from `phase` and the
/// probes it makes report `probes`, in order; `Probe` when the probes run out.
pub open spec fn drive(
    phase: TerminationPhase,
    probes: Seq<bool>,
    graceful: i32,
    forced: i32,
) -> TerminationAction
    decreases probes.len(), phase_rank(phase),
{
    match phase {
        TerminationPhase::Start | TerminationPhase::Polling(_) => if probes.len() == 0 {
            TerminationAction::Probe
        } else {
            let (p, a) = step(phase, probes[0], graceful, forced);
            if a is Finish || a is NotRunning {
                a
            } else {
                drive(p, probes.drop_first(), graceful, forced)
            }
        },
        TerminationPhase::Interrupting => drive(TerminationPhase::Polling(0), probes, graceful, forced),
        TerminationPhase::Waiting(n) => if n < MAX_POLLS {
            drive(TerminationPhase::Polling(n), probes, graceful, forced)
        } else {
            TerminationAction::Finish(forced)
        },
        TerminationPhase::Killing => TerminationAction::Finish(forced),
        TerminationPhase::Done => TerminationAction::NotRunning,
    }
}

proof fn lemma_drive_polling(n: u32, probes: Seq<bool>, graceful: i32, forced: i32)
    requires
        n < MAX_POLLS,
        probes.len() >= MAX_POLLS - n,
    ensures
        drive(TerminationPhase::Polling(n), probes, graceful, forced) == if forall|i: int|
            0 <= i < MAX_POLLS - n ==> #[trigger] probes[i] {
            TerminationAction::Finish(forced)
        } else {
            TerminationAction::Finish(graceful)
        },
    decreases MAX_POLLS - n,
{
    let rest = probes.drop_first();
    let w = TerminationPhase::Waiting((n + 1) as u32);
    if probes[0] {
        assert(drive(TerminationPhase::Polling(n), probes, graceful, forced) == drive(w, rest, graceful, forced));
    }
    if probes[0] && n + 1 < MAX_POLLS {
        assert(drive(w, rest, graceful, forced) == drive(TerminationPhase::Polling((n + 1) as u32), rest, graceful, forced));
        lemma_drive_polling((n + 1) as u32, rest, graceful, forced);
        assert((forall|i: int| 0 <= i < MAX_POLLS - n ==> #[trigger] probes[i]) == (forall|i: int|
            0 <= i < MAX_POLLS - (n + 1) ==> #[trigger] rest[i])) by {
            if forall|i: int| 0 <= i < MAX_POLLS - (n + 1) ==> #[trigger] rest[i] {
                assert forall|i: int| 0 <= i < MAX_POLLS - n implies #[trigger] probes[i] by {
                    if i > 0 {
                        assert(probes[i] == rest[i - 1]);
                    }
                }
            }
            if forall|i: int| 0 <= i < MAX_POLLS - n ==> #[trigger] probes[i] {
                assert forall|i: int| 0 <= i < MAX_POLLS - (n + 1) implies #[trigger] rest[i] by {
                    assert(rest[i] == probes[i + 1]);
                }
            }
        }
    } else if !probes[0] {
    } else {
        assert forall|i: int| 0 <= i < MAX_POLLS - n implies #[trigger] probes[i] by {
            assert(i == 0);
        }
    }
}

/// Termination, end to end: with no process the procedure reports that nothing
/// was running; otherwise it asks the process to stop and answers the graceful
/// code as soon as a check finds it gone, and the forced code — after killing
/// it — only when all ten checks found it still running.
pub proof fn lemma_termination_outcome(probes: Seq<bool>, graceful: i32, forced: i32)
    requires
        probes.len() > MAX_POLLS,
    ensures
        drive(TerminationPhase::Start, probes, graceful, forced) == if !probes[0] {
            TerminationAction::NotRunning
        } else if forall|i: int| 1 <= i <= MAX_POLLS ==> #[trigger] probes[i] {
            TerminationAction::Finish(forced)
        } else {
            TerminationAction::Finish(graceful)
        },
{
    if probes[0] {
        let rest = probes.drop_first();
        assert(drive(TerminationPhase::Start, probes, graceful, forced) == drive(TerminationPhase::Interrupting, rest, graceful, forced));
        assert(drive(TerminationPhase::Interrupting, rest, graceful, forced) == drive(TerminationPhase::Polling(0), rest, graceful, forced));
        lemma_drive_polling(0, rest, graceful, forced);
        assert((forall|i: int| 1 <= i <= MAX_POLLS ==> #[trigger] probes[i]) == (forall|i: int|
            0 <= i < MAX_POLLS ==> #[trigger] rest[i])) by {
            if forall|i: int| 0 <= i < MAX_POLLS ==> #[trigger] rest[i] {
                assert forall|i: int| 1 <= i <= MAX_POLLS implies #[trigger] probes[i] by {
                    assert(probes[i] == rest[i - 1]);
                }
            }
            if forall|i: int| 1 <= i <= MAX_POLLS ==> #[trigger] probes[i] {
                assert forall|i: int| 0 <= i < MAX_POLLS implies #[trigger] rest[i] by {
                    assert(rest[i] == probes[i + 1]);
                }
            }
        }
    }
}

/// The termination procedure for one process.
#[derive(Clone, Copy, Debug)]
pub struct Terminator {
    phase: TerminationPhase,
    graceful_code: i32,
    forced_code: i32,
}

impl Terminator {
    /// Where the procedure stands.
    pub closed spec fn phase(&self) -> TerminationPhase {
        self.phase
    }

    /// The code answered when the process stops after being asked to.
    pub closed spec fn graceful(&self) -> i32 {
        self.graceful_code
    }

    /// The code answered when the process had to be killed.
    pub closed spec fn forced(&self) -> i32 {
        self.forced_code
    }

    /// Where the procedure stands.
    pub fn current_phase(&self) -> (p: TerminationPhase)
        ensures
            p == self.phase(),
    {
        self.phase
    }

    /// The procedure is in a state it can be in.
    pub open spec fn wf(&self) -> bool {
        match self.phase() {
            TerminationPhase::Polling(n) => n < MAX_POLLS,
            TerminationPhase::Waiting(n) => 1 <= n <= MAX_POLLS,
            _ => true,
        }
    }

    /// Starts a termination that answers `graceful_code` when the process stops
    /// on request and `forced_code` when it has to be killed; the first thing
    /// to do is to check that the process exists.
    pub fn start(graceful_code: i32, forced_code: i32) -> (r: (Self, TerminationAction))
        ensures
            r.0.wf(),
            r.0.phase() == TerminationPhase::Start,
            r.0.graceful() == graceful_code,
            r.0.forced() == forced_code,
            r.1 == TerminationAction::Probe,
    {
        (Terminator { phase: TerminationPhase::Start, graceful_code, forced_code }, TerminationAction::Probe)
    }

    /// The outcome of a probe: whether the process exists.
    pub fn probed(self, alive: bool) -> (r: (Self, TerminationAction))
        requires
            self.wf(),
            self.phase() is Start || self.phase() is Polling,
        ensures
            r.0.wf(),
            r.0.graceful() == self.graceful(),
            r.0.forced() == self.forced(),
            (r.0.phase(), r.1) == step(self.phase(), alive, self.graceful(), self.forced()),
    {
        match self.phase {
            TerminationPhase::Start => if alive {
                (Terminator { phase: TerminationPhase::Interrupting, ..self }, TerminationAction::Interrupt)
            } else {
                (Terminator { phase: TerminationPhase::Done, ..self }, TerminationAction::NotRunning)
            },
            TerminationPhase::Polling(n) => if alive {
                (Terminator { phase: TerminationPhase::Waiting(n + 1), ..self }, TerminationAction::Sleep)
            } else {
                (
                    Terminator { phase: TerminationPhase::Done, ..self },
                    TerminationAction::Finish(self.graceful_code),
                )
            },
            _ => (self, TerminationAction::NotRunning),
        }
    }

    /// SIGINT was sent; the process is to be checked on.
    pub fn interrupted(self) -> (r: (Self, TerminationAction))
        requires
            self.wf(),
            self.phase() is Interrupting,
        ensures
            r.0.wf(),
            r.0.graceful() == self.graceful(),
            r.0.forced() == self.forced(),
            (r.0.phase(), r.1) == step(self.phase(), false, self.graceful(), self.forced()),
    {
        (Terminator { phase: TerminationPhase::Polling(0), ..self }, TerminationAction::Probe)
    }

    /// The pause is over: check on the process again, or kill it after the last check.
    pub fn slept(self) -> (r: (Self, TerminationAction))
        requires
            self.wf(),
            self.phase() is Waiting,
        ensures
            r.0.wf(),
            r.0.graceful() == self.graceful(),
            r.0.forced() == self.forced(),
            (r.0.phase(), r.1) == step(self.phase(), false, self.graceful(), self.forced()),
    {
        match self.phase {
            TerminationPhase::Waiting(n) => if n < MAX_POLLS {
                (Terminator { phase: TerminationPhase::Polling(n), ..self }, TerminationAction::Probe)
            } else {
                (Terminator { phase: TerminationPhase::Killing, ..self }, TerminationAction::Kill)
            },
            _ => (self, TerminationAction::Kill),
        }
    }

    /// The process was killed and reaped.
    pub fn killed(self) -> (r: (Self, TerminationAction))
        requires
            self.wf(),
            self.phase() is Killing,
        ensures
            r.0.wf(),
            r.0.graceful() == self.graceful(),
            r.0.forced() == self.forced(),
            (r.0.phase(), r.1) == step(self.phase(), false, self.graceful(), self.forced()),
    {
        (Terminator { phase: TerminationPhase::Done, ..self }, TerminationAction::Finish(self.forced_code))
    }
}

} // verus!
