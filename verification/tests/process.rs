use holodekk::paths::HolodekkPaths;
use holodekk::process::daemon::{daemon_args, TerminationAction, TerminationPhase, Terminator};
use holodekk::process::pidfile::{parse_pid, pid_text, PidParseError};
use holodekk::process::PidSyncMessage;

#[test]
fn pidfile_round_trips() {
    for pid in [0, 1, 7, 42, 12345, i32::MAX, -1, -987, i32::MIN] {
        let text = pid_text(pid);
        assert_eq!(text, format!("{pid}"));
        assert_eq!(parse_pid(&text), Ok(pid));
    }
}

#[test]
fn pidfile_parse_matches_std() {
    for s in [
        "", "+", "-", "12", "+12", "-12", "1x", "x1", " 12", "12 ", "2147483647", "2147483648",
        "-2147483648", "-2147483649", "99999999999x", "00042", "+-1", "１２",
    ] {
        let ours = parse_pid(s);
        let std_result = s.parse::<i32>();
        match (ours, std_result) {
            (Ok(a), Ok(b)) => assert_eq!(a, b, "{s:?}"),
            (Err(e), Err(se)) => {
                let expected = match se.kind() {
                    std::num::IntErrorKind::Empty => PidParseError::Empty,
                    std::num::IntErrorKind::InvalidDigit => PidParseError::InvalidDigit,
                    std::num::IntErrorKind::PosOverflow => PidParseError::PosOverflow,
                    std::num::IntErrorKind::NegOverflow => PidParseError::NegOverflow,
                    k => panic!("unexpected kind {k:?}"),
                };
                assert_eq!(e, expected, "{s:?}");
            }
            (a, b) => panic!("{s:?}: {a:?} vs {b:?}"),
        }
    }
}

#[test]
fn sync_message_carries_pid() {
    let m = PidSyncMessage::new(123);
    assert_eq!(m.pid(), 123);
}

#[test]
fn daemon_arguments() {
    let paths = HolodekkPaths {
        data_root: "/var/lib/holodekk".to_string(),
        exec_root: "/run/holodekk".to_string(),
        bin_root: "/usr/local/bin".to_string(),
    };
    assert_eq!(
        daemon_args(&paths, 5),
        vec![
            "--data-root",
            "/var/lib/holodekk",
            "--exec-root",
            "/run/holodekk",
            "--bin-path",
            "/usr/local/bin",
            "--sync-pipe",
            "5"
        ]
    );
}

/// Runs the termination procedure against a scripted process: it is alive for
/// the first `alive_probes` probes.
fn run(alive_probes: usize) -> (TerminationAction, usize, bool) {
    let (mut t, mut action) = Terminator::start(0, -1);
    let mut probes = 0;
    let mut sleeps = 0;
    let mut killed = false;
    loop {
        match action {
            TerminationAction::Probe => {
                let alive = probes < alive_probes;
                probes += 1;
                (t, action) = t.probed(alive);
            }
            TerminationAction::Interrupt => (t, action) = t.interrupted(),
            TerminationAction::Sleep => {
                sleeps += 1;
                (t, action) = t.slept();
            }
            TerminationAction::Kill => {
                killed = true;
                (t, action) = t.killed();
            }
            done => {
                assert_eq!(t.current_phase(), TerminationPhase::Done);
                return (done, sleeps, killed);
            }
        }
    }
}

#[test]
fn termination_of_missing_process_reports_not_running() {
    assert_eq!(run(0), (TerminationAction::NotRunning, 0, false));
}

#[test]
fn termination_finishes_gracefully_when_process_stops() {
    assert_eq!(run(1), (TerminationAction::Finish(0), 0, false));
    assert_eq!(run(4), (TerminationAction::Finish(0), 3, false));
    assert_eq!(run(10), (TerminationAction::Finish(0), 9, false));
}

#[test]
fn termination_kills_after_ten_checks() {
    assert_eq!(run(11), (TerminationAction::Finish(-1), 10, true));
    assert_eq!(run(1000), (TerminationAction::Finish(-1), 10, true));
}
