use attention::detectors::check_detectors;
use attention::detectors::check_twice;
use attention::detectors::create_default_detectors;
use attention::detectors::AttentionDetector;
use attention::detectors::AttentionReason;
use attention::detectors::Detector;
use attention::detectors::ProcProbe;
use attention::detectors::ProcessStateDetector;
use attention::detectors::StallDetector;
use attention::detectors::StdinDetector;
use attention::detectors::Task;
use attention::detectors::TaskContext;

fn stat_record(state: &str, utime: u64, stime: u64) -> Vec<u8> {
    format!(
        "1234 (proc) {} 1 1 1 1 1 0 0 0 0 0 {} {} 0 0",
        state, utime, stime
    )
    .into_bytes()
}

fn context(last_cpu_time: Option<u64>, idle_duration: u64) -> TaskContext {
    TaskContext {
        pid: 1234,
        last_check: 0,
        last_cpu_time,
        idle_duration,
    }
}

fn probe(
    now: i64,
    stat: Option<Vec<u8>>,
    fd0: Option<&str>,
    stdin_probe: Option<&str>,
) -> ProcProbe {
    ProcProbe {
        now,
        stat,
        fd0_target: fd0.map(|s| s.as_bytes().to_vec()),
        stdin_probe: stdin_probe.map(|s| s.as_bytes().to_vec()),
    }
}

#[test]
fn test_attention_reason_display() {
    assert_eq!(
        AttentionReason::WaitingForInput.as_str(),
        "Waiting for input"
    );
    assert_eq!(
        AttentionReason::ProcessStalled.as_str(),
        "Process stalled (no activity)"
    );
    assert_eq!(AttentionReason::Custom("Test".to_string()).as_str(), "Test");
}

#[test]
fn test_detector_creation() {
    let detectors = create_default_detectors();
    assert_eq!(detectors.len(), 2); // ProcessState + Stall
}

#[test]
fn state_detector_emits_on_terminal_sleep() {
    // task age 15s, state S, descriptor 0 on a pty, idle 6s
    let d = ProcessStateDetector::new();
    let task = Task { created_at: 0 };
    let ctx = context(None, 6);
    let p = probe(15, Some(stat_record("S", 1, 1)), Some("/dev/pts/3"), None);
    let r = d.check(&task, &ctx, &p);
    assert!(matches!(r, Some(AttentionReason::WaitingForInput)));
}

#[test]
fn state_detector_age_gate() {
    // same conditions but task age 5s: nothing
    let d = ProcessStateDetector::new();
    let task = Task { created_at: 0 };
    let ctx = context(None, 6);
    let p = probe(5, Some(stat_record("S", 1, 1)), Some("/dev/pts/3"), None);
    assert!(d.check(&task, &ctx, &p).is_none());
}

#[test]
fn state_detector_idle_gate() {
    // idle exactly 5s is not enough
    let d = ProcessStateDetector::new();
    let task = Task { created_at: 0 };
    let ctx = context(None, 5);
    let p = probe(15, Some(stat_record("S", 1, 1)), Some("/dev/pts/3"), None);
    assert!(d.check(&task, &ctx, &p).is_none());
}

#[test]
fn state_detector_ignores_running_process() {
    let d = ProcessStateDetector::new();
    let task = Task { created_at: 0 };
    let ctx = context(None, 6);
    let p = probe(15, Some(stat_record("R", 1, 1)), Some("/dev/pts/3"), None);
    assert!(d.check(&task, &ctx, &p).is_none());
}

#[test]
fn state_detector_ignores_non_terminal_target() {
    let d = ProcessStateDetector::new();
    let task = Task { created_at: 0 };
    let ctx = context(None, 6);
    let p = probe(15, Some(stat_record("S", 1, 1)), Some("pipe:[421]"), None);
    assert!(d.check(&task, &ctx, &p).is_none());
}

#[test]
fn stall_detector_emits_on_no_progress() {
    // timeout 600s, age 40s, previous sample 1000, current 1000, idle 650s
    let d = StallDetector::new(600);
    let task = Task { created_at: 0 };
    let ctx = context(Some(1000), 650);
    let p = probe(40, Some(stat_record("S", 600, 400)), None, None);
    let r = d.check(&task, &ctx, &p);
    assert!(matches!(r, Some(AttentionReason::ProcessStalled)));
}

#[test]
fn stall_detector_sees_cpu_progress() {
    // same but current CPU time 1002: nothing
    let d = StallDetector::new(600);
    let task = Task { created_at: 0 };
    let ctx = context(Some(1000), 650);
    let p = probe(40, Some(stat_record("S", 601, 401)), None, None);
    assert!(d.check(&task, &ctx, &p).is_none());
}

#[test]
fn stall_detector_first_poll_never_stalls() {
    let d = StallDetector::new(600);
    let task = Task { created_at: 0 };
    let ctx = context(None, 650);
    let p = probe(40, Some(stat_record("S", 600, 400)), None, None);
    assert!(d.check(&task, &ctx, &p).is_none());
}

#[test]
fn stall_detector_age_gate() {
    let d = StallDetector::new(600);
    let task = Task { created_at: 0 };
    let ctx = context(Some(1000), 650);
    let p = probe(20, Some(stat_record("S", 600, 400)), None, None);
    assert!(d.check(&task, &ctx, &p).is_none());
}

#[test]
fn stdin_detector_emits_on_open_descriptor() {
    let d = StdinDetector::new();
    let task = Task { created_at: 0 };
    let ctx = context(None, 0);
    let out = "COMMAND PID USER FD TYPE\nproc 1234 user 0u CHR\n";
    let p = probe(40, None, None, Some(out));
    let r = d.check(&task, &ctx, &p);
    assert!(matches!(r, Some(AttentionReason::WaitingForInput)));
}

#[test]
fn stdin_detector_trivial_output_is_no_verdict() {
    let d = StdinDetector::new();
    let task = Task { created_at: 0 };
    let ctx = context(None, 0);
    let p = probe(40, None, None, Some("COMMAND PID USER FD TYPE\n"));
    assert!(d.check(&task, &ctx, &p).is_none());
}

#[test]
fn stdin_detector_age_gate() {
    let d = StdinDetector::new();
    let task = Task { created_at: 0 };
    let ctx = context(None, 0);
    let out = "COMMAND PID USER FD TYPE\nproc 1234 user 0u CHR\n";
    let p = probe(20, None, None, Some(out));
    assert!(d.check(&task, &ctx, &p).is_none());
}

#[test]
fn default_registry_contents() {
    // exactly the state-based then the stall-based detector, timeout 600s
    let detectors = create_default_detectors();
    assert_eq!(detectors.len(), 2);
    assert!(matches!(detectors[0], Detector::StateBased(_)));
    match &detectors[1] {
        Detector::StallBased(d) => assert_eq!(d.timeout, 600),
        _ => panic!("second detector is not the stall-based one"),
    }
    assert!(!detectors
        .iter()
        .any(|d| matches!(d, Detector::FileHandle(_))));
}

#[test]
fn failed_reads_give_no_verdict() {
    // every variant degrades to no verdict when the process cannot be read
    let task = Task { created_at: 0 };
    let ctx = context(Some(1000), 650);
    let p = probe(40, None, None, None);
    assert!(ProcessStateDetector::new().check(&task, &ctx, &p).is_none());
    assert!(StallDetector::new(600).check(&task, &ctx, &p).is_none());
    assert!(StdinDetector::new().check(&task, &ctx, &p).is_none());
    let registry = create_default_detectors();
    assert!(check_detectors(&registry, &task, &ctx, &p).is_none());
}

#[test]
fn malformed_record_gives_no_verdict() {
    let task = Task { created_at: 0 };
    let ctx = context(Some(1000), 650);
    let p = probe(40, Some(b"1234 (proc)".to_vec()), Some("/dev/pts/0"), None);
    assert!(ProcessStateDetector::new().check(&task, &ctx, &p).is_none());
    assert!(StallDetector::new(600).check(&task, &ctx, &p).is_none());
}

#[test]
fn detectors_are_idempotent() {
    let task = Task { created_at: 0 };
    let ctx = context(Some(1000), 650);
    let p = probe(
        40,
        Some(stat_record("S", 600, 400)),
        Some("/dev/pts/3"),
        None,
    );
    let state = ProcessStateDetector::new();
    let (a, b) = check_twice(&state, &task, &ctx, &p);
    assert_eq!(a, b);
    let stall = StallDetector::new(600);
    assert_eq!(
        stall.check(&task, &ctx, &p),
        stall.check(&task, &ctx, &p)
    );
}

#[test]
fn registry_first_verdict_wins() {
    // both default detectors would fire; the state-based one comes first
    let registry = create_default_detectors();
    let task = Task { created_at: 0 };
    let ctx = context(Some(1000), 650);
    let p = probe(
        40,
        Some(stat_record("S", 600, 400)),
        Some("/dev/pts/3"),
        None,
    );
    let r = check_detectors(&registry, &task, &ctx, &p);
    assert!(matches!(r, Some(AttentionReason::WaitingForInput)));

    // with the descriptor away from a terminal, only the stall detector fires
    let p2 = probe(40, Some(stat_record("S", 600, 400)), None, None);
    let r2 = check_detectors(&registry, &task, &ctx, &p2);
    assert!(matches!(r2, Some(AttentionReason::ProcessStalled)));
}
