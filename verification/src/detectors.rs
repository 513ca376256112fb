//! The attention detectors and their registry.
//!
//! Each detector is one heuristic over a task descriptor, the caller's
//! polling context, and one poll's raw operating-system observations. A
//! detector is a pure function of those inputs: its `verdict` spec says
//! exactly what `check` returns, so identical arguments always yield
//! identical results, and no failure to read the OS ever surfaces as an
//! error — it only withholds a verdict.

use vstd::prelude::*;

use crate::probe::is_multi_line;
use crate::probe::is_terminal_target;
use crate::probe::spec_multi_line;
use crate::probe::spec_terminal_target;
use crate::stat::combined_cpu;
use crate::stat::spec_combined_cpu;
use crate::stat::spec_state_field;
use crate::stat::state_field;

verus! {

/// Why a monitored process needs human attention.
#[derive(Debug, Clone, PartialEq)]
pub enum AttentionReason {
    /// The process appears blocked waiting for interactive input.
    WaitingForInput,
    /// The process has made no CPU progress for an abnormal duration.
    ProcessStalled,
    /// Any other reason, carried as free text.
    Custom(String),
}

impl AttentionReason {
    /// The human-readable rendering of the reason.
    pub open spec fn spec_str(self) -> Seq<char> {
        match self {
            AttentionReason::WaitingForInput => "Waiting for input"@,
            AttentionReason::ProcessStalled => "Process stalled (no activity)"@,
            AttentionReason::Custom(s) => s@,
        }
    }

    /// Render the reason for a human.
    pub fn as_str(&self) -> (r: String)
        ensures
            r@ == self.spec_str(),
    {
        match self {
            AttentionReason::WaitingForInput => "Waiting for input".to_owned(),
            AttentionReason::ProcessStalled => "Process stalled (no activity)".to_owned(),
            AttentionReason::Custom(s) => s.clone(),
        }
    }
}

/// What the detectors read of a task: its creation time, in whole seconds of
/// the caller's wall clock. The task itself is owned elsewhere.
#[derive(Debug, Clone, Copy, PartialEq, Eq, Structural)]
pub struct Task {
    pub created_at: i64,
}

/// The caller's polling context, produced fresh on every poll: the process
/// id under watch, when the caller last checked (whole seconds of the wall
/// clock), the combined CPU time the previous poll carried forward, and how
/// long the process has been idle, in whole seconds.
#[derive(Debug, Clone, Copy)]
pub struct TaskContext {
    pub pid: i32,
    pub last_check: u64,
    pub last_cpu_time: Option<u64>,
    pub idle_duration: u64,
}

/// One poll's raw operating-system observations, read by the caller and
/// handed in as plain bytes: the wall clock in whole seconds, the process's
/// status record, the resolved target of descriptor 0, and the diagnostic
/// tool's output for descriptor 0. `None` marks a read that failed — an
/// exited process, a closed descriptor, a denied permission.
#[derive(Debug, Clone)]
pub struct ProcProbe {
    pub now: i64,
    pub stat: Option<Vec<u8>>,
    pub fd0_target: Option<Vec<u8>>,
    pub stdin_probe: Option<Vec<u8>>,
}

/// The age of the task at the probed instant, in whole seconds.
pub open spec fn task_age(task: Task, probe: ProcProbe) -> int {
    probe.now - task.created_at
}

/// The scheduling-state field the status record reports, when the record
/// was read and holds one.
pub open spec fn probe_state(probe: ProcProbe) -> Option<Seq<u8>> {
    match probe.stat {
        Some(s) => spec_state_field(s@),
        None => None,
    }
}

/// The combined CPU time the status record reports, when the record was
/// read and its CPU fields parse.
pub open spec fn probe_cpu(probe: ProcProbe) -> Option<u64> {
    match probe.stat {
        Some(s) => spec_combined_cpu(s@),
        None => None,
    }
}

/// The process is in interruptible sleep (state code `S`) with descriptor 0
/// resolved to an interactive terminal.
pub open spec fn sleeping_on_terminal(probe: ProcProbe) -> bool {
    &&& probe_state(probe) == Some(seq![83u8])
    &&& match probe.fd0_target {
        Some(t) => spec_terminal_target(t@),
        None => false,
    }
}

/// The diagnostic tool reported more than one line for descriptor 0, the
/// coarse sign that the process holds standard input open for reading.
pub open spec fn reading_stdin(probe: ProcProbe) -> bool {
    match probe.stdin_probe {
        Some(out) => spec_multi_line(out@),
        None => false,
    }
}

/// One attention heuristic. `verdict` says exactly what `check` returns, so
/// a detector is a pure function of its arguments: two calls on identical
/// inputs yield identical results, and a failed OS read only withholds the
/// verdict.
pub trait AttentionDetector: Send {
    /// What this heuristic decides on these inputs.
    spec fn verdict(&self, task: Task, context: TaskContext, probe: ProcProbe) -> Option<
        AttentionReason,
    >;

    /// Apply the heuristic to one poll's observations.
    fn check(&self, task: &Task, context: &TaskContext, probe: &ProcProbe) -> (r: Option<
        AttentionReason,
    >)
        ensures
            r == self.verdict(*task, *context, *probe),
    ;
}

/// Flags a process that sleeps on a terminal-connected standard input: it is
/// likely waiting for a human to type. To suppress false positives from
/// normal short sleeps, a verdict needs the task older than ten seconds and
/// the idle duration over five.
#[derive(Debug, Clone, Copy, PartialEq, Eq, Structural)]
pub struct ProcessStateDetector;

impl ProcessStateDetector {
    pub fn new() -> (r: Self)
        ensures
            r == (ProcessStateDetector {  }),
    {
        Self
    }
}

impl AttentionDetector for ProcessStateDetector {
    open spec fn verdict(&self, task: Task, context: TaskContext, probe: ProcProbe) -> Option<
        AttentionReason,
    > {
        if sleeping_on_terminal(probe) && task_age(task, probe) > 10 && context.idle_duration
            > 5 {
            Some(AttentionReason::WaitingForInput)
        } else {
            None
        }
    }

    fn check(&self, task: &Task, context: &TaskContext, probe: &ProcProbe) -> (r: Option<
        AttentionReason,
    >) {
        let is_sleeping: bool = match &probe.stat {
            Some(s) => match state_field(s.as_slice()) {
                Some(tok) => {
                    let one_s = tok.len() == 1 && tok[0] == 83;
                    proof {
                        if one_s {
                            assert(tok@ =~= seq![83u8]);
                        }
                    }
                    one_s
                },
                None => false,
            },
            None => false,
        };
        let on_terminal: bool = match &probe.fd0_target {
            Some(t) => is_terminal_target(t.as_slice()),
            None => false,
        };
        if is_sleeping && on_terminal {
            let age: i128 = probe.now as i128 - task.created_at as i128;
            if age > 10 && context.idle_duration > 5 {
                return Some(AttentionReason::WaitingForInput);
            }
        }
        None
    }
}

/// Flags a process whose combined CPU time has not moved since the previous
/// poll while the caller-tracked idle duration exceeds the configured
/// timeout. A fresh process shows no CPU delta on its first poll, so a
/// verdict also needs a previous sample and the task older than thirty
/// seconds.
#[derive(Debug, Clone, Copy, PartialEq, Eq, Structural)]
pub struct StallDetector {
    /// The idle duration past which no CPU progress counts as a stall, in
    /// whole seconds.
    pub timeout: u64,
}

impl StallDetector {
    pub fn new(timeout: u64) -> (r: Self)
        ensures
            r == (StallDetector { timeout }),
    {
        Self { timeout }
    }
}

impl AttentionDetector for StallDetector {
    open spec fn verdict(&self, task: Task, context: TaskContext, probe: ProcProbe) -> Option<
        AttentionReason,
    > {
        match (probe_cpu(probe), context.last_cpu_time) {
            (Some(current), Some(last)) => {
                if current == last && context.idle_duration > self.timeout && task_age(task, probe)
                    > 30 {
                    Some(AttentionReason::ProcessStalled)
                } else {
                    None
                }
            },
            _ => None,
        }
    }

    fn check(&self, task: &Task, context: &TaskContext, probe: &ProcProbe) -> (r: Option<
        AttentionReason,
    >) {
        let current: Option<u64> = match &probe.stat {
            Some(s) => combined_cpu(s.as_slice()),
            None => None,
        };
        if let Some(current_cpu) = current {
            if let Some(last_cpu) = context.last_cpu_time {
                if current_cpu == last_cpu && context.idle_duration > self.timeout {
                    let age: i128 = probe.now as i128 - task.created_at as i128;
                    if age > 30 {
                        return Some(AttentionReason::ProcessStalled);
                    }
                }
            }
        }
        None
    }
}

/// Flags a process that the external diagnostic tool shows holding standard
/// input open for reading. More invasive than the state-based heuristic and
/// excluded from the default registry. Gated by a task age over thirty
/// seconds so normal startup reads pass unflagged.
#[derive(Debug, Clone, Copy, PartialEq, Eq, Structural)]
pub struct StdinDetector;

impl StdinDetector {
    pub fn new() -> (r: Self)
        ensures
            r == (StdinDetector {  }),
    {
        Self
    }
}

impl AttentionDetector for StdinDetector {
    open spec fn verdict(&self, task: Task, context: TaskContext, probe: ProcProbe) -> Option<
        AttentionReason,
    > {
        if reading_stdin(probe) && task_age(task, probe) > 30 {
            Some(AttentionReason::WaitingForInput)
        } else {
            None
        }
    }

    fn check(&self, task: &Task, context: &TaskContext, probe: &ProcProbe) -> (r: Option<
        AttentionReason,
    >) {
        let reading: bool = match &probe.stdin_probe {
            Some(out) => is_multi_line(out.as_slice()),
            None => false,
        };
        if reading {
            let age: i128 = probe.now as i128 - task.created_at as i128;
            if age > 30 {
                return Some(AttentionReason::WaitingForInput);
            }
        }
        None
    }
}

/// One registered detector: the closed set of heuristic variants a registry
/// can hold.
#[derive(Debug, Clone, Copy)]
pub enum Detector {
    StateBased(ProcessStateDetector),
    StallBased(StallDetector),
    FileHandle(StdinDetector),
}

impl AttentionDetector for Detector {
    open spec fn verdict(&self, task: Task, context: TaskContext, probe: ProcProbe) -> Option<
        AttentionReason,
    > {
        match self {
            Detector::StateBased(d) => d.verdict(task, context, probe),
            Detector::StallBased(d) => d.verdict(task, context, probe),
            Detector::FileHandle(d) => d.verdict(task, context, probe),
        }
    }

    fn check(&self, task: &Task, context: &TaskContext, probe: &ProcProbe) -> (r: Option<
        AttentionReason,
    >) {
        match self {
            Detector::StateBased(d) => d.check(task, context, probe),
            Detector::StallBased(d) => d.check(task, context, probe),
            Detector::FileHandle(d) => d.check(task, context, probe),
        }
    }
}

/// The default registry: exactly the state-based and stall-based detectors,
/// in that order, with the stall timeout at 600 seconds. The file-handle
/// detector needs the external diagnostic tool and is deliberately left out.
pub fn create_default_detectors() -> (r: Vec<Detector>)
    ensures
        r@.len() == 2,
        r@[0] == Detector::StateBased(ProcessStateDetector {  }),
        r@[1] == Detector::StallBased((StallDetector { timeout: 600 })),
{
    let mut v: Vec<Detector> = Vec::new();
    v.push(Detector::StateBased(ProcessStateDetector::new()));
    v.push(Detector::StallBased(StallDetector::new(600)));
    v
}

/// The first verdict the detectors give, in registry order.
pub open spec fn first_verdict(
    ds: Seq<Detector>,
    task: Task,
    context: TaskContext,
    probe: ProcProbe,
) -> Option<AttentionReason>
    decreases ds.len(),
{
    if ds.len() == 0 {
        None
    } else if ds[0].verdict(task, context, probe) is Some {
        ds[0].verdict(task, context, probe)
    } else {
        first_verdict(ds.drop_first(), task, context, probe)
    }
}

/// Run the registered detectors in order; the first verdict wins.
pub fn check_detectors(
    detectors: &Vec<Detector>,
    task: &Task,
    context: &TaskContext,
    probe: &ProcProbe,
) -> (r: Option<AttentionReason>)
    ensures
        r == first_verdict(detectors@, *task, *context, *probe),
{
    let mut i: usize = 0;
    proof {
        assert(detectors@.skip(0) =~= detectors@);
    }
    while i < detectors.len()
        invariant
            i <= detectors@.len(),
            first_verdict(detectors@, *task, *context, *probe) == first_verdict(
                detectors@.skip(i as int),
                *task,
                *context,
                *probe,
            ),
        decreases detectors@.len() - i,
    {
        proof {
            assert(detectors@.skip(i as int)[0] == detectors@[i as int]);
            assert(detectors@.skip(i as int).drop_first() =~= detectors@.skip(i as int + 1));
        }
        let r = (&detectors[i]).check(task, context, probe);
        if r.is_some() {
            return r;
        }
        i = i + 1;
    }
    proof {
        assert(detectors@.skip(i as int) =~= Seq::<Detector>::empty());
    }
    None
}

/// A detector holds no hidden state: two checks of one detector on
/// identical arguments agree.
pub fn check_twice<D: AttentionDetector>(
    detector: &D,
    task: &Task,
    context: &TaskContext,
    probe: &ProcProbe,
) -> (r: (Option<AttentionReason>, Option<AttentionReason>))
    ensures
        r.0 == r.1,
        r.0 == detector.verdict(*task, *context, *probe),
{
    let first = detector.check(task, context, probe);
    let second = detector.check(task, context, probe);
    (first, second)
}

/// A task younger than ten seconds never draws a verdict from the
/// state-based detector, whatever the process state, the descriptor target,
/// or the idle duration.
pub proof fn lemma_state_detector_age_gate(
    d: ProcessStateDetector,
    task: Task,
    context: TaskContext,
    probe: ProcProbe,
)
    requires
        task_age(task, probe) < 10,
    ensures
        d.verdict(task, context, probe) is None,
{
}

/// An idle duration of five seconds or less never draws a verdict from the
/// state-based detector, even for a process sleeping on a terminal-connected
/// descriptor.
pub proof fn lemma_state_detector_idle_gate(
    d: ProcessStateDetector,
    task: Task,
    context: TaskContext,
    probe: ProcProbe,
)
    requires
        context.idle_duration <= 5,
    ensures
        d.verdict(task, context, probe) is None,
{
}

/// On a first poll — no previous CPU sample in the context — the stall-based
/// detector never reports a stall.
pub proof fn lemma_stall_detector_first_poll(
    d: StallDetector,
    task: Task,
    context: TaskContext,
    probe: ProcProbe,
)
    requires
        context.last_cpu_time is None,
    ensures
        d.verdict(task, context, probe) is None,
{
}

/// When the current and previous combined CPU times differ, the stall-based
/// detector never reports a stall, regardless of the idle duration.
pub proof fn lemma_stall_detector_progress(
    d: StallDetector,
    task: Task,
    context: TaskContext,
    probe: ProcProbe,
)
    requires
        probe_cpu(probe) is Some,
        context.last_cpu_time is Some,
        probe_cpu(probe) != context.last_cpu_time,
    ensures
        d.verdict(task, context, probe) is None,
{
}

} // verus!
