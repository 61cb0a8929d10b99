//! One step: what it runs, where its output is archived, and how the way its
//! process ended becomes a pass or a fail.

use vstd::prelude::*;

verus! {

/// An immutable description of one step of a run.
#[derive(Debug)]
pub struct StepSpec {
    /// What the row shows while the step is in flight.
    pub label: String,
    /// What the row shows once the step has passed.
    pub passed: String,
    /// What the row shows once the step has failed.
    pub failed: String,
    /// The name under which the step's output is archived; unique within a run.
    pub log_name: String,
    /// The program to launch.
    pub program: String,
    /// Its arguments, in order.
    pub args: Vec<String>,
    /// The terminal row reserved for this step's status line.
    pub row: u16,
}

/// The mathematical value of a [`StepSpec`].
pub ghost struct StepView {
    pub label: Seq<char>,
    pub passed: Seq<char>,
    pub failed: Seq<char>,
    pub log_name: Seq<char>,
    pub program: Seq<char>,
    pub args: Seq<Seq<char>>,
    pub row: u16,
}

impl View for StepSpec {
    type V = StepView;

    open spec fn view(&self) -> StepView {
        StepView {
            label: self.label@,
            passed: self.passed@,
            failed: self.failed@,
            log_name: self.log_name@,
            program: self.program@,
            args: self.args@.map_values(|a: String| a@),
            row: self.row,
        }
    }
}

/// How a step's process came to an end, as its supervisor observed it.
#[derive(Clone, Copy, Debug, PartialEq, Eq, Structural)]
pub enum ProcessEnd {
    /// The process exited with this status code.
    Exited(i32),
    /// The process was ended by a signal and has no status code.
    Signaled,
    /// The process could not be started (not found, not executable, ...).
    SpawnFailed,
    /// The process was started but waiting for it failed.
    WaitFailed,
}

/// A step passes exactly when its process exited with status 0.
pub open spec fn passes(end: ProcessEnd) -> bool {
    end == ProcessEnd::Exited(0)
}

/// Whether a step whose process ended as `end` passed.
pub fn succeeded(end: ProcessEnd) -> (r: bool)
    ensures
        r == passes(end),
{
    match end {
        ProcessEnd::Exited(code) => code == 0,
        _ => false,
    }
}

/// The two streams of a step that are archived.
#[derive(Clone, Copy, Debug, PartialEq, Eq, Structural)]
pub enum Stream {
    Stdout,
    Stderr,
}

/// The directory name under the log directory that holds one stream's files.
pub open spec fn stream_dir(s: Stream) -> Seq<char> {
    match s {
        Stream::Stdout => seq!['s', 't', 'd', 'o', 'u', 't'],
        Stream::Stderr => seq!['s', 't', 'd', 'e', 'r', 'r'],
    }
}

/// `<log_dir>/<stream>/<log_name>`.
pub open spec fn log_path_of(log_dir: Seq<char>, s: Stream, log_name: Seq<char>) -> Seq<char> {
    log_dir + seq!['/'] + stream_dir(s) + seq!['/'] + log_name
}

/// `<log_dir>/<stream>`: the directory that must exist before any step runs.
pub open spec fn stream_dir_path_of(log_dir: Seq<char>, s: Stream) -> Seq<char> {
    log_dir + seq!['/'] + stream_dir(s)
}

/// The directory that holds the archived `s` streams of every step.
pub fn stream_dir_path(log_dir: &str, s: Stream) -> (r: String)
    ensures
        r@ == stream_dir_path_of(log_dir@, s),
{
    proof {
        reveal_strlit("/");
        reveal_strlit("stdout");
        reveal_strlit("stderr");
        assert("/"@ =~= seq!['/']);
        assert("stdout"@ =~= stream_dir(Stream::Stdout));
        assert("stderr"@ =~= stream_dir(Stream::Stderr));
    }
    let mut p = String::from_str(log_dir);
    p.append("/");
    match s {
        Stream::Stdout => p.append("stdout"),
        Stream::Stderr => p.append("stderr"),
    }
    p
}

/// The file that archives stream `s` of the step named `log_name`.
pub fn log_path(log_dir: &str, s: Stream, log_name: &str) -> (r: String)
    ensures
        r@ == log_path_of(log_dir@, s, log_name@),
{
    proof {
        reveal_strlit("/");
        assert("/"@ =~= seq!['/']);
    }
    let mut p = stream_dir_path(log_dir, s);
    p.append("/");
    p.append(log_name);
    p
}

/// The result of running one step.
#[derive(Debug)]
pub struct StepOutcome {
    pub label: String,
    pub succeeded: bool,
    /// Where the step's standard output was archived.
    pub stdout_log: String,
    /// Where the step's standard error was archived.
    pub stderr_log: String,
}

/// What running `spec` yields when its process ended as `end`.
pub open spec fn outcome_matches(o: StepOutcome, log_dir: Seq<char>, spec: StepView, end: ProcessEnd) -> bool {
    &&& o.label@ == spec.label
    &&& o.succeeded == passes(end)
    &&& o.stdout_log@ == log_path_of(log_dir, Stream::Stdout, spec.log_name)
    &&& o.stderr_log@ == log_path_of(log_dir, Stream::Stderr, spec.log_name)
}

/// Records the outcome of `spec`, whose process ended as `end`, with its
/// output archived under `log_dir`.
pub fn outcome(log_dir: &str, spec: &StepSpec, end: ProcessEnd) -> (r: StepOutcome)
    ensures
        outcome_matches(r, log_dir@, spec@, end),
{
    StepOutcome {
        label: spec.label.clone(),
        succeeded: succeeded(end),
        stdout_log: log_path(log_dir, Stream::Stdout, spec.log_name.as_str()),
        stderr_log: log_path(log_dir, Stream::Stderr, spec.log_name.as_str()),
    }
}

} // verus!
