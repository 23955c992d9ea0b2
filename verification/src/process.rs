//! Bounded collection of a CLI process's output, and the decision taken on
//! each event the running process produces.

use vstd::prelude::*;
use vstd::string::*;
use crate::cli_error::CliError;
use crate::splitting::copy_range;
use crate::line_buffer::{complete_lines, delivered_line, delivered_lines, string_views, unfinished_line, LineBuffer};

verus! {

/// Most stdout bytes that one CLI invocation may produce.
pub const STDOUT_LIMIT: usize = 1_000_000;

/// Most stderr bytes that one CLI invocation may produce.
pub const STDERR_LIMIT: usize = 256 * 1024;

/// Appends `chunk` to `destination` unless the total would exceed `limit`;
/// then it fails and leaves `destination` as it was. It never truncates.
pub fn append_bounded(destination: &mut Vec<u8>, chunk: &[u8], limit: usize, stream: &str) -> (r:
    Result<(), CliError>)
    ensures
        old(destination)@.len() + chunk@.len() > limit ==> final(destination)@ == old(
            destination,
        )@ && (r matches Err(CliError::OutputLimitExceeded { stream: s }) && s@ == stream@),
        old(destination)@.len() + chunk@.len() <= limit ==> r is Ok && final(destination)@ == old(
            destination,
        )@ + chunk@,
{
    if destination.len() > limit || chunk.len() > limit - destination.len() {
        return Err(CliError::OutputLimitExceeded { stream: String::from_str(stream) });
    }
    let ghost before = destination@;
    let mut k: usize = 0;
    while k < chunk.len()
        invariant
            k <= chunk@.len(),
            destination@ == before + chunk@.take(k as int),
        decreases chunk@.len() - k,
    {
        destination.push(chunk[k]);
        proof {
            assert(before + chunk@.take(k + 1) =~= (before + chunk@.take(k as int)).push(
                chunk@[k as int],
            ));
        }
        k = k + 1;
    }
    proof {
        assert(chunk@.take(chunk@.len() as int) =~= chunk@);
    }
    Ok(())
}

/// What a finished CLI process leaves: only its stdout is ever parsed.
pub struct ProcessResult {
    pub stdout: Vec<u8>,
}

/// One thing that happens to a running CLI process.
pub enum ProcessEvent {
    /// A chunk of stdout.
    Stdout(Vec<u8>),
    /// A chunk of stderr.
    Stderr(Vec<u8>),
    /// The process could not be driven; the message says why.
    Error(String),
    /// The process exited.
    Terminated,
    /// Any other event, which changes nothing.
    Other,
    /// The event stream ended without the process exiting.
    Closed,
    /// The operation's timeout elapsed.
    TimedOut,
}

/// What to do after an event: go on waiting, or stop (killing the process
/// first when `kill` is set) with `result`. `lines` are the complete stdout
/// lines that the event finished.
pub enum RunStep {
    Continue { lines: Vec<String> },
    Finish { result: Result<ProcessResult, CliError>, lines: Vec<String>, kill: bool },
}

/// The state of one running CLI invocation: all stdout and stderr so far,
/// and the stdout line being assembled.
pub struct CliRun {
    stdout: Vec<u8>,
    stderr: Vec<u8>,
    lines: LineBuffer,
}

impl CliRun {
    pub closed spec fn stdout_seen(&self) -> Seq<u8> {
        self.stdout@
    }

    pub closed spec fn stderr_seen(&self) -> Seq<u8> {
        self.stderr@
    }

    pub closed spec fn pending_line(&self) -> Seq<u8> {
        self.lines@
    }

    /// Both runs have seen the same output and assemble the same line.
    pub open spec fn same_state(&self, other: &CliRun) -> bool {
        &&& self.stdout_seen() == other.stdout_seen()
        &&& self.stderr_seen() == other.stderr_seen()
        &&& self.pending_line() == other.pending_line()
    }

    /// Output never exceeds its limits.
    #[verifier::type_invariant]
    spec fn within_limits(&self) -> bool {
        self.stdout@.len() <= STDOUT_LIMIT && self.stderr@.len() <= STDERR_LIMIT
    }

    pub fn new() -> (r: CliRun)
        ensures
            r.stdout_seen() == Seq::<u8>::empty(),
            r.stderr_seen() == Seq::<u8>::empty(),
            r.pending_line() == Seq::<u8>::empty(),
    {
        CliRun { stdout: Vec::new(), stderr: Vec::new(), lines: LineBuffer::new() }
    }

    /// The decision on one event: stdout and stderr are collected up to
    /// their limits (going over kills the process and fails), a spawn error
    /// or a closed stream kills and fails, a timeout kills and fails, exit
    /// ends the run with the collected stdout and hands on the last line.
    pub fn step(&mut self, event: ProcessEvent) -> (step: RunStep)
        ensures
            final(self).stdout_seen().len() <= STDOUT_LIMIT,
            final(self).stderr_seen().len() <= STDERR_LIMIT,
            match event {
                ProcessEvent::Stdout(chunk) => if old(self).stdout_seen().len() + chunk@.len()
                    > STDOUT_LIMIT {
                    &&& final(self).same_state(old(self))
                    &&& step matches RunStep::Finish {
                        result: Err(CliError::OutputLimitExceeded { stream: s }),
                        lines: l,
                        kill: true,
                    }
                    &&& s@ == "stdout"@
                    &&& l@.len() == 0
                } else {
                    &&& final(self).stdout_seen() == old(self).stdout_seen() + chunk@
                    &&& final(self).stderr_seen() == old(self).stderr_seen()
                    &&& final(self).pending_line() == unfinished_line(
                        old(self).pending_line() + chunk@,
                    )
                    &&& step matches RunStep::Continue { lines: l }
                    &&& string_views(l@) == delivered_lines(
                        complete_lines(old(self).pending_line() + chunk@),
                    )
                },
                ProcessEvent::Stderr(chunk) => if old(self).stderr_seen().len() + chunk@.len()
                    > STDERR_LIMIT {
                    &&& final(self).same_state(old(self))
                    &&& step matches RunStep::Finish {
                        result: Err(CliError::OutputLimitExceeded { stream: s }),
                        lines: l,
                        kill: true,
                    }
                    &&& s@ == "stderr"@
                    &&& l@.len() == 0
                } else {
                    &&& final(self).stderr_seen() == old(self).stderr_seen() + chunk@
                    &&& final(self).stdout_seen() == old(self).stdout_seen()
                    &&& final(self).pending_line() == old(self).pending_line()
                    &&& step matches RunStep::Continue { lines: l }
                    &&& l@.len() == 0
                },
                ProcessEvent::Error(message) => {
                    &&& final(self).same_state(old(self))
                    &&& step matches RunStep::Finish {
                        result: Err(CliError::Spawn { message: m }),
                        lines: l,
                        kill: true,
                    }
                    &&& m == message
                    &&& l@.len() == 0
                },
                ProcessEvent::Terminated => {
                    &&& final(self).stdout_seen() == old(self).stdout_seen()
                    &&& final(self).stderr_seen() == old(self).stderr_seen()
                    &&& final(self).pending_line() == Seq::<u8>::empty()
                    &&& step matches RunStep::Finish { result: Ok(p), lines: l, kill: false }
                    &&& p.stdout@ == old(self).stdout_seen()
                    &&& string_views(l@) == match delivered_line(old(self).pending_line()) {
                        Some(t) => seq![t],
                        None => Seq::<Seq<char>>::empty(),
                    }
                },
                ProcessEvent::Other => {
                    &&& final(self).same_state(old(self))
                    &&& step matches RunStep::Continue { lines: l }
                    &&& l@.len() == 0
                },
                ProcessEvent::Closed => {
                    &&& final(self).same_state(old(self))
                    &&& step matches RunStep::Finish {
                        result: Err(CliError::NoOutput),
                        lines: l,
                        kill: true,
                    }
                    &&& l@.len() == 0
                },
                ProcessEvent::TimedOut => {
                    &&& final(self).same_state(old(self))
                    &&& step matches RunStep::Finish {
                        result: Err(CliError::Timeout),
                        lines: l,
                        kill: true,
                    }
                    &&& l@.len() == 0
                },
            },
    {
        proof {
            use_type_invariant(&*self);
        }
        match event {
            ProcessEvent::Stdout(chunk) => {
                let mut seen: Vec<u8> = Vec::new();
                std::mem::swap(&mut seen, &mut self.stdout);
                let appended = append_bounded(&mut seen, chunk.as_slice(), STDOUT_LIMIT, "stdout");
                self.stdout = seen;
                match appended {
                    Err(e) => RunStep::Finish { result: Err(e), lines: Vec::new(), kill: true },
                    Ok(()) => {
                        let mut buffer = LineBuffer::new();
                        std::mem::swap(&mut buffer, &mut self.lines);
                        let lines = buffer.push(chunk.as_slice());
                        self.lines = buffer;
                        RunStep::Continue { lines }
                    },
                }
            },
            ProcessEvent::Stderr(chunk) => {
                let mut seen: Vec<u8> = Vec::new();
                std::mem::swap(&mut seen, &mut self.stderr);
                let appended = append_bounded(&mut seen, chunk.as_slice(), STDERR_LIMIT, "stderr");
                self.stderr = seen;
                match appended {
                    Err(e) => RunStep::Finish { result: Err(e), lines: Vec::new(), kill: true },
                    Ok(()) => RunStep::Continue { lines: Vec::new() },
                }
            },
            ProcessEvent::Error(message) => RunStep::Finish {
                result: Err(CliError::Spawn { message }),
                lines: Vec::new(),
                kill: true,
            },
            ProcessEvent::Terminated => {
                let mut lines: Vec<String> = Vec::new();
                let mut buffer = LineBuffer::new();
                std::mem::swap(&mut buffer, &mut self.lines);
                let last = buffer.flush();
                self.lines = buffer;
                match last {
                    Some(t) => lines.push(t),
                    None => {},
                }
                proof {
                    assert(string_views(lines@) =~= match delivered_line(old(self).pending_line()) {
                        Some(t) => seq![t],
                        None => Seq::<Seq<char>>::empty(),
                    });
                }
                let stdout = copy_range(&self.stdout, 0, self.stdout.len());
                proof {
                    assert(self.stdout@.subrange(0, self.stdout@.len() as int) =~= self.stdout@);
                }
                RunStep::Finish { result: Ok(ProcessResult { stdout }), lines, kill: false }
            },
            ProcessEvent::Other => RunStep::Continue { lines: Vec::new() },
            ProcessEvent::Closed => RunStep::Finish {
                result: Err(CliError::NoOutput),
                lines: Vec::new(),
                kill: true,
            },
            ProcessEvent::TimedOut => RunStep::Finish {
                result: Err(CliError::Timeout),
                lines: Vec::new(),
                kill: true,
            },
        }
    }
}

} // verus!
