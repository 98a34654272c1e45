//! A minimal model of spawned, detached operating-system processes.
//!
//! A [`Process`] is an owned reference to one spawned child: it records the
//! OS-assigned pid and the state of the optional stdout/stderr captures. The
//! library holds the whole lifecycle logic — handle construction, the
//! one-shot drain semantics of the captured streams, the command line for
//! the external termination facility, and the reading of that facility's
//! outcome — with proved contracts. The embedding program performs the
//! system calls themselves (spawning the child in its own session, draining
//! the pipes, running the termination facility) and hands their results to
//! this library as plain values.

use vstd::prelude::*;
use vstd::string::StringExecFns;

pub mod decimal;

verus! {

/// The state of one captured output stream of a child process.
///
/// A capture is drained, not buffered indefinitely: it yields its full
/// contents to the first reader and nothing to any later one.
#[derive(Clone, Copy, Debug, PartialEq, Eq, Structural)]
pub enum StreamSlot {
    /// Capture was not configured for this stream.
    Absent,
    /// The stream is captured and has not been read yet.
    Pending,
    /// The stream has answered its one read.
    Taken,
}

impl StreamSlot {
    /// The slot as it stands after it has answered one read.
    pub open spec fn after_read(self) -> StreamSlot {
        if self is Pending {
            StreamSlot::Taken
        } else {
            self
        }
    }

    /// The text a read surfaces: the drained stream contents on the first
    /// read of a pending capture, nothing in every other state.
    pub open spec fn surfaced(self, drained: Seq<char>) -> Seq<char> {
        if self is Pending {
            drained
        } else {
            Seq::<char>::empty()
        }
    }
}

/// The command line that requests termination of a process: the external
/// facility's program name and its single argument, the target pid in
/// base-10 text.
#[derive(Debug)]
pub struct KillRequest {
    pub program: String,
    pub arg: String,
}

/// What happened when the external termination facility was run.
#[derive(Debug)]
pub enum KillOutcome {
    /// The facility ran to completion; `success` is whether it reported a
    /// zero exit status.
    Exited { success: bool },
    /// The facility could not be invoked at all; `message` is the OS error
    /// description.
    LaunchFailed { message: String },
}

/// Why a termination request failed.
#[derive(Debug, Clone)]
pub enum KillError {
    /// The facility ran and reported failure for this pid (no such
    /// process, permission denied, ...).
    Facility { pid: u32 },
    /// The facility itself could not be invoked; `message` is the OS error
    /// description.
    Launch { message: String },
}

/// Why a spawn attempt failed: the OS could not create the process.
/// Carries the underlying OS error description. No partial handle exists
/// after such a failure.
#[derive(Debug, Clone)]
pub struct SpawnError {
    pub message: String,
}

/// An owned reference to one spawned OS process.
///
/// The pid is set at construction and never changes; each capture slot
/// yields its stream's contents to the first reader only.
#[derive(Debug)]
pub struct Process {
    pid: u32,
    stdout: StreamSlot,
    stderr: StreamSlot,
}

impl Process {
    /// The OS-assigned process identifier.
    pub closed spec fn pid_spec(&self) -> u32 {
        self.pid
    }

    /// The state of the stdout capture.
    pub closed spec fn stdout_slot(&self) -> StreamSlot {
        self.stdout
    }

    /// The state of the stderr capture.
    pub closed spec fn stderr_slot(&self) -> StreamSlot {
        self.stderr
    }

    /// A handle is well formed when it carries a real OS pid: the OS never
    /// assigns a child the id 0.
    pub open spec fn wf(&self) -> bool {
        self.pid_spec() > 0
    }

    /// Handle for the one process that the OS just created under `pid`.
    /// With `capture` set, both output streams are redirected into pipes
    /// that this handle owns and will drain once each; without it, both
    /// streams are discarded at the OS level and every read yields nothing.
    pub fn new(pid: u32, capture: bool) -> (p: Process)
        requires
            pid > 0,
        ensures
            p.wf(),
            p.pid_spec() == pid,
            p.stdout_slot() == (if capture {
                StreamSlot::Pending
            } else {
                StreamSlot::Absent
            }),
            p.stderr_slot() == (if capture {
                StreamSlot::Pending
            } else {
                StreamSlot::Absent
            }),
    {
        if capture {
            Process { pid, stdout: StreamSlot::Pending, stderr: StreamSlot::Pending }
        } else {
            Process { pid, stdout: StreamSlot::Absent, stderr: StreamSlot::Absent }
        }
    }

    /// Retrieves the pid of the spawned process. On a well-formed handle it
    /// is positive.
    pub fn pid(&self) -> (r: u32)
        ensures
            r == self.pid_spec(),
            self.wf() ==> r > 0,
    {
        self.pid
    }

    /// One-shot read of the captured stdout. `drained` is the full text
    /// that the stream yielded to the code that owns the descriptor; it is
    /// surfaced only if this is the first read of a pending capture, and
    /// every later read returns the empty string, never an error and never
    /// the contents twice. The stderr capture and the pid are untouched.
    pub fn read_stdout(&mut self, drained: String) -> (r: String)
        ensures
            r@ == old(self).stdout_slot().surfaced(drained@),
            final(self).stdout_slot() == old(self).stdout_slot().after_read(),
            final(self).stderr_slot() == old(self).stderr_slot(),
            final(self).pid_spec() == old(self).pid_spec(),
    {
        match self.stdout {
            StreamSlot::Pending => {
                self.stdout = StreamSlot::Taken;
                drained
            },
            _ => String::new(),
        }
    }

    /// One-shot read of the captured stderr; symmetric to `read_stdout`
    /// and independent of it.
    pub fn read_stderr(&mut self, drained: String) -> (r: String)
        ensures
            r@ == old(self).stderr_slot().surfaced(drained@),
            final(self).stderr_slot() == old(self).stderr_slot().after_read(),
            final(self).stdout_slot() == old(self).stdout_slot(),
            final(self).pid_spec() == old(self).pid_spec(),
    {
        match self.stderr {
            StreamSlot::Pending => {
                self.stderr = StreamSlot::Taken;
                drained
            },
            _ => String::new(),
        }
    }

    /// The command line that requests termination of this process: the
    /// standard facility, invoked with the pid in base 10 as its single
    /// argument.
    pub fn kill_request(&self) -> (r: KillRequest)
        ensures
            r.program@ == "kill"@,
            r.arg@ == decimal::dec_digits(self.pid_spec() as nat),
    {
        KillRequest { program: "kill".to_owned(), arg: decimal::u32_to_decimal(self.pid) }
    }

    /// The result a termination request reports, given what became of the
    /// facility run: success exactly when the facility exited with status
    /// zero. Signal delivery is asynchronous, so success does not mean the
    /// target has already exited; failure leaves the handle usable.
    pub fn kill_verdict(&self, outcome: KillOutcome) -> (r: Result<(), KillError>)
        ensures
            (r is Ok) <==> (outcome matches KillOutcome::Exited { success } && success),
            (outcome matches KillOutcome::Exited { success: false } ==> r == Err::<(), KillError>(
                KillError::Facility { pid: self.pid_spec() },
            )),
            (outcome matches KillOutcome::LaunchFailed { message } ==> r == Err::<(), KillError>(
                KillError::Launch { message },
            )),
    {
        match outcome {
            KillOutcome::Exited { success } => {
                if success {
                    Ok(())
                } else {
                    Err(KillError::Facility { pid: self.pid })
                }
            },
            KillOutcome::LaunchFailed { message } => Err(KillError::Launch { message }),
        }
    }
}

impl KillError {
    /// A human-readable description of the failure.
    pub fn message(&self) -> (r: String)
        ensures
            (*self matches KillError::Facility { pid } ==> r@ == "Failed to kill process with PID: "@
                + decimal::dec_digits(pid as nat)),
            (*self matches KillError::Launch { message } ==> r@ == "Error executing kill command: "@
                + message@),
    {
        match self {
            KillError::Facility { pid } => "Failed to kill process with PID: ".to_owned().concat(
                decimal::u32_to_decimal(*pid).as_str(),
            ),
            KillError::Launch { message } => "Error executing kill command: ".to_owned().concat(
                message.as_str(),
            ),
        }
    }
}

/// A captured stream yields its contents at most once: whatever state a
/// slot is in, a pending slot surfaces exactly the drained text, after one
/// read the slot is no longer pending, a second read surfaces nothing at
/// all, and further reads leave the slot as it is.
pub proof fn lemma_stream_read_at_most_once(s: StreamSlot, first: Seq<char>, second: Seq<char>)
    ensures
        s is Pending ==> s.surfaced(first) == first,
        !(s.after_read() is Pending),
        s.after_read().surfaced(second) == Seq::<char>::empty(),
        s.after_read().after_read() == s.after_read(),
{
}

/// A termination request aims at exactly the process of the handle it was
/// made from: the facility's single argument, read back as a base-10
/// numeral, denotes this handle's pid — no other process id. Here `r` is
/// related to `p` as the contract of `kill_request` states.
pub proof fn lemma_kill_request_targets_pid(p: Process, r: KillRequest)
    requires
        r.arg@ == decimal::dec_digits(p.pid_spec() as nat),
    ensures
        decimal::dec_value(r.arg@) == p.pid_spec() as nat,
{
    decimal::lemma_dec_digits_value(p.pid_spec() as nat);
}

/// The two streams of one handle cannot contaminate each other: on a
/// handle whose captures are both still pending, reading stdout surfaces
/// exactly the stdout text and — since `read_stdout` ensures the stderr
/// slot is untouched — a following stderr read surfaces exactly the stderr
/// text. Here `p` is the handle before and `q` after the stdout read,
/// related as the contract of `read_stdout` states.
pub proof fn lemma_streams_independent(
    p: Process,
    q: Process,
    out_text: Seq<char>,
    err_text: Seq<char>,
)
    requires
        p.stdout_slot() is Pending,
        p.stderr_slot() is Pending,
        q.stdout_slot() == p.stdout_slot().after_read(),
        q.stderr_slot() == p.stderr_slot(),
    ensures
        p.stdout_slot().surfaced(out_text) == out_text,
        q.stderr_slot().surfaced(err_text) == err_text,
{
}

} // verus!
