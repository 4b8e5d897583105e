//! Verdicts and the payload that reports them.

use vstd::prelude::*;

verus! {

/// Payload code of a run that matched its reference answer, and of a
/// successful compilation.
pub const CODE_SUCCESS: u32 = 0;

/// Payload code of a submission that failed to link.
pub const CODE_LINK_ERROR: u32 = 1;

/// Payload code of a run whose output or exit code differs from the
/// reference answer.
pub const CODE_WRONG_ANSWER: u32 = 2;

/// Payload code of a source file that the toolchain refused to compile.
pub const CODE_COMPILE_ERROR: u32 = 3;

/// Nanoseconds in one second.
pub const NANOS_PER_SEC: u32 = 1_000_000_000;

/// A measured stretch of wall-clock time: whole seconds and the nanoseconds
/// beyond them.
#[derive(Clone, Copy, Debug, PartialEq, Eq, Structural)]
pub struct Elapsed {
    pub secs: u64,
    pub subsec_nanos: u32,
}

impl Elapsed {
    /// The nanosecond part stays below one second.
    pub open spec fn wf(self) -> bool {
        self.subsec_nanos < NANOS_PER_SEC
    }

    /// The whole stretch in nanoseconds.
    pub open spec fn total_nanos(self) -> int {
        self.secs as int * 1_000_000_000 + self.subsec_nanos as int
    }

    /// Builds a measurement from whole seconds and the nanoseconds beyond
    /// them; a nanosecond part of a second or more is refused.
    pub fn new(secs: u64, subsec_nanos: u32) -> (elapsed: Option<Elapsed>)
        ensures
            subsec_nanos < NANOS_PER_SEC ==> elapsed == Some(Elapsed { secs, subsec_nanos }),
            subsec_nanos >= NANOS_PER_SEC ==> elapsed is None,
            elapsed matches Some(e) ==> e.wf(),
    {
        if subsec_nanos < NANOS_PER_SEC {
            Some(Elapsed { secs, subsec_nanos })
        } else {
            None
        }
    }

    /// The whole stretch in nanoseconds.
    pub fn as_nanos(&self) -> (nanos: u128)
        ensures
            nanos == self.total_nanos(),
    {
        self.secs as u128 * 1_000_000_000u128 + self.subsec_nanos as u128
    }
}

/// Whether a toolchain process ended well: it exited, and with code zero.
/// A process that was killed has no exit code and did not end well.
pub open spec fn spec_exited_cleanly(exit_code: Option<i32>) -> bool {
    exit_code == Some(0i32)
}

/// Whether a toolchain process ended well.
#[verifier::when_used_as_spec(spec_exited_cleanly)]
pub fn exited_cleanly(exit_code: Option<i32>) -> (clean: bool)
    ensures
        clean == spec_exited_cleanly(exit_code),
{
    match exit_code {
        Some(code) => code == 0,
        None => false,
    }
}

/// Outcome of judging one submission.
#[derive(Clone, Copy, Debug, PartialEq, Eq, Structural)]
pub enum Verdict {
    /// Output and exit code match the reference; `elapsed` is the time the
    /// program itself ran.
    Success { elapsed: Elapsed },
    /// The linker exited with a failure.
    LinkError,
    /// The exit code or the output differs from the reference.
    WrongAnswer,
}

/// Outcome of translating a source file to assembly.
#[derive(Clone, Copy, Debug, PartialEq, Eq, Structural)]
pub enum CompileVerdict {
    Success,
    ToolchainError,
}

/// What the caller is told: a code and, for a successful run only, its
/// running time.
#[derive(Clone, Copy, Debug, PartialEq, Eq, Structural)]
pub struct RunResult {
    pub code: u32,
    pub time: Option<Elapsed>,
}

impl RunResult {
    /// The code is one of the four known ones, and only success carries a
    /// time.
    pub open spec fn wf(self) -> bool {
        &&& self.code <= CODE_COMPILE_ERROR
        &&& self.time is Some ==> self.code == CODE_SUCCESS
    }
}

impl Verdict {
    pub open spec fn spec_code(&self) -> u32 {
        match self {
            Verdict::Success { .. } => CODE_SUCCESS,
            Verdict::LinkError => CODE_LINK_ERROR,
            Verdict::WrongAnswer => CODE_WRONG_ANSWER,
        }
    }

    pub open spec fn spec_time(&self) -> Option<Elapsed> {
        match self {
            Verdict::Success { elapsed } => Some(*elapsed),
            _ => None,
        }
    }

    pub open spec fn spec_result(&self) -> RunResult {
        RunResult { code: self.spec_code(), time: self.spec_time() }
    }

    /// The payload code of this verdict.
    #[verifier::when_used_as_spec(spec_code)]
    pub fn code(&self) -> (code: u32)
        ensures
            code == self.spec_code(),
    {
        match self {
            Verdict::Success { .. } => CODE_SUCCESS,
            Verdict::LinkError => CODE_LINK_ERROR,
            Verdict::WrongAnswer => CODE_WRONG_ANSWER,
        }
    }

    /// The running time, which only a success has.
    #[verifier::when_used_as_spec(spec_time)]
    pub fn time(&self) -> (time: Option<Elapsed>)
        ensures
            time == self.spec_time(),
    {
        match self {
            Verdict::Success { elapsed } => Some(*elapsed),
            _ => None,
        }
    }

    /// Whether the submission passed.
    pub fn is_success(&self) -> (yes: bool)
        ensures
            yes == (self is Success),
            yes == (self.spec_code() == CODE_SUCCESS),
    {
        match self {
            Verdict::Success { .. } => true,
            _ => false,
        }
    }

    /// The payload that reports this verdict.
    #[verifier::when_used_as_spec(spec_result)]
    pub fn to_result(&self) -> (result: RunResult)
        ensures
            result == self.spec_result(),
            result.wf(),
    {
        RunResult { code: self.code(), time: self.time() }
    }
}

impl CompileVerdict {
    pub open spec fn spec_of_exit(exit_code: Option<i32>) -> CompileVerdict {
        if spec_exited_cleanly(exit_code) {
            CompileVerdict::Success
        } else {
            CompileVerdict::ToolchainError
        }
    }

    pub open spec fn spec_code(&self) -> u32 {
        match self {
            CompileVerdict::Success => CODE_SUCCESS,
            CompileVerdict::ToolchainError => CODE_COMPILE_ERROR,
        }
    }

    pub open spec fn spec_result(&self) -> RunResult {
        RunResult { code: self.spec_code(), time: None }
    }

    /// The verdict on a compilation, from how the compiler exited.
    #[verifier::when_used_as_spec(spec_of_exit)]
    pub fn of_exit(exit_code: Option<i32>) -> (verdict: CompileVerdict)
        ensures
            verdict == Self::spec_of_exit(exit_code),
    {
        if exited_cleanly(exit_code) {
            CompileVerdict::Success
        } else {
            CompileVerdict::ToolchainError
        }
    }

    /// The payload code of this verdict.
    #[verifier::when_used_as_spec(spec_code)]
    pub fn code(&self) -> (code: u32)
        ensures
            code == self.spec_code(),
    {
        match self {
            CompileVerdict::Success => CODE_SUCCESS,
            CompileVerdict::ToolchainError => CODE_COMPILE_ERROR,
        }
    }

    /// Whether the compilation went through.
    pub fn is_success(&self) -> (yes: bool)
        ensures
            yes == (self is Success),
    {
        match self {
            CompileVerdict::Success => true,
            CompileVerdict::ToolchainError => false,
        }
    }

    /// The payload that reports this verdict; a compilation is never timed.
    #[verifier::when_used_as_spec(spec_result)]
    pub fn to_result(&self) -> (result: RunResult)
        ensures
            result == self.spec_result(),
            result.wf(),
    {
        RunResult { code: self.code(), time: None }
    }
}

/// A payload carries a time exactly when it reports a successful run, and a
/// verdict's code tells the three verdicts apart.
pub proof fn lemma_verdict_payload(verdict: Verdict)
    ensures
        verdict.spec_result().time is Some <==> verdict is Success,
        verdict.spec_code() == CODE_SUCCESS <==> verdict is Success,
        verdict.spec_code() == CODE_LINK_ERROR <==> verdict is LinkError,
        verdict.spec_code() == CODE_WRONG_ANSWER <==> verdict is WrongAnswer,
        verdict.spec_code() != CODE_COMPILE_ERROR,
{
}

} // verus!
