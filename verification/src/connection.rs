//! The connection to a child process of the official CLI: how the process is
//! started, what it says on its error output, and whether it has come up.

use crate::error::{AcpRequest, CopilotError};
use crate::process::CopilotOfficialCliProcess;
use crate::text::{concat3, copy_texts, lossy_text, text_lossy, texts, trim, trimmed};
use crate::tool_policy::CopilotOfficialToolPolicy;
use std::collections::BTreeMap;
use std::path::PathBuf;
use vstd::prelude::*;
use vstd::slice::slice_subrange;
use vstd::string::*;

verus! {

/// The bytes of error output that are kept.
pub const STDERR_LIMIT: usize = 65_536;

/// The milliseconds that the official CLI has to answer a cancelled prompt.
pub const ACP_CANCEL_DRAIN_TIMEOUT_MS: u64 = 250;

/// The arguments of a start: its own, and the tools that the official CLI has.
fn launch_arguments(process: &CopilotOfficialCliProcess, policy: &CopilotOfficialToolPolicy) -> (r: Vec<
    String,
>)
    ensures
        texts(r@) == texts(process.args@).push(policy.argument()),
{
    let mut arguments = copy_texts(&process.args);
    let ghost before = arguments@;
    let argument = policy.configure_command();
    arguments.push(argument);
    assert(texts(arguments@) =~= texts(before).push(argument@));
    arguments
}

/// How a child process of the official CLI is started.
#[derive(Debug)]
pub struct LaunchPlan<'a> {
    pub command: &'a PathBuf,
    pub arguments: Vec<String>,
    /// The variables that are set for it.
    pub variables: &'a BTreeMap<String, String>,
    /// The variable that is taken from it, be it set for it or inherited.
    pub removed: &'static str,
    /// Where it is started, if that is not where this process runs.
    pub working_dir: Option<PathBuf>,
}

/// Whether the variables set `name` to `value`.
pub open spec fn sets_variable(
    variables: Map<String, String>,
    name: Seq<char>,
    value: Seq<char>,
) -> bool {
    exists|key: String| #[trigger]
        variables.contains_key(key) && key@ == name && variables[key]@ == value
}

impl LaunchPlan<'_> {
    /// Whether the child process sees `value` at the variable `name`, where
    /// `inherited` are the variables of this process: what is set for it hides
    /// what it inherits, and the removed variable is gone.
    pub open spec fn child_sees(
        self,
        inherited: Map<Seq<char>, Seq<char>>,
        name: Seq<char>,
        value: Seq<char>,
    ) -> bool {
        &&& name != self.removed@
        &&& {
            ||| sets_variable(self.variables@, name, value)
            ||| inherited.contains_key(name) && inherited[name] == value && !exists|other: Seq<char>|
                #[trigger] sets_variable(self.variables@, name, other)
        }
    }
}

/// How a child process of the official CLI is started.
pub fn launch_plan<'a>(
    process: &'a CopilotOfficialCliProcess,
    policy: &CopilotOfficialToolPolicy,
    working_dir: Option<PathBuf>,
) -> (plan: LaunchPlan<'a>)
    ensures
        *plan.command == process.command,
        texts(plan.arguments@) == texts(process.args@).push(policy.argument()),
        *plan.variables == process.env,
        plan.removed@ == "COPILOT_ALLOW_ALL"@,
        plan.working_dir == working_dir,
{
    LaunchPlan {
        command: &process.command,
        arguments: launch_arguments(process, policy),
        variables: &process.env,
        removed: "COPILOT_ALLOW_ALL",
        working_dir,
    }
}

/// The official CLI never sees the variable by which it would allow every tool
/// call, whoever sets it. Of the others it sees those that are set for it, and
/// it inherits those that are not.
pub proof fn law_approval_is_not_inherited(
    plan: LaunchPlan<'_>,
    inherited: Map<Seq<char>, Seq<char>>,
    name: Seq<char>,
    value: Seq<char>,
)
    requires
        plan.removed@ == "COPILOT_ALLOW_ALL"@,
    ensures
        !plan.child_sees(inherited, "COPILOT_ALLOW_ALL"@, value),
        name != "COPILOT_ALLOW_ALL"@ && sets_variable(plan.variables@, name, value)
            ==> plan.child_sees(inherited, name, value),
        name != "COPILOT_ALLOW_ALL"@ && inherited.contains_key(name) && (forall|other: Seq<char>|
            !#[trigger] sets_variable(plan.variables@, name, other)) ==> plan.child_sees(
            inherited,
            name,
            inherited[name],
        ),
{
}

/// What was kept of the error output.
#[derive(Debug)]
pub struct StderrCapture {
    pub text: String,
}

/// The part of newly read bytes that is kept, where so many are kept already.
pub open spec fn kept_part(kept: nat, bytes: Seq<u8>) -> Seq<u8> {
    if kept >= STDERR_LIMIT {
        Seq::empty()
    } else if bytes.len() <= STDERR_LIMIT - kept {
        bytes
    } else {
        bytes.take(STDERR_LIMIT - kept)
    }
}

/// The bytes that a text takes.
pub open spec fn byte_length(text: Seq<char>) -> nat {
    vstd::utf8::encode_utf8(text).len()
}

impl StderrCapture {
    /// Nothing yet.
    pub fn new() -> (capture: Self)
        ensures
            capture.text@ == Seq::<char>::empty(),
    {
        StderrCapture { text: String::new() }
    }

    /// Keeps newly read bytes, as far as there is room for them.
    pub fn push(&mut self, bytes: &[u8])
        ensures
            final(self).text@ == (if byte_length(old(self).text@) >= STDERR_LIMIT {
                old(self).text@
            } else {
                old(self).text@ + lossy_text(kept_part(byte_length(old(self).text@), bytes@))
            }),
    {
        let kept: usize = self.text.as_str().as_bytes().len();
        if kept < STDERR_LIMIT {
            let remaining: usize = STDERR_LIMIT - kept;
            if bytes.len() <= remaining {
                self.text.append(text_lossy(bytes).as_str());
            } else {
                let part = slice_subrange(bytes, 0, remaining);
                assert(part@ =~= bytes@.take(remaining as int));
                self.text.append(text_lossy(part).as_str());
            }
        }
    }

    /// An error with what the process has said on its error output, where it
    /// has said anything.
    pub fn explain(&self, error: String) -> (r: String)
        ensures
            r@ == explained(self.text@, error@),
    {
        let said = trim(self.text.as_str());
        if said.unicode_len() == 0 {
            return error;
        }
        let mut text = concat3("Official Copilot CLI stderr: ", said, ": ");
        text.append(error.as_str());
        text
    }
}

/// An error with what the process has said on its error output, where it has
/// said anything.
pub open spec fn explained(stderr: Seq<char>, error: Seq<char>) -> Seq<char> {
    if trimmed(stderr).len() == 0 {
        error
    } else {
        "Official Copilot CLI stderr: "@ + trimmed(stderr) + ": "@ + error
    }
}

/// What is kept of newly read bytes begins them, and has room within the limit
/// beside what is kept already: all of it where all has room, and nothing once
/// the limit is reached.
pub proof fn law_stderr_is_bounded(kept: nat, bytes: Seq<u8>)
    ensures
        kept_part(kept, bytes).is_prefix_of(bytes),
        kept <= STDERR_LIMIT ==> kept + kept_part(kept, bytes).len() <= STDERR_LIMIT,
        kept >= STDERR_LIMIT ==> kept_part(kept, bytes).len() == 0,
        kept + bytes.len() <= STDERR_LIMIT ==> kept_part(kept, bytes) == bytes,
{
}

/// What comes of a request outside of any turn: its answer, or why there is
/// none.
pub fn timeout_acp_request<T>(request: AcpRequest, answer: Option<Result<T, String>>) -> (r: Result<
    T,
    CopilotError,
>)
    ensures
        match answer {
            Some(Ok(value)) => r == Ok::<T, CopilotError>(value),
            Some(Err(text)) => r matches Err(
                CopilotError::RequestFailed { request: failed, message },
            ) && failed == request && message@ == text@,
            None => r matches Err(CopilotError::RequestTimedOut { request: late }) && late
                == request,
        },
{
    match answer {
        Some(Ok(value)) => Ok(value),
        Some(Err(message)) => Err(CopilotError::RequestFailed { request, message }),
        None => Err(CopilotError::RequestTimedOut { request }),
    }
}

/// Whether the official CLI has come up: it speaks the version of the protocol
/// that is spoken here. It is not asked to sign in, which is its own affair.
pub fn initialize_official_cli(same_version: bool, version: String) -> (r: Result<
    (),
    CopilotError,
>)
    ensures
        same_version ==> r is Ok,
        !same_version ==> (r matches Err(CopilotError::UnsupportedProtocol { version: other })
            && other@ == version@),
{
    if same_version {
        Ok(())
    } else {
        Err(CopilotError::UnsupportedProtocol { version })
    }
}

/// Whether a worker has come up, by what it has said of itself in time.
pub fn start_official_runtime(ready: Option<Result<(), String>>) -> (r: Result<(), CopilotError>)
    ensures
        match ready {
            Some(Ok(())) => r is Ok,
            Some(Err(text)) => r matches Err(CopilotError::Reported { message }) && message@
                == text@,
            None => r matches Err(CopilotError::StartTimedOut),
        },
{
    match ready {
        Some(Ok(())) => Ok(()),
        Some(Err(message)) => Err(CopilotError::Reported { message }),
        None => Err(CopilotError::StartTimedOut),
    }
}

/// Of what the official CLI says on its error output the first 65536 bytes are
/// kept: all that is read while there is room, and of what has no room the part
/// that has.
pub proof fn law_stderr_is_kept(kept: nat, bytes: Seq<u8>)
    ensures
        kept + bytes.len() <= 65_536 ==> kept_part(kept, bytes) == bytes,
        kept <= 65_536 && kept + bytes.len() > 65_536 ==> kept_part(kept, bytes) == bytes.take(
            65_536 - kept,
        ),
        kept >= 65_536 ==> kept_part(kept, bytes).len() == 0,
{
    if kept >= 65_536 && bytes.len() == 0 {
        assert(bytes =~= Seq::empty());
    }
    if kept == 65_536 {
        assert(bytes.take(0) =~= Seq::empty());
    }
}

/// An error is told with what the official CLI has said on its error output,
/// without the space around it; where it has said nothing but space, as it is.
pub proof fn law_errors_tell_stderr(stderr: Seq<char>, error: Seq<char>)
    ensures
        (exists|i: int| 0 <= i < stderr.len() && !crate::text::white_space(#[trigger] stderr[i]))
            ==> explained(stderr, error) == "Official Copilot CLI stderr: "@ + trimmed(stderr)
            + ": "@ + error,
        (forall|i: int| 0 <= i < stderr.len() ==> crate::text::white_space(#[trigger] stderr[i]))
            ==> explained(stderr, error) == error,
{
    crate::text::law_blank_is_all_white_space(stderr);
}

/// A child process of the official CLI is started with all arguments of its
/// process, in their order, and with the tools that it has after them.
pub proof fn law_start_has_its_arguments(
    arguments: Seq<Seq<char>>,
    own: Seq<Seq<char>>,
    policy: CopilotOfficialToolPolicy,
)
    requires
        arguments == own.push(policy.argument()),
    ensures
        own.is_prefix_of(arguments),
        arguments.len() == own.len() + 1,
        "--available-tools"@.is_prefix_of(arguments.last()),
{
    reveal_strlit("--available-tools");
    reveal_strlit("--available-tools=");
    assert(own =~= arguments.subrange(0, own.len() as int));
    assert("--available-tools"@ =~= "--available-tools="@.subrange(0, 17));
    let argument = policy.argument();
    assert("--available-tools"@ =~= argument.subrange(0, 17));
}

} // verus!
