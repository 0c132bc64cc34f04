//! The official CLI as a child process: what is run, and with which arguments
//! and environment.

use crate::error::CopilotError;
use std::collections::BTreeMap;
use std::path::PathBuf;
use vstd::prelude::*;

verus! {

/// `std::path::PathBuf`, a path of the file system, which is only handed on.
#[verifier::external_type_specification]
#[verifier::external_body]
pub struct ExPathBuf(PathBuf);

/// How the official CLI is started.
#[derive(Debug)]
pub struct CopilotOfficialCliProcess {
    pub command: PathBuf,
    pub args: Vec<String>,
    pub env: BTreeMap<String, String>,
}

/// The arguments that every start of the official CLI is given.
pub open spec fn base_arguments() -> Seq<Seq<char>> {
    seq![
        "--acp"@,
        "--stdio"@,
        "--no-auto-update"@,
        "--log-level"@,
        "none"@,
        "--no-custom-instructions"@,
        "--disable-builtin-mcps"@,
    ]
}

impl CopilotOfficialCliProcess {
    /// Whether the start has the base arguments and no variables of its own.
    pub open spec fn has_base_arguments(self) -> bool {
        &&& crate::text::texts(self.args@) == base_arguments()
        &&& self.env@ == Map::<String, String>::empty()
    }

    /// A start of the official CLI at the place that the environment names,
    /// where it names one.
    pub fn from_env(cli_path: Result<PathBuf, String>) -> (r: Result<Self, CopilotError>)
        ensures
            match cli_path {
                Ok(path) => r matches Ok(process) && process.command == path
                    && process.has_base_arguments(),
                Err(text) => r matches Err(CopilotError::Reported { message }) && message@ == text@,
            },
    {
        match cli_path {
            Ok(command) => Ok(Self::with_command(command)),
            Err(message) => Err(CopilotError::Reported { message }),
        }
    }

    /// A start of `command` with the base arguments and no variables of its
    /// own.
    pub fn with_command(command: PathBuf) -> (process: Self)
        ensures
            process.command == command,
            process.has_base_arguments(),
    {
        let mut args: Vec<String> = Vec::new();
        args.push("--acp".to_owned());
        args.push("--stdio".to_owned());
        args.push("--no-auto-update".to_owned());
        args.push("--log-level".to_owned());
        args.push("none".to_owned());
        args.push("--no-custom-instructions".to_owned());
        args.push("--disable-builtin-mcps".to_owned());
        assert(crate::text::texts(args@) =~= base_arguments());
        CopilotOfficialCliProcess { command, args, env: BTreeMap::new() }
    }

    /// The same start with `env` as its variables.
    pub fn with_env(self, env: BTreeMap<String, String>) -> (process: Self)
        ensures
            process.command == self.command,
            process.args == self.args,
            process.env == env,
    {
        CopilotOfficialCliProcess { command: self.command, args: self.args, env }
    }
}

/// Every start of the official CLI speaks the protocol over its own input and
/// output, does not update itself, keeps no log, reads no instructions of its
/// own and has no servers of its own.
pub proof fn law_every_start_is_bare(process: CopilotOfficialCliProcess)
    requires
        process.has_base_arguments(),
    ensures
        ({
            let arguments = crate::text::texts(process.args@);
            &&& arguments.len() == 7
            &&& arguments.contains("--acp"@)
            &&& arguments.contains("--stdio"@)
            &&& arguments.contains("--no-auto-update"@)
            &&& arguments[3] == "--log-level"@ && arguments[4] == "none"@
            &&& arguments.contains("--no-custom-instructions"@)
            &&& arguments.contains("--disable-builtin-mcps"@)
        }),
        forall|key: String| !process.env@.contains_key(key),
{
    let arguments = crate::text::texts(process.args@);
    assert(arguments[0] == "--acp"@);
    assert(arguments[1] == "--stdio"@);
    assert(arguments[2] == "--no-auto-update"@);
    assert(arguments[5] == "--no-custom-instructions"@);
    assert(arguments[6] == "--disable-builtin-mcps"@);
}

} // verus!
