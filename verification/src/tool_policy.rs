//! Which of its own tools the official CLI may use: those for which the caller
//! offers a tool of the same kind.

use crate::message::{tool_names, ToolDefinition};
use crate::text::{concat, join, joined, str_eq, texts};
use vstd::prelude::*;

verus! {

/// The kind of work that a tool call of the official CLI does.
#[derive(Clone, Copy, Debug, PartialEq, Eq, Structural)]
pub enum AcpToolKind {
    Read,
    Search,
    Edit,
    Delete,
    Move,
    Execute,
    Fetch,
    Think,
    SwitchMode,
    Other,
}

/// The kind of an offered tool, by which the official CLI's own tools are
/// allowed.
#[derive(Clone, Copy, Debug, PartialEq, Eq, Structural)]
pub enum ToolFamily {
    Read,
    Grep,
    List,
    Shell,
    Write,
    Edit,
    Fetch,
    /// The official CLI has no tool of this kind.
    Unmapped,
}

/// The kind of an offered tool, by its name.
pub open spec fn family_of(name: Seq<char>) -> ToolFamily {
    if name == "read"@ || name == "view"@ || name == "read_file"@ || name == "file_read"@ {
        ToolFamily::Read
    } else if name == "agentgrep"@ || name == "grep"@ || name == "rg"@ || name == "file_grep"@ {
        ToolFamily::Grep
    } else if name == "ls"@ || name == "glob"@ {
        ToolFamily::List
    } else if name == "bash"@ || name == "shell"@ || name == "shell_exec"@ {
        ToolFamily::Shell
    } else if name == "write"@ || name == "write_file"@ || name == "file_write"@ {
        ToolFamily::Write
    } else if name == "edit"@ || name == "multiedit"@ || name == "edit_file"@ || name
        == "file_edit"@ {
        ToolFamily::Edit
    } else if name == "webfetch"@ || name == "web_fetch"@ {
        ToolFamily::Fetch
    } else {
        ToolFamily::Unmapped
    }
}

/// The kind of an offered tool, by its name.
fn tool_family(name: &str) -> (family: ToolFamily)
    ensures
        family == family_of(name@),
{
    if str_eq(name, "read") || str_eq(name, "view") || str_eq(name, "read_file") || str_eq(
        name,
        "file_read",
    ) {
        ToolFamily::Read
    } else if str_eq(name, "agentgrep") || str_eq(name, "grep") || str_eq(name, "rg") || str_eq(
        name,
        "file_grep",
    ) {
        ToolFamily::Grep
    } else if str_eq(name, "ls") || str_eq(name, "glob") {
        ToolFamily::List
    } else if str_eq(name, "bash") || str_eq(name, "shell") || str_eq(name, "shell_exec") {
        ToolFamily::Shell
    } else if str_eq(name, "write") || str_eq(name, "write_file") || str_eq(name, "file_write") {
        ToolFamily::Write
    } else if str_eq(name, "edit") || str_eq(name, "multiedit") || str_eq(name, "edit_file")
        || str_eq(name, "file_edit") {
        ToolFamily::Edit
    } else if str_eq(name, "webfetch") || str_eq(name, "web_fetch") {
        ToolFamily::Fetch
    } else {
        ToolFamily::Unmapped
    }
}

/// Whether a tool of a kind is among the offered ones.
pub open spec fn offers(names: Seq<Seq<char>>, family: ToolFamily) -> bool {
    exists|i: int| 0 <= i < names.len() && family_of(#[trigger] names[i]) == family
}

/// Which of its own tools the official CLI has, and which kinds of tool calls
/// it may make.
#[derive(Clone, Copy, Debug, PartialEq, Eq, Structural)]
pub struct CopilotOfficialToolPolicy {
    pub bash: bool,
    pub create: bool,
    pub edit: bool,
    pub glob: bool,
    pub grep: bool,
    pub view: bool,
    pub web_fetch: bool,
    pub allow_read: bool,
    pub allow_search: bool,
    pub allow_write: bool,
    pub allow_execute: bool,
    pub allow_fetch: bool,
}

/// What is allowed where tools of these names are offered.
pub open spec fn policy_for(names: Seq<Seq<char>>) -> CopilotOfficialToolPolicy {
    let read = offers(names, ToolFamily::Read);
    let grep = offers(names, ToolFamily::Grep);
    let list = offers(names, ToolFamily::List);
    let shell = offers(names, ToolFamily::Shell);
    let write = offers(names, ToolFamily::Write);
    let edit = offers(names, ToolFamily::Edit);
    let fetch = offers(names, ToolFamily::Fetch);
    CopilotOfficialToolPolicy {
        bash: shell,
        create: write,
        edit,
        glob: grep || list,
        grep,
        view: read,
        web_fetch: fetch,
        allow_read: read || grep || list,
        allow_search: grep || list,
        allow_write: write || edit,
        allow_execute: shell,
        allow_fetch: fetch,
    }
}

/// A name, where it counts.
pub open spec fn name_if(counts: bool, name: Seq<char>) -> Seq<Seq<char>> {
    if counts {
        seq![name]
    } else {
        Seq::empty()
    }
}

/// Adds a name, where it counts.
fn push_if(names: &mut Vec<String>, counts: bool, name: &str)
    ensures
        texts(final(names)@) == texts(old(names)@) + name_if(counts, name@),
{
    let ghost before = names@;
    if counts {
        names.push(name.to_owned());
    }
    assert(texts(names@) =~= texts(before) + name_if(counts, name@));
}

impl CopilotOfficialToolPolicy {
    /// The names of the tools that the official CLI has, in alphabetical
    /// order.
    pub open spec fn tools(self) -> Seq<Seq<char>> {
        name_if(self.bash, "bash"@) + name_if(self.create, "create"@) + name_if(self.edit, "edit"@)
            + name_if(self.glob, "glob"@) + name_if(self.grep, "grep"@) + name_if(
            self.view,
            "view"@,
        ) + name_if(self.web_fetch, "web_fetch"@)
    }

    /// The argument that tells the official CLI which tools it has.
    pub open spec fn argument(self) -> Seq<char> {
        if self.tools().len() == 0 {
            "--available-tools"@
        } else {
            "--available-tools="@ + joined(self.tools(), ","@)
        }
    }

    /// Whether a kind of tool call may be made.
    pub open spec fn allowed(self, kind: Option<AcpToolKind>) -> bool {
        match kind {
            Some(AcpToolKind::Read) => self.allow_read,
            Some(AcpToolKind::Search) => self.allow_search,
            Some(AcpToolKind::Edit) | Some(AcpToolKind::Delete) | Some(AcpToolKind::Move) =>
                self.allow_write,
            Some(AcpToolKind::Execute) => self.allow_execute,
            Some(AcpToolKind::Fetch) => self.allow_fetch,
            _ => false,
        }
    }

    /// Nothing is allowed.
    pub fn none() -> (policy: Self)
        ensures
            policy == policy_for(Seq::empty()),
    {
        CopilotOfficialToolPolicy {
            bash: false,
            create: false,
            edit: false,
            glob: false,
            grep: false,
            view: false,
            web_fetch: false,
            allow_read: false,
            allow_search: false,
            allow_write: false,
            allow_execute: false,
            allow_fetch: false,
        }
    }

    /// What is allowed where these tools are offered.
    pub fn from_jcode_tools(tools: &Vec<ToolDefinition>) -> (policy: Self)
        ensures
            policy == policy_for(tool_names(tools@)),
    {
        let ghost names = tool_names(tools@);
        let mut policy = CopilotOfficialToolPolicy::none();
        let mut i: usize = 0;
        assert(names.take(0) =~= Seq::empty());
        while i < tools.len()
            invariant
                i <= tools.len(),
                names == tool_names(tools@),
                policy == policy_for(names.take(i as int)),
            decreases tools.len() - i,
        {
            let family = tool_family(tools[i].name.as_str());
            match family {
                ToolFamily::Read => {
                    policy.view = true;
                    policy.allow_read = true;
                },
                ToolFamily::Grep => {
                    policy.grep = true;
                    policy.glob = true;
                    policy.allow_read = true;
                    policy.allow_search = true;
                },
                ToolFamily::List => {
                    policy.glob = true;
                    policy.allow_read = true;
                    policy.allow_search = true;
                },
                ToolFamily::Shell => {
                    policy.bash = true;
                    policy.allow_execute = true;
                },
                ToolFamily::Write => {
                    policy.create = true;
                    policy.allow_write = true;
                },
                ToolFamily::Edit => {
                    policy.edit = true;
                    policy.allow_write = true;
                },
                ToolFamily::Fetch => {
                    policy.web_fetch = true;
                    policy.allow_fetch = true;
                },
                ToolFamily::Unmapped => {},
            }
            proof {
                assert(family == family_of(names[i as int]));
                lemma_one_more_name(names, i as int, ToolFamily::Read);
                lemma_one_more_name(names, i as int, ToolFamily::Grep);
                lemma_one_more_name(names, i as int, ToolFamily::List);
                lemma_one_more_name(names, i as int, ToolFamily::Shell);
                lemma_one_more_name(names, i as int, ToolFamily::Write);
                lemma_one_more_name(names, i as int, ToolFamily::Edit);
                lemma_one_more_name(names, i as int, ToolFamily::Fetch);
            }
            i += 1;
        }
        assert(names.take(i as int) =~= names);
        policy
    }

    /// The names of the tools that the official CLI has, in alphabetical
    /// order.
    pub fn available_tools(&self) -> (names: Vec<String>)
        ensures
            texts(names@) == self.tools(),
    {
        let mut names: Vec<String> = Vec::new();
        assert(texts(names@) =~= Seq::empty());
        push_if(&mut names, self.bash, "bash");
        assert(texts(names@) =~= name_if(self.bash, "bash"@));
        push_if(&mut names, self.create, "create");
        push_if(&mut names, self.edit, "edit");
        push_if(&mut names, self.glob, "glob");
        push_if(&mut names, self.grep, "grep");
        push_if(&mut names, self.view, "view");
        push_if(&mut names, self.web_fetch, "web_fetch");
        names
    }

    /// The argument that tells the official CLI which tools it has.
    pub fn configure_command(&self) -> (argument: String)
        ensures
            argument@ == self.argument(),
    {
        let names = self.available_tools();
        assert(texts(names@).len() == names@.len());
        if names.len() == 0 {
            "--available-tools".to_owned()
        } else {
            concat("--available-tools=", join(&names, ",").as_str())
        }
    }

    /// Whether a kind of tool call may be made.
    pub fn allows(&self, kind: Option<AcpToolKind>) -> (r: bool)
        ensures
            r == self.allowed(kind),
    {
        match kind {
            Some(AcpToolKind::Read) => self.allow_read,
            Some(AcpToolKind::Search) => self.allow_search,
            Some(AcpToolKind::Edit) | Some(AcpToolKind::Delete) | Some(AcpToolKind::Move) =>
                self.allow_write,
            Some(AcpToolKind::Execute) => self.allow_execute,
            Some(AcpToolKind::Fetch) => self.allow_fetch,
            _ => false,
        }
    }
}

/// What one more name adds to the offered ones.
proof fn lemma_one_more_name(names: Seq<Seq<char>>, i: int, family: ToolFamily)
    requires
        0 <= i < names.len(),
    ensures
        offers(names.take(i + 1), family) == (offers(names.take(i), family) || family_of(names[i])
            == family),
{
    let less = names.take(i);
    let more = names.take(i + 1);
    if offers(less, family) {
        let k = choose|k: int| 0 <= k < less.len() && family_of(#[trigger] less[k]) == family;
        assert(more[k] == less[k]);
    }
    if family_of(names[i]) == family {
        assert(more[i] == names[i]);
    }
    if offers(more, family) {
        let k = choose|k: int| 0 <= k < more.len() && family_of(#[trigger] more[k]) == family;
        if k < i {
            assert(less[k] == more[k]);
        }
    }
}

/// A tool call whose kind is not known, or for which no tool is ever offered,
/// may not be made, whatever is offered; and where nothing is offered, none
/// may be made.
pub proof fn law_unmapped_tool_calls_are_denied(
    names: Seq<Seq<char>>,
    kind: Option<AcpToolKind>,
)
    ensures
        !policy_for(names).allowed(None),
        !policy_for(names).allowed(Some(AcpToolKind::Think)),
        !policy_for(names).allowed(Some(AcpToolKind::SwitchMode)),
        !policy_for(names).allowed(Some(AcpToolKind::Other)),
        !policy_for(Seq::empty()).allowed(kind),
        policy_for(Seq::empty()).tools().len() == 0,
{
}

/// What may be changed, run or fetched is allowed only where a tool that does
/// so is offered: tools that only read allow nothing else.
pub proof fn law_reading_allows_no_more(names: Seq<Seq<char>>, kind: AcpToolKind)
    requires
        !offers(names, ToolFamily::Write),
        !offers(names, ToolFamily::Edit),
        !offers(names, ToolFamily::Shell),
        !offers(names, ToolFamily::Fetch),
        policy_for(names).allowed(Some(kind)),
    ensures
        kind == AcpToolKind::Read || kind == AcpToolKind::Search,
{
}

impl CopilotOfficialToolPolicy {
    /// What one of two policies or both allow.
    pub open spec fn union(self, other: CopilotOfficialToolPolicy) -> CopilotOfficialToolPolicy {
        CopilotOfficialToolPolicy {
            bash: self.bash || other.bash,
            create: self.create || other.create,
            edit: self.edit || other.edit,
            glob: self.glob || other.glob,
            grep: self.grep || other.grep,
            view: self.view || other.view,
            web_fetch: self.web_fetch || other.web_fetch,
            allow_read: self.allow_read || other.allow_read,
            allow_search: self.allow_search || other.allow_search,
            allow_write: self.allow_write || other.allow_write,
            allow_execute: self.allow_execute || other.allow_execute,
            allow_fetch: self.allow_fetch || other.allow_fetch,
        }
    }
}

/// A tool is among two lists together where it is among one of them.
proof fn lemma_offers_together(
    names: Seq<Seq<char>>,
    others: Seq<Seq<char>>,
    family: ToolFamily,
)
    ensures
        offers(names + others, family) == (offers(names, family) || offers(others, family)),
{
    let together = names + others;
    if offers(names, family) {
        let i = choose|i: int| 0 <= i < names.len() && family_of(#[trigger] names[i]) == family;
        assert(family_of(together[i]) == family);
    }
    if offers(others, family) {
        let i = choose|i: int| 0 <= i < others.len() && family_of(#[trigger] others[i]) == family;
        assert(together[names.len() + i] == others[i]);
    }
    if offers(together, family) {
        let i = choose|i: int|
            0 <= i < together.len() && family_of(#[trigger] together[i]) == family;
        if i < names.len() {
            assert(family_of(names[i]) == family);
        } else {
            assert(family_of(others[i - names.len()]) == family);
        }
    }
}

/// Two lists of tools together allow what one of them or both allow, and
/// nothing else.
pub proof fn law_tools_together_allow_the_union(names: Seq<Seq<char>>, others: Seq<Seq<char>>)
    ensures
        policy_for(names + others) == policy_for(names).union(policy_for(others)),
{
    lemma_offers_together(names, others, ToolFamily::Read);
    lemma_offers_together(names, others, ToolFamily::Grep);
    lemma_offers_together(names, others, ToolFamily::List);
    lemma_offers_together(names, others, ToolFamily::Shell);
    lemma_offers_together(names, others, ToolFamily::Write);
    lemma_offers_together(names, others, ToolFamily::Edit);
    lemma_offers_together(names, others, ToolFamily::Fetch);
}

/// The kinds of the tools that callers offer, by their names: these names and no
/// others have a kind.
proof fn lemma_families(name: Seq<char>)
    ensures
        family_of(name) == ToolFamily::Read <==> (name == "read"@ || name == "view"@ || name == "read_file"@ || name == "file_read"@),
        family_of(name) == ToolFamily::Grep <==> (name == "agentgrep"@ || name == "grep"@ || name == "rg"@ || name == "file_grep"@),
        family_of(name) == ToolFamily::List <==> (name == "ls"@ || name == "glob"@),
        family_of(name) == ToolFamily::Shell <==> (name == "bash"@ || name == "shell"@ || name == "shell_exec"@),
        family_of(name) == ToolFamily::Write <==> (name == "write"@ || name == "write_file"@ || name == "file_write"@),
        family_of(name) == ToolFamily::Edit <==> (name == "edit"@ || name == "multiedit"@ || name == "edit_file"@ || name == "file_edit"@),
        family_of(name) == ToolFamily::Fetch <==> (name == "webfetch"@ || name == "web_fetch"@),
{
    reveal_strlit("read");
    reveal_strlit("view");
    reveal_strlit("read_file");
    reveal_strlit("file_read");
    reveal_strlit("agentgrep");
    reveal_strlit("grep");
    reveal_strlit("rg");
    reveal_strlit("file_grep");
    reveal_strlit("ls");
    reveal_strlit("glob");
    reveal_strlit("bash");
    reveal_strlit("shell");
    reveal_strlit("shell_exec");
    reveal_strlit("write");
    reveal_strlit("write_file");
    reveal_strlit("file_write");
    reveal_strlit("edit");
    reveal_strlit("multiedit");
    reveal_strlit("edit_file");
    reveal_strlit("file_edit");
    reveal_strlit("webfetch");
    reveal_strlit("web_fetch");
    assert("read"@.len() == 4 && "read"@[0] == 'r' && "read"@[1] == 'e' && "read"@.last() == 'd');
    assert("view"@.len() == 4 && "view"@[0] == 'v' && "view"@[1] == 'i' && "view"@.last() == 'w');
    assert("read_file"@.len() == 9 && "read_file"@[0] == 'r' && "read_file"@[1] == 'e' && "read_file"@.last() == 'e');
    assert("file_read"@.len() == 9 && "file_read"@[0] == 'f' && "file_read"@[1] == 'i' && "file_read"@.last() == 'd');
    assert("agentgrep"@.len() == 9 && "agentgrep"@[0] == 'a' && "agentgrep"@[1] == 'g' && "agentgrep"@.last() == 'p');
    assert("grep"@.len() == 4 && "grep"@[0] == 'g' && "grep"@[1] == 'r' && "grep"@.last() == 'p');
    assert("rg"@.len() == 2 && "rg"@[0] == 'r' && "rg"@[1] == 'g' && "rg"@.last() == 'g');
    assert("file_grep"@.len() == 9 && "file_grep"@[0] == 'f' && "file_grep"@[1] == 'i' && "file_grep"@.last() == 'p');
    assert("ls"@.len() == 2 && "ls"@[0] == 'l' && "ls"@[1] == 's' && "ls"@.last() == 's');
    assert("glob"@.len() == 4 && "glob"@[0] == 'g' && "glob"@[1] == 'l' && "glob"@.last() == 'b');
    assert("bash"@.len() == 4 && "bash"@[0] == 'b' && "bash"@[1] == 'a' && "bash"@.last() == 'h');
    assert("shell"@.len() == 5 && "shell"@[0] == 's' && "shell"@[1] == 'h' && "shell"@.last() == 'l');
    assert("shell_exec"@.len() == 10 && "shell_exec"@[0] == 's' && "shell_exec"@[1] == 'h' && "shell_exec"@.last() == 'c');
    assert("write"@.len() == 5 && "write"@[0] == 'w' && "write"@[1] == 'r' && "write"@.last() == 'e');
    assert("write_file"@.len() == 10 && "write_file"@[0] == 'w' && "write_file"@[1] == 'r' && "write_file"@.last() == 'e');
    assert("file_write"@.len() == 10 && "file_write"@[0] == 'f' && "file_write"@[1] == 'i' && "file_write"@.last() == 'e');
    assert("edit"@.len() == 4 && "edit"@[0] == 'e' && "edit"@[1] == 'd' && "edit"@.last() == 't');
    assert("multiedit"@.len() == 9 && "multiedit"@[0] == 'm' && "multiedit"@[1] == 'u' && "multiedit"@.last() == 't');
    assert("edit_file"@.len() == 9 && "edit_file"@[0] == 'e' && "edit_file"@[1] == 'd' && "edit_file"@.last() == 'e');
    assert("file_edit"@.len() == 9 && "file_edit"@[0] == 'f' && "file_edit"@[1] == 'i' && "file_edit"@.last() == 't');
    assert("webfetch"@.len() == 8 && "webfetch"@[0] == 'w' && "webfetch"@[1] == 'e' && "webfetch"@.last() == 'h');
    assert("web_fetch"@.len() == 9 && "web_fetch"@[0] == 'w' && "web_fetch"@[1] == 'e' && "web_fetch"@.last() == 'h');
}

/// A kind is offered where one of the tools of that kind is.
proof fn lemma_offered(names: Seq<Seq<char>>)
    ensures
        offers(names, ToolFamily::Read) <==> (names.contains("read"@) || names.contains("view"@) || names.contains("read_file"@) || names.contains("file_read"@)),
        offers(names, ToolFamily::Grep) <==> (names.contains("agentgrep"@) || names.contains("grep"@) || names.contains("rg"@) || names.contains("file_grep"@)),
        offers(names, ToolFamily::List) <==> (names.contains("ls"@) || names.contains("glob"@)),
        offers(names, ToolFamily::Shell) <==> (names.contains("bash"@) || names.contains("shell"@) || names.contains("shell_exec"@)),
        offers(names, ToolFamily::Write) <==> (names.contains("write"@) || names.contains("write_file"@) || names.contains("file_write"@)),
        offers(names, ToolFamily::Edit) <==> (names.contains("edit"@) || names.contains("multiedit"@) || names.contains("edit_file"@) || names.contains("file_edit"@)),
        offers(names, ToolFamily::Fetch) <==> (names.contains("webfetch"@) || names.contains("web_fetch"@)),
{
    assert forall|i: int| 0 <= i < names.len() implies {
        &&& family_of(#[trigger] names[i]) == ToolFamily::Read <==> (names[i] == "read"@ || names[i] == "view"@ || names[i] == "read_file"@ || names[i] == "file_read"@)
        &&& family_of(names[i]) == ToolFamily::Grep <==> (names[i] == "agentgrep"@ || names[i] == "grep"@ || names[i] == "rg"@ || names[i] == "file_grep"@)
        &&& family_of(names[i]) == ToolFamily::List <==> (names[i] == "ls"@ || names[i] == "glob"@)
        &&& family_of(names[i]) == ToolFamily::Shell <==> (names[i] == "bash"@ || names[i] == "shell"@ || names[i] == "shell_exec"@)
        &&& family_of(names[i]) == ToolFamily::Write <==> (names[i] == "write"@ || names[i] == "write_file"@ || names[i] == "file_write"@)
        &&& family_of(names[i]) == ToolFamily::Edit <==> (names[i] == "edit"@ || names[i] == "multiedit"@ || names[i] == "edit_file"@ || names[i] == "file_edit"@)
        &&& family_of(names[i]) == ToolFamily::Fetch <==> (names[i] == "webfetch"@ || names[i] == "web_fetch"@)
    } by {
        lemma_families(names[i]);
    }
    if names.contains("read"@) {
        let i = choose|i: int| 0 <= i < names.len() && names[i] == "read"@;
        assert(family_of(names[i]) == ToolFamily::Read);
    }
    if names.contains("view"@) {
        let i = choose|i: int| 0 <= i < names.len() && names[i] == "view"@;
        assert(family_of(names[i]) == ToolFamily::Read);
    }
    if names.contains("read_file"@) {
        let i = choose|i: int| 0 <= i < names.len() && names[i] == "read_file"@;
        assert(family_of(names[i]) == ToolFamily::Read);
    }
    if names.contains("file_read"@) {
        let i = choose|i: int| 0 <= i < names.len() && names[i] == "file_read"@;
        assert(family_of(names[i]) == ToolFamily::Read);
    }
    if names.contains("agentgrep"@) {
        let i = choose|i: int| 0 <= i < names.len() && names[i] == "agentgrep"@;
        assert(family_of(names[i]) == ToolFamily::Grep);
    }
    if names.contains("grep"@) {
        let i = choose|i: int| 0 <= i < names.len() && names[i] == "grep"@;
        assert(family_of(names[i]) == ToolFamily::Grep);
    }
    if names.contains("rg"@) {
        let i = choose|i: int| 0 <= i < names.len() && names[i] == "rg"@;
        assert(family_of(names[i]) == ToolFamily::Grep);
    }
    if names.contains("file_grep"@) {
        let i = choose|i: int| 0 <= i < names.len() && names[i] == "file_grep"@;
        assert(family_of(names[i]) == ToolFamily::Grep);
    }
    if names.contains("ls"@) {
        let i = choose|i: int| 0 <= i < names.len() && names[i] == "ls"@;
        assert(family_of(names[i]) == ToolFamily::List);
    }
    if names.contains("glob"@) {
        let i = choose|i: int| 0 <= i < names.len() && names[i] == "glob"@;
        assert(family_of(names[i]) == ToolFamily::List);
    }
    if names.contains("bash"@) {
        let i = choose|i: int| 0 <= i < names.len() && names[i] == "bash"@;
        assert(family_of(names[i]) == ToolFamily::Shell);
    }
    if names.contains("shell"@) {
        let i = choose|i: int| 0 <= i < names.len() && names[i] == "shell"@;
        assert(family_of(names[i]) == ToolFamily::Shell);
    }
    if names.contains("shell_exec"@) {
        let i = choose|i: int| 0 <= i < names.len() && names[i] == "shell_exec"@;
        assert(family_of(names[i]) == ToolFamily::Shell);
    }
    if names.contains("write"@) {
        let i = choose|i: int| 0 <= i < names.len() && names[i] == "write"@;
        assert(family_of(names[i]) == ToolFamily::Write);
    }
    if names.contains("write_file"@) {
        let i = choose|i: int| 0 <= i < names.len() && names[i] == "write_file"@;
        assert(family_of(names[i]) == ToolFamily::Write);
    }
    if names.contains("file_write"@) {
        let i = choose|i: int| 0 <= i < names.len() && names[i] == "file_write"@;
        assert(family_of(names[i]) == ToolFamily::Write);
    }
    if names.contains("edit"@) {
        let i = choose|i: int| 0 <= i < names.len() && names[i] == "edit"@;
        assert(family_of(names[i]) == ToolFamily::Edit);
    }
    if names.contains("multiedit"@) {
        let i = choose|i: int| 0 <= i < names.len() && names[i] == "multiedit"@;
        assert(family_of(names[i]) == ToolFamily::Edit);
    }
    if names.contains("edit_file"@) {
        let i = choose|i: int| 0 <= i < names.len() && names[i] == "edit_file"@;
        assert(family_of(names[i]) == ToolFamily::Edit);
    }
    if names.contains("file_edit"@) {
        let i = choose|i: int| 0 <= i < names.len() && names[i] == "file_edit"@;
        assert(family_of(names[i]) == ToolFamily::Edit);
    }
    if names.contains("webfetch"@) {
        let i = choose|i: int| 0 <= i < names.len() && names[i] == "webfetch"@;
        assert(family_of(names[i]) == ToolFamily::Fetch);
    }
    if names.contains("web_fetch"@) {
        let i = choose|i: int| 0 <= i < names.len() && names[i] == "web_fetch"@;
        assert(family_of(names[i]) == ToolFamily::Fetch);
    }
}

/// What the caller offers is what the official CLI may do, by the names of the
/// tools that are offered: to read, search, change files, run commands and
/// fetch, each exactly where a tool is offered that does so.
pub proof fn law_offered_tools_are_allowed(names: Seq<Seq<char>>)
    ensures
        ({
            let policy = policy_for(names);
            let read = names.contains("read"@) || names.contains("view"@) || names.contains("read_file"@) || names.contains("file_read"@);
            let grep = names.contains("agentgrep"@) || names.contains("grep"@) || names.contains("rg"@) || names.contains("file_grep"@);
            let list = names.contains("ls"@) || names.contains("glob"@);
            let shell = names.contains("bash"@) || names.contains("shell"@) || names.contains("shell_exec"@);
            let write = names.contains("write"@) || names.contains("write_file"@) || names.contains("file_write"@);
            let edit = names.contains("edit"@) || names.contains("multiedit"@) || names.contains("edit_file"@) || names.contains("file_edit"@);
            let fetch = names.contains("webfetch"@) || names.contains("web_fetch"@);
            &&& policy.allowed(Some(AcpToolKind::Read)) <==> read || grep || list
            &&& policy.allowed(Some(AcpToolKind::Search)) <==> grep || list
            &&& policy.allowed(Some(AcpToolKind::Edit)) <==> write || edit
            &&& policy.allowed(Some(AcpToolKind::Delete)) <==> write || edit
            &&& policy.allowed(Some(AcpToolKind::Move)) <==> write || edit
            &&& policy.allowed(Some(AcpToolKind::Execute)) <==> shell
            &&& policy.allowed(Some(AcpToolKind::Fetch)) <==> fetch
            &&& !policy.allowed(Some(AcpToolKind::Think))
            &&& !policy.allowed(Some(AcpToolKind::SwitchMode))
            &&& !policy.allowed(Some(AcpToolKind::Other))
            &&& !policy.allowed(None)
            &&& policy.tools().contains("view"@) <==> read
            &&& policy.tools().contains("grep"@) <==> grep
            &&& policy.tools().contains("glob"@) <==> grep || list
            &&& policy.tools().contains("bash"@) <==> shell
            &&& policy.tools().contains("create"@) <==> write
            &&& policy.tools().contains("edit"@) <==> edit
            &&& policy.tools().contains("web_fetch"@) <==> fetch
        }),
{
    lemma_offered(names);
    lemma_tools(policy_for(names));
}

/// One more name is there where it counts.
proof fn lemma_with_name(before: Seq<Seq<char>>, counts: bool, name: Seq<char>, x: Seq<char>)
    ensures
        (before + name_if(counts, name)).contains(x) <==> before.contains(x) || (counts && x
            == name),
{
    let after = before + name_if(counts, name);
    if before.contains(x) {
        let i = choose|i: int| 0 <= i < before.len() && before[i] == x;
        assert(after[i] == x);
    }
    if counts {
        assert(after[before.len() as int] == name);
    }
    if after.contains(x) {
        let i = choose|i: int| 0 <= i < after.len() && after[i] == x;
        if i < before.len() {
            assert(before[i] == x);
        }
    }
}

/// The tools that the official CLI has are those that are switched on.
proof fn lemma_tool_is_there(policy: CopilotOfficialToolPolicy, x: Seq<char>)
    ensures
        policy.tools().contains(x) <==> {
            ||| policy.bash && x == "bash"@
            ||| policy.create && x == "create"@
            ||| policy.edit && x == "edit"@
            ||| policy.glob && x == "glob"@
            ||| policy.grep && x == "grep"@
            ||| policy.view && x == "view"@
            ||| policy.web_fetch && x == "web_fetch"@
        },
{
    let none = Seq::<Seq<char>>::empty();
    assert(none + name_if(policy.bash, "bash"@) =~= name_if(policy.bash, "bash"@));
    lemma_with_name(none, policy.bash, "bash"@, x);
    let b0 = name_if(policy.bash, "bash"@);
    lemma_with_name(b0, policy.create, "create"@, x);
    let b1 = b0 + name_if(policy.create, "create"@);
    lemma_with_name(b1, policy.edit, "edit"@, x);
    let b2 = b1 + name_if(policy.edit, "edit"@);
    lemma_with_name(b2, policy.glob, "glob"@, x);
    let b3 = b2 + name_if(policy.glob, "glob"@);
    lemma_with_name(b3, policy.grep, "grep"@, x);
    let b4 = b3 + name_if(policy.grep, "grep"@);
    lemma_with_name(b4, policy.view, "view"@, x);
    let b5 = b4 + name_if(policy.view, "view"@);
    lemma_with_name(b5, policy.web_fetch, "web_fetch"@, x);
}

/// The tools that the official CLI has are those that are switched on.
proof fn lemma_tools(policy: CopilotOfficialToolPolicy)
    ensures
        policy.tools().contains("bash"@) <==> policy.bash,
        policy.tools().contains("create"@) <==> policy.create,
        policy.tools().contains("edit"@) <==> policy.edit,
        policy.tools().contains("glob"@) <==> policy.glob,
        policy.tools().contains("grep"@) <==> policy.grep,
        policy.tools().contains("view"@) <==> policy.view,
        policy.tools().contains("web_fetch"@) <==> policy.web_fetch,
{
    reveal_strlit("bash");
    reveal_strlit("create");
    reveal_strlit("edit");
    reveal_strlit("glob");
    reveal_strlit("grep");
    reveal_strlit("view");
    reveal_strlit("web_fetch");
    assert("bash"@.len() == 4 && "bash"@[0] == 'b' && "bash"@[1] == 'a');
    assert("create"@.len() == 6 && "create"@[0] == 'c' && "create"@[1] == 'r');
    assert("edit"@.len() == 4 && "edit"@[0] == 'e' && "edit"@[1] == 'd');
    assert("glob"@.len() == 4 && "glob"@[0] == 'g' && "glob"@[1] == 'l');
    assert("grep"@.len() == 4 && "grep"@[0] == 'g' && "grep"@[1] == 'r');
    assert("view"@.len() == 4 && "view"@[0] == 'v' && "view"@[1] == 'i');
    assert("web_fetch"@.len() == 9 && "web_fetch"@[0] == 'w' && "web_fetch"@[1] == 'e');
    lemma_tool_is_there(policy, "bash"@);
    lemma_tool_is_there(policy, "create"@);
    lemma_tool_is_there(policy, "edit"@);
    lemma_tool_is_there(policy, "glob"@);
    lemma_tool_is_there(policy, "grep"@);
    lemma_tool_is_there(policy, "view"@);
    lemma_tool_is_there(policy, "web_fetch"@);
}

/// The official CLI is told of exactly the tools that it has: by their names
/// with commas between them, or that it has none.
pub proof fn law_tools_are_told(policy: CopilotOfficialToolPolicy)
    ensures
        policy.tools().len() == 0 ==> policy.argument() == "--available-tools"@,
        policy.tools().len() == 1 ==> policy.argument() == "--available-tools="@ + policy.tools()[0],
        policy.tools().len() > 1 ==> policy.argument() == "--available-tools="@ + joined(
            policy.tools().drop_last(),
            ","@,
        ) + ","@ + policy.tools().last(),
{
    if policy.tools().len() > 1 {
        let before = joined(policy.tools().drop_last(), ","@);
        assert("--available-tools="@ + (before + ","@ + policy.tools().last())
            =~= "--available-tools="@ + before + ","@ + policy.tools().last());
    }
}

} // verus!
