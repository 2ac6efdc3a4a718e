//! The unattended bootstrap sequence: install the tool, pull a default
//! model, list the installed models.
//!
//! The sequence is keyed by the operating-system name. Each supported
//! system gets an ordered plan of shell commands; a [`Sequencer`] hands the
//! commands out one at a time and is told each command's outcome, aborting
//! the rest of the plan on the first failure. Running the commands is left
//! to the caller.
use vstd::prelude::*;

verus! {

/// The platforms the bootstrap sequence distinguishes.
#[derive(Clone, Copy, PartialEq, Eq, Structural, Debug)]
pub enum Os {
    Windows,
    MacOs,
    Linux,
    /// Any other operating-system name: the bootstrap refuses to run.
    Unsupported,
}

/// The platform named by an operating-system identifier string.
pub open spec fn os_of(name: Seq<char>) -> Os {
    if name == "windows"@ {
        Os::Windows
    } else if name == "macos"@ {
        Os::MacOs
    } else if name == "linux"@ {
        Os::Linux
    } else {
        Os::Unsupported
    }
}

/// Compares two string slices by their characters.
fn str_eq(a: &str, b: &str) -> (r: bool)
    ensures
        r == (a@ == b@),
{
    let sa = String::from_str(a);
    let sb = String::from_str(b);
    sa == sb
}

/// Maps an operating-system identifier string to its platform.
pub fn detect_os(name: &str) -> (r: Os)
    ensures
        r == os_of(name@),
{
    if str_eq(name, "windows") {
        Os::Windows
    } else if str_eq(name, "macos") {
        Os::MacOs
    } else if str_eq(name, "linux") {
        Os::Linux
    } else {
        Os::Unsupported
    }
}

/// One shell invocation of the bootstrap plan: a program and its arguments.
pub struct ShellCommand {
    pub program: String,
    pub args: Vec<String>,
}

/// A command as its program's characters and its arguments' characters.
pub open spec fn command_view(c: ShellCommand) -> (Seq<char>, Seq<Seq<char>>) {
    (c.program@, c.args.deep_view())
}

/// A plan as the views of its commands, in execution order.
pub open spec fn plan_view(plan: Seq<ShellCommand>) -> Seq<(Seq<char>, Seq<Seq<char>>)> {
    plan.map_values(|c: ShellCommand| command_view(c))
}

/// The Windows plan: install via the package manager, pull the default
/// model, list models — three separate shell invocations.
pub open spec fn windows_plan() -> Seq<(Seq<char>, Seq<Seq<char>>)> {
    seq![
        ("cmd"@, seq!["/C"@, "winget install -e --id Ollama.Ollama"@]),
        ("cmd"@, seq!["/C"@, "ollama pull deepseek-r1:1.5b"@]),
        ("cmd"@, seq!["/C"@, "ollama list"@]),
    ]
}

/// The macOS and Linux plan: one shell line chaining install script, model
/// pull and model list, so a failure anywhere aborts the whole line.
pub open spec fn unix_plan() -> Seq<(Seq<char>, Seq<Seq<char>>)> {
    seq![
        (
            "sh"@,
            seq![
                "-c"@,
                "curl -fsSL https://ollama.com/install.sh | sh && ollama pull deepseek-r1:1.5b && ollama list"@,
            ],
        ),
    ]
}

/// The bootstrap plan of each platform; unsupported platforms get no
/// commands at all.
pub open spec fn plan_of(os: Os) -> Seq<(Seq<char>, Seq<Seq<char>>)> {
    match os {
        Os::Windows => windows_plan(),
        Os::MacOs => unix_plan(),
        Os::Linux => unix_plan(),
        Os::Unsupported => Seq::empty(),
    }
}

/// Builds a command with two arguments.
fn command2(program: &str, arg0: &str, arg1: &str) -> (c: ShellCommand)
    ensures
        command_view(c) == (program@, seq![arg0@, arg1@]),
{
    let mut args: Vec<String> = Vec::new();
    args.push(String::from_str(arg0));
    args.push(String::from_str(arg1));
    let c = ShellCommand { program: String::from_str(program), args };
    proof {
        assert(c.args.deep_view() =~= seq![arg0@, arg1@]);
    }
    c
}

/// Builds the ordered command plan of the given platform.
pub fn bootstrap_plan(os: Os) -> (r: Vec<ShellCommand>)
    ensures
        plan_view(r@) == plan_of(os),
{
    let mut plan: Vec<ShellCommand> = Vec::new();
    match os {
        Os::Windows => {
            plan.push(command2("cmd", "/C", "winget install -e --id Ollama.Ollama"));
            plan.push(command2("cmd", "/C", "ollama pull deepseek-r1:1.5b"));
            plan.push(command2("cmd", "/C", "ollama list"));
        },
        Os::MacOs | Os::Linux => {
            plan.push(
                command2(
                    "sh",
                    "-c",
                    "curl -fsSL https://ollama.com/install.sh | sh && ollama pull deepseek-r1:1.5b && ollama list",
                ),
            );
        },
        Os::Unsupported => {},
    }
    proof {
        assert(plan_view(plan@) =~~= plan_of(os));
    }
    plan
}

/// Hands out the commands of a plan in order, one at a time, and records
/// each command's outcome. After a failed command no further command is
/// handed out: the rest of the plan is abandoned.
pub struct Sequencer {
    plan: Vec<ShellCommand>,
    next: usize,
    failed: bool,
}

impl Sequencer {
    /// The plan being run, as command views in execution order.
    pub closed spec fn plan_spec(self) -> Seq<(Seq<char>, Seq<Seq<char>>)> {
        plan_view(self.plan@)
    }

    /// How many commands have completed successfully.
    pub closed spec fn steps_done(self) -> nat {
        self.next as nat
    }

    /// Whether some command has failed, aborting the sequence.
    pub closed spec fn has_failed(self) -> bool {
        self.failed
    }

    /// No more commands have been handed out than the plan holds.
    pub closed spec fn wf(self) -> bool {
        self.next <= self.plan.len()
    }

    /// Starts a run of the given plan.
    pub fn new(plan: Vec<ShellCommand>) -> (s: Sequencer)
        ensures
            s.wf(),
            s.plan_spec() == plan_view(plan@),
            s.steps_done() == 0,
            !s.has_failed(),
    {
        Sequencer { plan, next: 0, failed: false }
    }

    /// The next command to run: `None` once a command has failed or the
    /// plan is exhausted.
    pub fn next_command(&self) -> (r: Option<&ShellCommand>)
        requires
            self.wf(),
        ensures
            match r {
                Some(c) => !self.has_failed() && self.steps_done() < self.plan_spec().len()
                    && command_view(*c) == self.plan_spec()[self.steps_done() as int],
                None => self.has_failed() || self.steps_done() == self.plan_spec().len(),
            },
    {
        if !self.failed && self.next < self.plan.len() {
            Some(&self.plan[self.next])
        } else {
            None
        }
    }

    /// Records the outcome of the command last handed out. On success the
    /// run moves to the next command; on failure it aborts.
    pub fn record_step(&mut self, ok: bool)
        requires
            old(self).wf(),
            !old(self).has_failed(),
            old(self).steps_done() < old(self).plan_spec().len(),
        ensures
            final(self).wf(),
            final(self).plan_spec() == old(self).plan_spec(),
            ok ==> !final(self).has_failed() && final(self).steps_done() == old(self).steps_done()
                + 1,
            !ok ==> final(self).has_failed() && final(self).steps_done() == old(
                self,
            ).steps_done(),
    {
        if ok {
            self.next = self.next + 1;
        } else {
            self.failed = true;
        }
    }

    /// Whether the whole plan ran to completion with every command
    /// succeeding.
    pub fn finished_ok(&self) -> (r: bool)
        requires
            self.wf(),
        ensures
            r == (!self.has_failed() && self.steps_done() == self.plan_spec().len()),
    {
        !self.failed && self.next == self.plan.len()
    }
}

/// Plans the bootstrap for the named operating system: the sequencer over
/// that platform's commands, or the refusal message when the platform is
/// unsupported — in which case no command is ever handed out.
pub fn bootstrap_init(os_name: &str) -> (r: Result<Sequencer, String>)
    ensures
        os_of(os_name@) == Os::Unsupported ==> (r matches Err(m) && m@ == "Unsupported OS: "@
            + os_name@),
        os_of(os_name@) != Os::Unsupported ==> (r matches Ok(s) && s.wf() && s.plan_spec()
            == plan_of(os_of(os_name@)) && s.steps_done() == 0 && !s.has_failed()),
{
    let os = detect_os(os_name);
    match os {
        Os::Unsupported => Err(unsupported_os_message(os_name)),
        _ => {
            let plan = bootstrap_plan(os);
            Ok(Sequencer::new(plan))
        },
    }
}

/// The refusal printed for an operating system the bootstrap does not know.
pub fn unsupported_os_message(os_name: &str) -> (r: String)
    ensures
        r@ == "Unsupported OS: "@ + os_name@,
{
    let mut s = String::from_str("Unsupported OS: ");
    s.append(os_name);
    s
}

/// The failure text for a command that could not be started; the detail is
/// the operating-system error's text.
pub fn spawn_failure_message(detail: &str) -> (r: String)
    ensures
        r@ == "Failed to start command: "@ + detail@,
{
    let mut s = String::from_str("Failed to start command: ");
    s.append(detail);
    s
}

/// The failure text for a command that started but exited unsuccessfully;
/// the detail describes the exit code.
pub fn step_failure_message(detail: &str) -> (r: String)
    ensures
        r@ == "Command failed with exit code: "@ + detail@,
{
    let mut s = String::from_str("Command failed with exit code: ");
    s.append(detail);
    s
}

/// The line printed when the whole bootstrap plan has succeeded.
pub fn completion_message() -> (r: String)
    ensures
        r@ == "Done! Ollama installed, model pulled, and models listed."@,
{
    String::from_str("Done! Ollama installed, model pulled, and models listed.")
}

/// The process exit status of the bootstrap: zero exactly on full success.
pub fn bootstrap_exit_code(succeeded: bool) -> (r: i32)
    ensures
        r == if succeeded {
            0int
        } else {
            1int
        },
{
    if succeeded {
        0
    } else {
        1
    }
}

} // verus!
