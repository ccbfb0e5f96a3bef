//! How the agent is started and stopped.
//!
//! Nothing here touches the operating system. [`ClaudeProcess::spawn`] works
//! out what to run and what to feed it; the caller runs it and reports back
//! what went wrong, if anything, as a [`ProcessError`].

use crate::protocol::{ChatParams, ChatParamsView};
use crate::session::SessionManager;
use crate::text::{clone_opt, join, join_strings, opt_view, strings_view};
use vstd::prelude::*;
use vstd::string::*;

verus! {

/// One start of the agent: the program, its arguments, where it runs and
/// what is written to its standard input before that is closed.
#[derive(Debug, Clone, PartialEq, Eq)]
pub struct Invocation {
    pub program: String,
    pub args: Vec<String>,
    /// The working directory, where the request names one.
    pub cwd: Option<String>,
    /// The text for standard input. `None` means that nothing is written.
    pub input: Option<String>,
}

pub ghost struct InvocationView {
    pub program: Seq<char>,
    pub args: Seq<Seq<char>>,
    pub cwd: Option<Seq<char>>,
    pub input: Option<Seq<char>>,
}

impl View for Invocation {
    type V = InvocationView;

    open spec fn view(&self) -> InvocationView {
        InvocationView {
            program: self.program@,
            args: strings_view(self.args@),
            cwd: opt_view(self.cwd),
            input: opt_view(self.input),
        }
    }
}

/// A flag with its value, or nothing where there is no value.
pub open spec fn flag(name: Seq<char>, value: Option<Seq<char>>) -> Seq<Seq<char>> {
    match value {
        Some(v) => seq![name, v],
        None => Seq::empty(),
    }
}

/// The arguments that every run gets: print mode, streamed JSON output,
/// verbose, with partial messages.
pub open spec fn fixed_args() -> Seq<Seq<char>> {
    seq![
        "-p"@,
        "--output-format"@,
        "stream-json"@,
        "--verbose"@,
        "--include-partial-messages"@,
    ]
}

/// The allowed tools as one argument, joined by commas.
pub open spec fn tools_value(tools: Option<Seq<Seq<char>>>) -> Option<Seq<char>> {
    match tools {
        Some(t) => Some(join(t, ","@)),
        None => None,
    }
}

/// The full argument list for a request.
pub open spec fn command_args(p: ChatParamsView, resume: Option<Seq<char>>) -> Seq<Seq<char>> {
    fixed_args() + flag("--model"@, p.model) + flag("--allowed-tools"@, tools_value(p.allowed_tools))
        + flag("--append-system-prompt"@, p.append_system_prompt) + flag(
        "--permission-mode"@,
        p.permission_mode,
    ) + flag("--resume"@, resume)
}

/// The prompt as the agent gets it: the context, a blank line and the
/// prompt, or the prompt alone.
pub open spec fn prompt_text(p: ChatParamsView) -> Seq<char> {
    match p.context {
        Some(context) => context + "\n\n"@ + p.prompt,
        None => p.prompt,
    }
}

/// What is written to standard input: the prompt text unless it is empty.
pub open spec fn stdin_text(p: ChatParamsView) -> Option<Seq<char>> {
    if prompt_text(p).len() == 0 {
        None
    } else {
        Some(prompt_text(p))
    }
}

/// The invocation of `program` for a request.
pub open spec fn invocation_for(
    program: Seq<char>,
    p: ChatParamsView,
    resume: Option<Seq<char>>,
) -> InvocationView {
    InvocationView {
        program,
        args: command_args(p, resume),
        cwd: p.cwd,
        input: stdin_text(p),
    }
}

/// What can go wrong with the agent process.
#[derive(Debug, Clone, PartialEq, Eq)]
pub enum ProcessError {
    /// The program could not be started; the text says why.
    Spawn(String),
    NoStdout,
    NoStderr,
    NoStdin,
    /// The prompt could not be written.
    StdinWrite(String),
}

pub ghost enum ProcessErrorView {
    Spawn(Seq<char>),
    NoStdout,
    NoStderr,
    NoStdin,
    StdinWrite(Seq<char>),
}

impl ProcessErrorView {
    /// The error in words, for a run of `program`.
    pub open spec fn message(self, program: Seq<char>) -> Seq<char> {
        match self {
            ProcessErrorView::Spawn(why) => "Failed to spawn "@ + program + ": "@ + why,
            ProcessErrorView::NoStdout => "No stdout"@,
            ProcessErrorView::NoStderr => "No stderr"@,
            ProcessErrorView::NoStdin => "No stdin"@,
            ProcessErrorView::StdinWrite(why) => "Failed to write to stdin: "@ + why,
        }
    }
}

impl View for ProcessError {
    type V = ProcessErrorView;

    open spec fn view(&self) -> ProcessErrorView {
        match self {
            ProcessError::Spawn(why) => ProcessErrorView::Spawn(why@),
            ProcessError::NoStdout => ProcessErrorView::NoStdout,
            ProcessError::NoStderr => ProcessErrorView::NoStderr,
            ProcessError::NoStdin => ProcessErrorView::NoStdin,
            ProcessError::StdinWrite(why) => ProcessErrorView::StdinWrite(why@),
        }
    }
}

impl ProcessError {
    /// The error as the host is told about it, for a run of `program`.
    pub fn message(&self, program: &str) -> (res: String)
        ensures
            res@ == self@.message(program@),
    {
        match self {
            ProcessError::Spawn(why) => {
                let mut out = String::from_str("Failed to spawn ");
                out.append(program);
                out.append(": ");
                out.append(why.as_str());
                out
            },
            ProcessError::NoStdout => String::from_str("No stdout"),
            ProcessError::NoStderr => String::from_str("No stderr"),
            ProcessError::NoStdin => String::from_str("No stdin"),
            ProcessError::StdinWrite(why) => {
                let mut out = String::from_str("Failed to write to stdin: ");
                out.append(why.as_str());
                out
            },
        }
    }
}

fn push_flag(args: &mut Vec<String>, name: &str, value: &Option<String>)
    ensures
        strings_view(final(args)@) == strings_view(old(args)@) + flag(name@, opt_view(*value)),
{
    match value {
        Some(v) => {
            args.push(String::from_str(name));
            args.push(v.clone());
        },
        None => {},
    }
    assert(strings_view(args@) =~= strings_view(old(args)@) + flag(name@, opt_view(*value)));
}

/// The argument list for a request.
pub fn build_args(params: &ChatParams, resume_session: &Option<String>) -> (res: Vec<String>)
    ensures
        strings_view(res@) == command_args(params@, opt_view(*resume_session)),
{
    let mut args: Vec<String> = Vec::new();
    args.push(String::from_str("-p"));
    args.push(String::from_str("--output-format"));
    args.push(String::from_str("stream-json"));
    args.push(String::from_str("--verbose"));
    args.push(String::from_str("--include-partial-messages"));
    assert(strings_view(args@) =~= fixed_args());
    push_flag(&mut args, "--model", &params.model);
    let tools = match &params.allowed_tools {
        Some(t) => Some(join_strings(t, ",")),
        None => None,
    };
    push_flag(&mut args, "--allowed-tools", &tools);
    push_flag(&mut args, "--append-system-prompt", &params.append_system_prompt);
    push_flag(&mut args, "--permission-mode", &params.permission_mode);
    push_flag(&mut args, "--resume", resume_session);
    args
}

/// The text for the agent's standard input, or `None` if there is none.
pub fn build_input(params: &ChatParams) -> (res: Option<String>)
    ensures
        opt_view(res) == stdin_text(params@),
{
    let text = match &params.context {
        Some(context) => {
            let mut t = context.clone();
            t.append("\n\n");
            t.append(params.prompt.as_str());
            t
        },
        None => params.prompt.clone(),
    };
    if text.as_str().is_empty() {
        None
    } else {
        Some(text)
    }
}

/// The bridge's handle on one run of the agent.
#[derive(Debug)]
pub struct ClaudeProcess {
    invocation: Invocation,
    aborted: bool,
}

pub ghost struct ClaudeProcessView {
    pub invocation: InvocationView,
    pub aborted: bool,
}

impl View for ClaudeProcess {
    type V = ClaudeProcessView;

    closed spec fn view(&self) -> ClaudeProcessView {
        ClaudeProcessView { invocation: self.invocation@, aborted: self.aborted }
    }
}

impl ClaudeProcess {
    /// Prepares a run of `program` for `params`, resuming `resume_session`
    /// where one is given.
    pub fn spawn(program: &str, params: &ChatParams, resume_session: Option<String>) -> (res: Self)
        ensures
            res@.invocation == invocation_for(program@, params@, opt_view(resume_session)),
            !res@.aborted,
    {
        let invocation = Invocation {
            program: program.to_owned(),
            args: build_args(params, &resume_session),
            cwd: clone_opt(&params.cwd),
            input: build_input(params),
        };
        Self { invocation, aborted: false }
    }

    /// What to run.
    pub fn invocation(&self) -> (res: &Invocation)
        ensures
            res@ == self@.invocation,
    {
        &self.invocation
    }

    /// Whether the run has been aborted.
    pub fn is_aborted(&self) -> (res: bool)
        ensures
            res == self@.aborted,
    {
        self.aborted
    }

    /// Aborts the run: the session is inactive from now on, whatever becomes
    /// of the process. Returns whether the process is still to be killed,
    /// which it is the first time only.
    pub fn abort(&mut self, session: &mut SessionManager) -> (kill: bool)
        ensures
            kill == !old(self)@.aborted,
            final(self)@ == (ClaudeProcessView { aborted: true, ..old(self)@ }),
            final(session)@ == old(session)@.deactivated(),
    {
        let kill = !self.aborted;
        self.aborted = true;
        session.set_inactive();
        kill
    }
}

} // verus!
