use vstd::prelude::*;
use vstd::string::StringExecFns;
use crate::location::{parent_dir, parent_of};
use crate::text::{decode_lossy, lossy_text};
use vstd::utf8::{decode_utf8, valid_utf8};

verus! {

/// Process-creation flag that keeps Windows from opening a console window.
pub const CREATE_NO_WINDOW: u32 = 0x0800_0000;

/// Leads the message of a resolution error.
pub const RESOLVE_FAILED: &'static str = "Failed to resolve resource: ";

/// The message of a path error.
pub const NO_PARENT: &'static str = "Failed to get parent directory";

/// Leads the message of a spawn error.
pub const SPAWN_FAILED: &'static str = "Failed to execute exiftool: ";

/// Platform capabilities, settled once at startup.
#[derive(Clone, Copy, Debug, PartialEq, Eq, Structural)]
pub struct LaunchConfig {
    pub suppress_console_window: bool,
}

impl LaunchConfig {
    pub fn new(suppress_console_window: bool) -> (r: LaunchConfig)
        ensures
            r.suppress_console_window == suppress_console_window,
    {
        LaunchConfig { suppress_console_window }
    }
}

/// Everything needed to start the child process.
#[derive(Debug)]
pub struct CommandPlan {
    pub program: String,
    pub args: Vec<String>,
    pub working_dir: String,
    pub suppress_console_window: bool,
}

pub ghost struct PlanView {
    pub program: Seq<char>,
    pub args: Seq<Seq<char>>,
    pub working_dir: Seq<char>,
    pub suppress_console_window: bool,
}

impl View for CommandPlan {
    type V = PlanView;

    open spec fn view(&self) -> PlanView {
        PlanView {
            program: self.program@,
            args: self.args.deep_view(),
            working_dir: self.working_dir@,
            suppress_console_window: self.suppress_console_window,
        }
    }
}

impl CommandPlan {
    /// The creation flags to hand to the operating system.
    pub fn creation_flags(&self) -> (r: u32)
        ensures
            r == (if self.suppress_console_window { CREATE_NO_WINDOW } else { 0u32 }),
    {
        if self.suppress_console_window {
            CREATE_NO_WINDOW
        } else {
            0
        }
    }
}

/// What a finished child process left behind: whether its exit status
/// reported success, and its two captured streams.
#[derive(Debug)]
pub struct ProcessOutput {
    pub success: bool,
    pub stdout: Vec<u8>,
    pub stderr: Vec<u8>,
}

pub ghost struct OutputView {
    pub success: bool,
    pub stdout: Seq<u8>,
    pub stderr: Seq<u8>,
}

impl View for ProcessOutput {
    type V = OutputView;

    open spec fn view(&self) -> OutputView {
        OutputView { success: self.success, stdout: self.stdout@, stderr: self.stderr@ }
    }
}

/// Why an invocation produced no tool output.
#[derive(Debug)]
pub enum InvokeError {
    /// The host could not locate its packaged resources.
    Resolution(String),
    /// The resolved tool path has no parent directory.
    Path,
    /// The operating system could not start the tool.
    Spawn(String),
    /// The tool ran and reported failure; carries its diagnostic text.
    Tool(String),
}

pub ghost enum ErrorView {
    Resolution(Seq<char>),
    Path,
    Spawn(Seq<char>),
    Tool(Seq<char>),
}

impl View for InvokeError {
    type V = ErrorView;

    open spec fn view(&self) -> ErrorView {
        match self {
            InvokeError::Resolution(d) => ErrorView::Resolution(d@),
            InvokeError::Path => ErrorView::Path,
            InvokeError::Spawn(d) => ErrorView::Spawn(d@),
            InvokeError::Tool(t) => ErrorView::Tool(t@),
        }
    }
}

/// The human-readable message for an error; the tool's own diagnostic is
/// passed on verbatim.
pub open spec fn error_text(e: ErrorView) -> Seq<char> {
    match e {
        ErrorView::Resolution(d) => RESOLVE_FAILED@ + d,
        ErrorView::Path => NO_PARENT@,
        ErrorView::Spawn(d) => SPAWN_FAILED@ + d,
        ErrorView::Tool(t) => t,
    }
}

impl InvokeError {
    pub fn message(&self) -> (r: String)
        ensures
            r@ == error_text(self@),
    {
        match self {
            InvokeError::Resolution(d) => {
                let mut m = String::from_str(RESOLVE_FAILED);
                m.append(d.as_str());
                m
            },
            InvokeError::Path => String::from_str(NO_PARENT),
            InvokeError::Spawn(d) => {
                let mut m = String::from_str(SPAWN_FAILED);
                m.append(d.as_str());
                m
            },
            InvokeError::Tool(t) => t.clone(),
        }
    }
}

/// The plan that a resolved tool path and the caller's arguments give:
/// the tool runs in its own directory, with the arguments as given.
pub open spec fn launch_spec(path: Seq<char>, args: Seq<Seq<char>>, config: LaunchConfig) -> Result<
    PlanView,
    ErrorView,
> {
    match parent_of(path) {
        Some(dir) => Ok(
            PlanView {
                program: path,
                args,
                working_dir: dir,
                suppress_console_window: config.suppress_console_window,
            },
        ),
        None => Err(ErrorView::Path),
    }
}

/// The plan, or the error, once the host has tried to locate the tool.
pub open spec fn resolve_spec(
    resolved: Result<Seq<char>, Seq<char>>,
    args: Seq<Seq<char>>,
    config: LaunchConfig,
) -> Result<PlanView, ErrorView> {
    match resolved {
        Ok(path) => launch_spec(path, args, config),
        Err(detail) => Err(ErrorView::Resolution(detail)),
    }
}

/// The outcome once the operating system has run, or failed to start, the
/// tool: its standard output on success, its standard error otherwise.
pub open spec fn outcome_spec(spawned: Result<OutputView, Seq<char>>) -> Result<Seq<char>, ErrorView> {
    match spawned {
        Ok(out) => if out.success {
            Ok(lossy_text(out.stdout))
        } else {
            Err(ErrorView::Tool(lossy_text(out.stderr)))
        },
        Err(detail) => Err(ErrorView::Spawn(detail)),
    }
}

/// The reply handed to the frontend: every error becomes its message.
pub open spec fn reply_spec(spawned: Result<OutputView, Seq<char>>) -> Result<Seq<char>, Seq<char>> {
    match outcome_spec(spawned) {
        Ok(text) => Ok(text),
        Err(e) => Err(error_text(e)),
    }
}

/// A whole invocation, where `tool` stands for what the operating system
/// does with a plan: run it to completion, or fail to start it. The tool is
/// consulted only once a plan exists.
pub open spec fn invocation_outcome(
    resolved: Result<Seq<char>, Seq<char>>,
    args: Seq<Seq<char>>,
    config: LaunchConfig,
    tool: spec_fn(PlanView) -> Result<OutputView, Seq<char>>,
) -> Result<Seq<char>, ErrorView> {
    match resolve_spec(resolved, args, config) {
        Ok(plan) => outcome_spec(tool(plan)),
        Err(e) => Err(e),
    }
}

/// What the frontend receives from a whole invocation.
pub open spec fn invocation_reply(
    resolved: Result<Seq<char>, Seq<char>>,
    args: Seq<Seq<char>>,
    config: LaunchConfig,
    tool: spec_fn(PlanView) -> Result<OutputView, Seq<char>>,
) -> Result<Seq<char>, Seq<char>> {
    match invocation_outcome(resolved, args, config, tool) {
        Ok(text) => Ok(text),
        Err(e) => Err(error_text(e)),
    }
}

pub open spec fn text_view(r: Result<String, String>) -> Result<Seq<char>, Seq<char>> {
    match r {
        Ok(t) => Ok(t@),
        Err(e) => Err(e@),
    }
}

pub open spec fn plan_view(r: Result<CommandPlan, InvokeError>) -> Result<PlanView, ErrorView> {
    match r {
        Ok(plan) => Ok(plan@),
        Err(e) => Err(e@),
    }
}

pub open spec fn outcome_view(r: Result<String, InvokeError>) -> Result<Seq<char>, ErrorView> {
    match r {
        Ok(t) => Ok(t@),
        Err(e) => Err(e@),
    }
}

pub open spec fn spawned_view(r: Result<ProcessOutput, String>) -> Result<OutputView, Seq<char>> {
    match r {
        Ok(out) => Ok(out@),
        Err(detail) => Err(detail@),
    }
}

/// Builds the launch plan for the tool at `path`; fails when the path has
/// no parent directory to run it in.
pub fn plan_launch(path: &str, args: Vec<String>, config: LaunchConfig) -> (r: Result<
    CommandPlan,
    InvokeError,
>)
    ensures
        plan_view(r) == launch_spec(path@, args.deep_view(), config),
        r matches Ok(plan) ==> plan.args == args,
{
    match parent_dir(path) {
        Some(dir) => Ok(
            CommandPlan {
                program: String::from_str(path),
                args,
                working_dir: dir,
                suppress_console_window: config.suppress_console_window,
            },
        ),
        None => Err(InvokeError::Path),
    }
}

/// Takes the host's answer to the lookup of the tool and either plans the
/// launch or ends the invocation with a resolution error.
pub fn after_resolve(resolved: Result<String, String>, args: Vec<String>, config: LaunchConfig) -> (r:
    Result<CommandPlan, InvokeError>)
    ensures
        plan_view(r) == resolve_spec(text_view(resolved), args.deep_view(), config),
        resolved matches Err(detail) ==> r == Err::<CommandPlan, InvokeError>(
            InvokeError::Resolution(detail),
        ),
        r matches Ok(plan) ==> plan.args == args,
{
    match resolved {
        Ok(path) => plan_launch(path.as_str(), args, config),
        Err(detail) => Err(InvokeError::Resolution(detail)),
    }
}

/// Maps what a finished process left behind to the tool's result.
pub fn tool_result(output: ProcessOutput) -> (r: Result<String, InvokeError>)
    ensures
        outcome_view(r) == outcome_spec(Ok(output@)),
        output.success && valid_utf8(output.stdout@) ==> outcome_view(r) == Ok::<
            Seq<char>,
            ErrorView,
        >(decode_utf8(output.stdout@)),
        !output.success && valid_utf8(output.stderr@) ==> outcome_view(r) == Err::<
            Seq<char>,
            ErrorView,
        >(ErrorView::Tool(decode_utf8(output.stderr@))),
{
    if output.success {
        Ok(decode_lossy(&output.stdout))
    } else {
        Err(InvokeError::Tool(decode_lossy(&output.stderr)))
    }
}

/// Takes the operating system's answer to the launch: the finished
/// process's output, or why it could not be started.
pub fn after_spawn(spawned: Result<ProcessOutput, String>) -> (r: Result<String, InvokeError>)
    ensures
        outcome_view(r) == outcome_spec(spawned_view(spawned)),
        spawned matches Err(detail) ==> r == Err::<String, InvokeError>(InvokeError::Spawn(detail)),
        spawned matches Ok(out) ==> (out.success && valid_utf8(out.stdout@) ==> outcome_view(r)
            == Ok::<Seq<char>, ErrorView>(decode_utf8(out.stdout@))),
{
    match spawned {
        Ok(output) => tool_result(output),
        Err(detail) => Err(InvokeError::Spawn(detail)),
    }
}

/// The frontend's view of an outcome: the text, or the error's message.
pub fn reply(outcome: Result<String, InvokeError>) -> (r: Result<String, String>)
    ensures
        text_view(r) == match outcome {
            Ok(t) => Ok::<Seq<char>, Seq<char>>(t@),
            Err(e) => Err(error_text(e@)),
        },
{
    match outcome {
        Ok(t) => Ok(t),
        Err(e) => Err(e.message()),
    }
}

/// Ends an invocation from the operating system's answer to the launch.
pub fn finish(spawned: Result<ProcessOutput, String>) -> (r: Result<String, String>)
    ensures
        text_view(r) == reply_spec(spawned_view(spawned)),
        spawned matches Ok(out) ==> (out.success && valid_utf8(out.stdout@) ==> text_view(r)
            == Ok::<Seq<char>, Seq<char>>(decode_utf8(out.stdout@))),
{
    reply(after_spawn(spawned))
}

} // verus!
