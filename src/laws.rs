use vstd::prelude::*;
use crate::invoke::{
    ErrorView, LaunchConfig, OutputView, PlanView, SPAWN_FAILED, error_text, invocation_outcome,
    invocation_reply, launch_spec, reply_spec, resolve_spec,
};
use crate::location::parent_of;
use crate::text::lossy_text;

verus! {

/// The plan that an invocation with a locatable tool at `path` hands to the
/// operating system.
pub open spec fn planned(path: Seq<char>, args: Seq<Seq<char>>, config: LaunchConfig) -> PlanView {
    launch_spec(path, args, config)->Ok_0
}

/// With the tool located, a tool that always exits successfully yields its
/// decoded standard output, whatever the arguments.
pub proof fn lemma_success_yields_stdout(
    path: Seq<char>,
    args: Seq<Seq<char>>,
    config: LaunchConfig,
    tool: spec_fn(PlanView) -> Result<OutputView, Seq<char>>,
)
    requires
        parent_of(path) is Some,
        forall|p: PlanView| #[trigger] tool(p) matches Ok(out) && out.success,
    ensures
        invocation_reply(Ok(path), args, config, tool) == Ok::<Seq<char>, Seq<char>>(
            lossy_text(tool(planned(path, args, config))->Ok_0.stdout),
        ),
{
}

/// With the tool located, a tool that always exits with failure yields its
/// decoded standard error as the error text, whatever the arguments.
pub proof fn lemma_failure_yields_stderr(
    path: Seq<char>,
    args: Seq<Seq<char>>,
    config: LaunchConfig,
    tool: spec_fn(PlanView) -> Result<OutputView, Seq<char>>,
)
    requires
        parent_of(path) is Some,
        forall|p: PlanView| #[trigger] tool(p) matches Ok(out) && !out.success,
    ensures
        invocation_reply(Ok(path), args, config, tool) == Err::<Seq<char>, Seq<char>>(
            lossy_text(tool(planned(path, args, config))->Ok_0.stderr),
        ),
        invocation_outcome(Ok(path), args, config, tool) == Err::<Seq<char>, ErrorView>(
            ErrorView::Tool(lossy_text(tool(planned(path, args, config))->Ok_0.stderr)),
        ),
{
}

/// Two invocations with the same arguments, against a tool that answers the
/// same plan the same way, give equal results: nothing carries over from one
/// call to the next.
pub proof fn lemma_repeated_invocations_agree(
    resolved: Result<Seq<char>, Seq<char>>,
    args: Seq<Seq<char>>,
    config: LaunchConfig,
    first: spec_fn(PlanView) -> Result<OutputView, Seq<char>>,
    second: spec_fn(PlanView) -> Result<OutputView, Seq<char>>,
)
    requires
        forall|p: PlanView| #[trigger] first(p) == second(p),
    ensures
        invocation_reply(resolved, args, config, first) == invocation_reply(
            resolved,
            args,
            config,
            second,
        ),
{
}

/// When the host cannot locate the tool, the invocation fails with a
/// resolution error and the tool is never consulted: any two tools give the
/// same result.
pub proof fn lemma_unresolved_never_spawns(
    detail: Seq<char>,
    args: Seq<Seq<char>>,
    config: LaunchConfig,
    first: spec_fn(PlanView) -> Result<OutputView, Seq<char>>,
    second: spec_fn(PlanView) -> Result<OutputView, Seq<char>>,
)
    ensures
        invocation_outcome(Err(detail), args, config, first) == Err::<Seq<char>, ErrorView>(
            ErrorView::Resolution(detail),
        ),
        invocation_outcome(Err(detail), args, config, first) == invocation_outcome(
            Err(detail),
            args,
            config,
            second,
        ),
{
}

/// When the operating system cannot start the located tool, the invocation
/// fails with a spawn error, never with a tool result.
pub proof fn lemma_spawn_failure_is_no_tool_result(
    path: Seq<char>,
    args: Seq<Seq<char>>,
    config: LaunchConfig,
    tool: spec_fn(PlanView) -> Result<OutputView, Seq<char>>,
)
    requires
        parent_of(path) is Some,
        tool(planned(path, args, config)) is Err,
    ensures
        invocation_outcome(Ok(path), args, config, tool) == Err::<Seq<char>, ErrorView>(
            ErrorView::Spawn(tool(planned(path, args, config))->Err_0),
        ),
        invocation_reply(Ok(path), args, config, tool) == Err::<Seq<char>, Seq<char>>(
            SPAWN_FAILED@ + tool(planned(path, args, config))->Err_0,
        ),
{
}

/// Planning and finishing make one invocation: once a plan exists, the reply
/// to the tool's answer to it is the invocation's reply; otherwise the
/// planning error's message is.
pub proof fn lemma_steps_compose(
    resolved: Result<Seq<char>, Seq<char>>,
    args: Seq<Seq<char>>,
    config: LaunchConfig,
    tool: spec_fn(PlanView) -> Result<OutputView, Seq<char>>,
)
    ensures
        match resolve_spec(resolved, args, config) {
            Ok(plan) => reply_spec(tool(plan)) == invocation_reply(resolved, args, config, tool),
            Err(e) => Err::<Seq<char>, Seq<char>>(error_text(e)) == invocation_reply(
                resolved,
                args,
                config,
                tool,
            ),
        },
{
}

} // verus!
