use exif_runner::invoke::{
    after_resolve, after_spawn, finish, plan_launch, reply, tool_result, CommandPlan, InvokeError,
    LaunchConfig, ProcessOutput, CREATE_NO_WINDOW,
};
use exif_runner::location::RESOURCE_RELATIVE_PATH;

fn output(success: bool, stdout: &[u8], stderr: &[u8]) -> ProcessOutput {
    ProcessOutput { success, stdout: stdout.to_vec(), stderr: stderr.to_vec() }
}

fn strings(items: &[&str]) -> Vec<String> {
    items.iter().map(|s| s.to_string()).collect()
}

fn plan_for(args: &[&str]) -> CommandPlan {
    match after_resolve(
        Ok("/opt/app/resources/exiftool.exe".to_string()),
        strings(args),
        LaunchConfig::new(false),
    ) {
        Ok(plan) => plan,
        Err(e) => panic!("no plan: {:?}", e),
    }
}

#[test]
fn version_flag_returns_stdout() {
    let plan = plan_for(&["-ver"]);
    assert_eq!(plan.args, strings(&["-ver"]));
    let r = finish(Ok(output(true, b"12.76\n", b"")));
    assert_eq!(r, Ok("12.76\n".to_string()));
}

#[test]
fn unknown_flag_returns_stderr() {
    let plan = plan_for(&["-unknownflag"]);
    assert_eq!(plan.args, strings(&["-unknownflag"]));
    let r = finish(Ok(output(false, b"usage text", b"Error: Unknown option -unknownflag\n")));
    assert_eq!(r, Err("Error: Unknown option -unknownflag\n".to_string()));
    assert!(r.unwrap_err().contains("Unknown option"));
}

#[test]
fn empty_args_pass_through_unchanged() {
    let plan = plan_for(&[]);
    assert!(plan.args.is_empty());
    assert_eq!(plan.program, "/opt/app/resources/exiftool.exe");
    assert_eq!(plan.working_dir, "/opt/app/resources");
    let r = finish(Ok(output(true, b"Syntax:  exiftool [OPTIONS] FILE\n", b"")));
    assert_eq!(r, Ok("Syntax:  exiftool [OPTIONS] FILE\n".to_string()));
}

#[test]
fn arguments_keep_order_and_content() {
    let args = strings(&["-json", "a b.jpg", "", "-n", "-json"]);
    let plan = plan_launch("/x/tool", args.clone(), LaunchConfig::new(true)).unwrap();
    assert_eq!(plan.args, args);
    assert!(plan.suppress_console_window);
}

#[test]
fn relative_resource_path_runs_in_its_directory() {
    let plan = plan_launch(RESOURCE_RELATIVE_PATH, Vec::new(), LaunchConfig::new(false)).unwrap();
    assert_eq!(plan.program, "resources/exiftool.exe");
    assert_eq!(plan.working_dir, "resources");
}

#[test]
fn path_without_parent_is_path_error() {
    let r = plan_launch("", strings(&["-ver"]), LaunchConfig::new(false));
    assert!(matches!(r, Err(InvokeError::Path)));
    let r = plan_launch("/", strings(&["-ver"]), LaunchConfig::new(false));
    assert!(matches!(r, Err(InvokeError::Path)));
    assert_eq!(InvokeError::Path.message(), "Failed to get parent directory");
}

#[test]
fn unresolved_resource_is_resolution_error() {
    let r = after_resolve(Err("resource directory missing".to_string()), strings(&["-ver"]), LaunchConfig::new(false));
    match r {
        Err(InvokeError::Resolution(d)) => assert_eq!(d, "resource directory missing"),
        other => panic!("unexpected {:?}", other),
    }
    let e = InvokeError::Resolution("resource directory missing".to_string());
    assert_eq!(e.message(), "Failed to resolve resource: resource directory missing");
}

#[test]
fn launch_failure_is_spawn_error() {
    let r = after_spawn(Err("Permission denied (os error 13)".to_string()));
    match r {
        Err(InvokeError::Spawn(d)) => assert_eq!(d, "Permission denied (os error 13)"),
        other => panic!("unexpected {:?}", other),
    }
    let r = finish(Err("Permission denied (os error 13)".to_string()));
    assert_eq!(r, Err("Failed to execute exiftool: Permission denied (os error 13)".to_string()));
}

#[test]
fn tool_failure_keeps_stderr_verbatim() {
    let r = tool_result(output(false, b"ignored", b"Error: File not found - x.jpg\n"));
    match r {
        Err(InvokeError::Tool(t)) => assert_eq!(t, "Error: File not found - x.jpg\n"),
        other => panic!("unexpected {:?}", other),
    }
}

#[test]
fn success_ignores_stderr() {
    let r = tool_result(output(true, b"out", b"warning"));
    assert!(matches!(r, Ok(ref t) if t == "out"));
}

#[test]
fn invalid_bytes_decode_with_placeholder() {
    let r = finish(Ok(output(true, &[0x66, 0xff, 0x6f], b"")));
    assert_eq!(r, Ok("f\u{FFFD}o".to_string()));
    let r = finish(Ok(output(false, b"", &[0xc3, 0x28])));
    assert_eq!(r, Err("\u{FFFD}(".to_string()));
}

#[test]
fn valid_text_decodes_exactly() {
    let r = finish(Ok(output(true, "Größe: 12 × 8\n".as_bytes(), b"")));
    assert_eq!(r, Ok("Größe: 12 × 8\n".to_string()));
}

#[test]
fn empty_streams_give_empty_text() {
    assert_eq!(finish(Ok(output(true, b"", b"x"))), Ok(String::new()));
    assert_eq!(finish(Ok(output(false, b"x", b""))), Err(String::new()));
}

#[test]
fn repeated_invocations_agree() {
    let first = (plan_for(&["-ver"]), finish(Ok(output(true, b"12.76\n", b""))));
    let second = (plan_for(&["-ver"]), finish(Ok(output(true, b"12.76\n", b""))));
    assert_eq!(first.0.program, second.0.program);
    assert_eq!(first.0.args, second.0.args);
    assert_eq!(first.0.working_dir, second.0.working_dir);
    assert_eq!(first.1, second.1);
}

#[test]
fn reply_maps_errors_to_messages() {
    assert_eq!(reply(Ok("done".to_string())), Ok("done".to_string()));
    assert_eq!(reply(Err(InvokeError::Tool("bad".to_string()))), Err("bad".to_string()));
    assert_eq!(
        reply(Err(InvokeError::Spawn("gone".to_string()))),
        Err("Failed to execute exiftool: gone".to_string())
    );
}

#[test]
fn creation_flags_follow_config() {
    let mut plan = plan_launch("/x/tool", Vec::new(), LaunchConfig::new(true)).unwrap();
    assert_eq!(plan.creation_flags(), CREATE_NO_WINDOW);
    assert_eq!(CREATE_NO_WINDOW, 0x0800_0000);
    plan.suppress_console_window = false;
    assert_eq!(plan.creation_flags(), 0);
}
