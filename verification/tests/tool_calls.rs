//! The tool registry and the steps of tool calls.

use acty::calls::{
    begin_bash, begin_call, begin_edit, begin_read, begin_selected, begin_write,
    format_command_output,
    render_command_output, BashArgs, CallArgs, CommandOutcome, CommandOutput, EditArgs, PathArgs,
    PendingCommand, PendingRead, ReadPurpose, ToolContext, ToolStep, WriteArgs, WriteKind,
};
use acty::config::ToolsConfig;
use acty::json::Json;
use acty::messages::{AgentMsg, ToolRegistryMsg};
use acty::protocol::{ToolCall, ToolCallId, ToolOutput};
use acty::tools::{
    builtin_tools, report_call, schemas, select_tool, take_up, BuiltinTool, RegistryStep, ToolBatch,
    ToolError,
};

fn tools_config(allowed: &[&str]) -> ToolsConfig {
    ToolsConfig {
        allowed: allowed.iter().map(|name| name.to_string()).collect(),
        bash_timeout_secs: 20,
        output_byte_limit: 40,
    }
}

fn context() -> ToolContext {
    ToolContext {
        workspace: "/ws".to_string(),
        config: tools_config(&["Read", "Write", "Edit", "Bash"]),
    }
}

fn call(id: &str, name: &str) -> ToolCall {
    ToolCall {
        id: ToolCallId(id.to_string()),
        name: name.to_string(),
        arguments: serde_json::from_str("{\"path\": \"a\"}").unwrap(),
    }
}

fn text_of(step: ToolStep) -> String {
    match step {
        ToolStep::Done(Ok(ToolOutput::Text(text))) => text,
        other => panic!("{other:?}"),
    }
}

fn error_of(step: ToolStep) -> String {
    match step {
        ToolStep::Done(Err(error)) => error.message(),
        other => panic!("{other:?}"),
    }
}

fn render(json: &Json) -> String {
    match json {
        Json::Bool(value) => value.to_string(),
        Json::Number(value) => value.to_string(),
        Json::Text(text) => format!("{text:?}"),
        Json::Array(items) => {
            let items: Vec<String> = items.iter().map(render).collect();
            format!("[{}]", items.join(","))
        }
        Json::Object(fields) => {
            let fields: Vec<String> =
                fields.iter().map(|(name, value)| format!("{name:?}:{}", render(value))).collect();
            format!("{{{}}}", fields.join(","))
        }
        Json::Document(value) => value.to_string(),
    }
}

#[test]
fn builtin_tools_come_in_a_fixed_order() {
    let names: Vec<&str> = builtin_tools().into_iter().map(|tool| tool.name()).collect();
    assert_eq!(names, vec!["Read", "Write", "Edit", "Bash"]);
}

#[test]
fn schemas_follow_the_allow_list() {
    let offered = schemas(&tools_config(&["Bash", "Read", "Unknown"]));
    let names: Vec<String> = offered.into_iter().map(|schema| schema.name).collect();
    assert_eq!(names, vec!["Read".to_string(), "Bash".to_string()]);
    assert!(schemas(&tools_config(&[])).is_empty());
}

#[test]
fn schemas_describe_required_strings() {
    let schema = BuiltinTool::Edit.schema();
    assert_eq!(schema.name, "Edit");
    assert_eq!(schema.description, "Replace one exact text span in a UTF-8 workspace file.");
    assert_eq!(
        render(&schema.parameters),
        "{\"type\":\"object\",\"properties\":{\"path\":{\"type\":\"string\"},\
         \"old\":{\"type\":\"string\"},\"new\":{\"type\":\"string\"}},\
         \"required\":[\"path\",\"old\",\"new\"]}"
    );
    assert_eq!(BuiltinTool::Read.schema().description, "Read a UTF-8 file from the workspace.");
    assert_eq!(
        BuiltinTool::Write.schema().description,
        "Create or replace a UTF-8 file in the workspace."
    );
    assert_eq!(
        BuiltinTool::Bash.schema().description,
        "Run a shell command in the workspace using soft local execution."
    );
    assert_eq!(
        render(&BuiltinTool::Bash.schema().parameters),
        "{\"type\":\"object\",\"properties\":{\"command\":{\"type\":\"string\"}},\
         \"required\":[\"command\"]}"
    );
}

#[test]
fn allow_list_comes_before_the_name() {
    let config = tools_config(&["Read", "Deploy"]);
    assert!(matches!(select_tool(&config, "Read"), Ok(BuiltinTool::Read)));
    assert!(matches!(select_tool(&config, "Write"), Err(ToolError::NotAllowed)));
    assert!(matches!(select_tool(&config, "Deploy"), Err(ToolError::NotRegistered)));
    assert!(matches!(select_tool(&config, "Other"), Err(ToolError::NotAllowed)));
}

#[test]
fn offered_tools_are_the_callable_ones() {
    let config = tools_config(&["Edit", "Bash", "Nothing"]);
    let offered: Vec<String> = schemas(&config).into_iter().map(|schema| schema.name).collect();
    for name in ["Read", "Write", "Edit", "Bash", "Nothing", ""] {
        let callable = select_tool(&config, name).is_ok();
        assert_eq!(callable, offered.contains(&name.to_string()), "{name}");
    }
}

#[test]
fn tool_errors_say_what_happened() {
    assert_eq!(ToolError::NotAllowed.message(), "tool is not allowed by config");
    assert_eq!(ToolError::NotRegistered.message(), "tool is not registered");
    assert_eq!(ToolError::Arguments { tool: BuiltinTool::Write }.message(), "decoding Write args");
    assert_eq!(ToolError::Reading { path: "/ws/a".to_string() }.message(), "reading /ws/a");
    assert_eq!(ToolError::Creating { path: "/ws".to_string() }.message(), "creating /ws");
    assert_eq!(ToolError::Writing { path: "/ws/a".to_string() }.message(), "writing /ws/a");
    assert_eq!(ToolError::Command { message: "boom".to_string() }.message(), "boom");
}

#[test]
fn workspace_paths_resolve_in_the_context() {
    assert_eq!(context().resolve_workspace_path("a/b").unwrap(), "/ws/a/b");
    assert_eq!(
        context().resolve_workspace_path("/etc/passwd").unwrap_err().message(),
        "absolute paths must be under /workspace"
    );
    assert_eq!(
        context().resolve_workspace_path("a/../..").unwrap_err().message(),
        "path escapes the workspace"
    );
}

#[test]
fn read_shows_limited_contents() {
    let step = begin_read(&context(), Some(PathArgs { path: "notes.txt".to_string() }));
    let read = match step {
        ToolStep::ReadFile(read) => read,
        other => panic!("{other:?}"),
    };
    assert_eq!(read.path, "/ws/notes.txt");
    let long = "x".repeat(41);
    assert_eq!(
        text_of(read.resume(&context(), Some(long))),
        format!("{}\n[truncated]", "x".repeat(40))
    );
}

#[test]
fn read_keeps_short_contents() {
    let read = PendingRead { path: "/ws/a".to_string(), purpose: ReadPurpose::Show };
    assert_eq!(text_of(read.resume(&context(), Some("short\n".to_string()))), "short\n");
}

#[test]
fn read_reports_what_it_could_not_do() {
    assert_eq!(error_of(begin_read(&context(), None)), "decoding Read args");
    let outside = Some(PathArgs { path: "/tmp/x".to_string() });
    assert_eq!(
        error_of(begin_read(&context(), outside)),
        "absolute paths must be under /workspace"
    );
    let read = PendingRead { path: "/ws/gone".to_string(), purpose: ReadPurpose::Show };
    assert_eq!(error_of(read.resume(&context(), None)), "reading /ws/gone");
}

#[test]
fn write_creates_the_directory_first() {
    let args = WriteArgs { path: "new/dir/f.txt".to_string(), content: "hi".to_string() };
    let pending = match begin_write(&context(), Some(args)) {
        ToolStep::CreateDirectory(pending) => pending,
        other => panic!("{other:?}"),
    };
    assert_eq!(pending.directory, "/ws/new/dir");
    let write = match pending.resume(true) {
        ToolStep::WriteFile(write) => write,
        other => panic!("{other:?}"),
    };
    assert_eq!(write.path, "/ws/new/dir/f.txt");
    assert_eq!(write.contents, "hi");
    assert_eq!(write.kind, WriteKind::Written);
    assert_eq!(text_of(write.resume(true)), "wrote /ws/new/dir/f.txt");
}

#[test]
fn write_reports_what_it_could_not_do() {
    assert_eq!(error_of(begin_write(&context(), None)), "decoding Write args");
    let args = || Some(WriteArgs { path: "d/f".to_string(), content: String::new() });
    match begin_write(&context(), args()) {
        ToolStep::CreateDirectory(pending) => assert_eq!(error_of(pending.resume(false)), "creating /ws/d"),
        other => panic!("{other:?}"),
    }
    match begin_write(&context(), args()) {
        ToolStep::CreateDirectory(pending) => match pending.resume(true) {
            ToolStep::WriteFile(write) => assert_eq!(error_of(write.resume(false)), "writing /ws/d/f"),
            other => panic!("{other:?}"),
        },
        other => panic!("{other:?}"),
    }
    let escaping = Some(WriteArgs { path: "../f".to_string(), content: String::new() });
    assert_eq!(error_of(begin_write(&context(), escaping)), "path escapes the workspace");
}

fn edit(contents: &str, old: &str, new: &str) -> ToolStep {
    let args = EditArgs { path: "f.rs".to_string(), old: old.to_string(), new: new.to_string() };
    match begin_edit(&context(), Some(args)) {
        ToolStep::ReadFile(read) => read.resume(&context(), Some(contents.to_string())),
        other => panic!("{other:?}"),
    }
}

#[test]
fn edit_writes_the_edited_file() {
    match edit("let a = 1;", "1", "2") {
        ToolStep::WriteFile(write) => {
            assert_eq!(write.path, "/ws/f.rs");
            assert_eq!(write.contents, "let a = 2;");
            assert_eq!(write.kind, WriteKind::Edited);
            assert_eq!(text_of(write.resume(true)), "edited /ws/f.rs");
        }
        other => panic!("{other:?}"),
    }
}

#[test]
fn edit_reports_what_it_could_not_do() {
    assert_eq!(error_of(begin_edit(&context(), None)), "decoding Edit args");
    assert_eq!(error_of(edit("abc", "x", "y")), "old text was not found");
    assert_eq!(error_of(edit("a b a", "a", "y")), "old text matched 2 times");
    assert_eq!(error_of(edit("aaa", "aa", "b")), "old text matched 2 times");
}

#[test]
fn bash_runs_in_the_workspace() {
    let args = BashArgs { command: "ls".to_string() };
    match begin_bash(&context(), Some(args)) {
        ToolStep::RunCommand(command) => {
            assert_eq!(command.command, "ls");
            assert_eq!(command.directory, "/ws");
            assert_eq!(command.timeout_secs, 20);
        }
        other => panic!("{other:?}"),
    }
    assert_eq!(error_of(begin_bash(&context(), None)), "decoding Bash args");
}

#[test]
fn every_tool_starts_with_its_own_step() {
    let path = "f".to_string();
    let read = CallArgs::Read(Some(PathArgs { path: path.clone() }));
    assert!(matches!(begin_call(&context(), read), ToolStep::ReadFile(_)));
    let write = CallArgs::Write(Some(WriteArgs { path: path.clone(), content: String::new() }));
    assert!(matches!(begin_call(&context(), write), ToolStep::CreateDirectory(_)));
    let edit = CallArgs::Edit(Some(EditArgs { path, old: "a".to_string(), new: "b".to_string() }));
    assert!(matches!(begin_call(&context(), edit), ToolStep::ReadFile(_)));
    let bash = CallArgs::Bash(Some(BashArgs { command: "true".to_string() }));
    assert!(matches!(begin_call(&context(), bash), ToolStep::RunCommand(_)));
}

fn pending_command() -> PendingCommand {
    PendingCommand { command: "make".to_string(), directory: "/ws".to_string(), timeout_secs: 20 }
}

#[test]
fn successful_command_shows_its_output_and_a_footer() {
    let output = CommandOutput {
        stdout: b"built\n".to_vec(),
        stderr: Vec::new(),
        code: Some(0),
        success: true,
    };
    assert_eq!(
        text_of(pending_command().resume(&context(), CommandOutcome::Finished(output))),
        "built\n\n[exit=0 cwd=/ws timed_out=false]"
    );
}

#[test]
fn failed_command_is_an_error_with_both_streams() {
    let shown = render_command_output(
        &context(),
        "out\n".to_string(),
        "bad\n".to_string(),
        Some(2),
        false,
        false,
    );
    match shown {
        ToolOutput::Error(text) => assert_eq!(
            text,
            "--- stdout ---\nout\n--- stderr ---\nbad\n\n[exit=2 cwd=/ws timed_out=false]"
        ),
        other => panic!("{other:?}"),
    }
}

#[test]
fn killed_command_has_no_exit_code() {
    let ended =
        CommandOutput { stdout: Vec::new(), stderr: Vec::new(), code: None, success: false };
    match format_command_output(ended, &context(), true) {
        ToolOutput::Error(text) => assert_eq!(text, "\n[exit=? cwd=/ws timed_out=true]"),
        other => panic!("{other:?}"),
    }
}

#[test]
fn command_output_is_limited_before_the_footer() {
    let ended = CommandOutput {
        stdout: vec![b'y'; 50],
        stderr: Vec::new(),
        code: Some(0),
        success: true,
    };
    match format_command_output(ended, &context(), false) {
        ToolOutput::Text(text) => assert_eq!(
            text,
            format!("{}\n[truncated]\n[exit=0 cwd=/ws timed_out=false]", "y".repeat(40))
        ),
        other => panic!("{other:?}"),
    }
}

#[test]
fn invalid_bytes_are_replaced() {
    let ended = CommandOutput {
        stdout: vec![b'a', 0xff, 0xc3, 0xa9],
        stderr: Vec::new(),
        code: Some(0),
        success: true,
    };
    match format_command_output(ended, &context(), false) {
        ToolOutput::Text(text) => {
            assert_eq!(text, "a\u{fffd}é\n[exit=0 cwd=/ws timed_out=false]")
        }
        other => panic!("{other:?}"),
    }
}

#[test]
fn slow_command_is_an_error() {
    match pending_command().resume(&context(), CommandOutcome::TimedOut) {
        ToolStep::Done(Ok(ToolOutput::Error(text))) => {
            assert_eq!(text, "timed out after 20s\n[exit=? cwd=/ws timed_out=true]")
        }
        other => panic!("{other:?}"),
    }
}

#[test]
fn command_that_cannot_run_is_a_failure() {
    let outcome = CommandOutcome::Failed("No such file or directory (os error 2)".to_string());
    assert_eq!(
        error_of(pending_command().resume(&context(), outcome)),
        "No such file or directory (os error 2)"
    );
}

#[test]
fn failed_call_becomes_an_ordinary_result() {
    match report_call(call("c1", "Read"), Err(ToolError::NotAllowed)) {
        AgentMsg::ToolFinished { call_id, name, output } => {
            assert_eq!(call_id.0, "c1");
            assert_eq!(name, "Read");
            assert!(output.is_error());
            assert_eq!(
                output.as_text(),
                "Error: tool 'Read' failed: tool is not allowed by config"
            );
        }
        other => panic!("{other:?}"),
    }
}

#[test]
fn batch_is_answered_in_model_order() {
    let mut batch = ToolBatch::new(vec![call("c1", "Read"), call("c2", "Bash"), call("c3", "Edit")]);
    let mut told = Vec::new();
    while let Some(current) = batch.current() {
        let name = current.name.clone();
        let result = if name == "Bash" {
            Err(ToolError::NotRegistered)
        } else {
            Ok(ToolOutput::Text(name))
        };
        match batch.finish(result) {
            AgentMsg::ToolFinished { call_id, name, output } => {
                told.push(format!("{} {} {}", call_id.0, name, output.as_text()))
            }
            other => panic!("{other:?}"),
        }
    }
    assert_eq!(
        told,
        vec![
            "c1 Read Read",
            "c2 Bash Error: tool 'Bash' failed: tool is not registered",
            "c3 Edit Edit"
        ]
    );
    assert!(ToolBatch::new(Vec::new()).current().is_none());
}

#[test]
fn registry_executes_batches_until_it_is_told_to_stop() {
    let message = ToolRegistryMsg::DispatchBatch { calls: vec![call("c1", "Read")] };
    match take_up(message) {
        RegistryStep::Execute(batch) => assert_eq!(batch.current().unwrap().id.0, "c1"),
        other => panic!("{other:?}"),
    }
    assert!(matches!(take_up(ToolRegistryMsg::Shutdown), RegistryStep::Stop));
}

#[test]
fn selected_call_starts_with_the_step_of_its_tool() {
    let args = || CallArgs::Read(Some(PathArgs { path: "f".to_string() }));
    assert_eq!(args().tool(), BuiltinTool::Read);
    match begin_selected(&context(), "Read", args()) {
        ToolStep::ReadFile(read) => assert_eq!(read.path, "/ws/f"),
        other => panic!("{other:?}"),
    }
}

#[test]
fn refused_call_starts_no_step() {
    let context = ToolContext {
        workspace: "/ws".to_string(),
        config: tools_config(&["Read", "Deploy"]),
    };
    let bash = || CallArgs::Bash(Some(BashArgs { command: "rm x".to_string() }));
    assert_eq!(
        error_of(begin_selected(&context, "Bash", bash())),
        "tool is not allowed by config"
    );
    assert_eq!(error_of(begin_selected(&context, "Deploy", bash())), "tool is not registered");
    assert_eq!(error_of(begin_selected(&context, "Read", bash())), "decoding Read args");
}
