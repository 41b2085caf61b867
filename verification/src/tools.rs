//! Acty's coding tools and the rules of the tool registry.
//!
//! The registry offers the tools that the configuration enables, runs the calls
//! of a batch in the model's order, and answers every one of them.

use crate::config::ToolsConfig;
use crate::edits::{EditRefusal, EditRefusalView};
use crate::json::{self, array, field, object, Json, JsonView};
use crate::messages::{AgentMsg, AgentMsgView, ToolRegistryMsg};
use crate::paths::PathRefusal;
use crate::protocol::{
    ToolCall, ToolCallView, ToolOutput, ToolOutputView, ToolSchema, ToolSchemaView,
};
use crate::text::{self, decimal_text, prefixed, same_text};
use crate::views;
use vstd::prelude::*;
use vstd::string::*;

verus! {

/// The tools that Acty has.
#[derive(Debug, Clone, Copy, PartialEq, Eq, Structural)]
pub enum BuiltinTool {
    /// Reads a file.
    Read,
    /// Writes a file.
    Write,
    /// Replaces a span of a file.
    Edit,
    /// Runs a command.
    Bash,
}

/// The tools in the order in which they are offered.
pub open spec fn builtin() -> Seq<BuiltinTool> {
    seq![BuiltinTool::Read, BuiltinTool::Write, BuiltinTool::Edit, BuiltinTool::Bash]
}

/// The name under which a model calls a tool.
pub open spec fn tool_name(tool: BuiltinTool) -> Seq<char> {
    match tool {
        BuiltinTool::Read => "Read"@,
        BuiltinTool::Write => "Write"@,
        BuiltinTool::Edit => "Edit"@,
        BuiltinTool::Bash => "Bash"@,
    }
}

/// What a model is told that a tool does.
pub open spec fn tool_description(tool: BuiltinTool) -> Seq<char> {
    match tool {
        BuiltinTool::Read => "Read a UTF-8 file from the workspace."@,
        BuiltinTool::Write => "Create or replace a UTF-8 file in the workspace."@,
        BuiltinTool::Edit => "Replace one exact text span in a UTF-8 workspace file."@,
        BuiltinTool::Bash => "Run a shell command in the workspace using soft local execution."@,
    }
}

/// The names of the arguments of a tool, all of which are required strings.
pub open spec fn tool_arguments(tool: BuiltinTool) -> Seq<Seq<char>> {
    match tool {
        BuiltinTool::Read => seq!["path"@],
        BuiltinTool::Write => seq!["path"@, "content"@],
        BuiltinTool::Edit => seq!["path"@, "old"@, "new"@],
        BuiltinTool::Bash => seq!["command"@],
    }
}

/// The JSON schema of a string.
pub open spec fn string_schema() -> JsonView {
    JsonView::Object(seq![("type"@, JsonView::Text("string"@))])
}

/// The JSON schema of an object whose fields are required strings.
pub open spec fn string_fields_schema(names: Seq<Seq<char>>) -> JsonView {
    JsonView::Object(
        seq![
            ("type"@, JsonView::Text("object"@)),
            (
                "properties"@,
                JsonView::Object(names.map_values(|name: Seq<char>| (name, string_schema()))),
            ),
            (
                "required"@,
                JsonView::Array(names.map_values(|name: Seq<char>| JsonView::Text(name))),
            ),
        ],
    )
}

/// The model-facing description of a tool.
pub open spec fn tool_schema(tool: BuiltinTool) -> ToolSchemaView {
    ToolSchemaView {
        name: tool_name(tool),
        description: tool_description(tool),
        parameters: string_fields_schema(tool_arguments(tool)),
    }
}

/// The tools that a configuration enables.
pub open spec fn enabled_tools(config: ToolsConfig) -> Seq<BuiltinTool> {
    builtin().filter(|tool: BuiltinTool| config.allows(tool_name(tool)))
}

/// The descriptions of the tools that a configuration enables.
pub open spec fn offered_schemas(config: ToolsConfig) -> Seq<ToolSchemaView> {
    enabled_tools(config).map_values(|tool: BuiltinTool| tool_schema(tool))
}

/// Builds the JSON schema of an object whose fields are required strings.
fn string_fields(names: &Vec<String>) -> (schema: Json)
    ensures
        schema@ == string_fields_schema(text::texts(names@)),
{
    let ghost all = text::texts(names@);
    let mut properties: Vec<(String, Json)> = Vec::new();
    let mut required: Vec<Json> = Vec::new();
    let mut i: usize = 0;
    while i < names.len()
        invariant
            i <= names@.len(),
            i == properties@.len(),
            i == required@.len(),
            all == text::texts(names@),
            forall|j: int|
                0 <= j < i ==> (#[trigger] properties@[j]).0@ == all[j] && properties@[j].1@
                    == string_schema(),
            forall|j: int| 0 <= j < i ==> (#[trigger] required@[j])@ == JsonView::Text(all[j]),
        decreases names@.len() - i,
    {
        let kind = vec![field("type", json::text("string"))];
        assert(json::field_views(kind@) =~= string_schema()->Object_0);
        properties.push(field(names[i].as_str(), object(kind)));
        required.push(json::text(names[i].as_str()));
        i += 1;
    }
    assert(json::field_views(properties@) =~= all.map_values(
        |name: Seq<char>| (name, string_schema()),
    ));
    assert(json::json_views(required@) =~= all.map_values(|name: Seq<char>| JsonView::Text(name)));
    let fields = vec![
        field("type", json::text("object")),
        field("properties", object(properties)),
        field("required", array(required)),
    ];
    assert(json::field_views(fields@) =~= string_fields_schema(all)->Object_0);
    object(fields)
}

impl BuiltinTool {
    /// The name under which a model calls the tool.
    pub fn name(self) -> (name: &'static str)
        ensures
            name@ == tool_name(self),
    {
        match self {
            BuiltinTool::Read => "Read",
            BuiltinTool::Write => "Write",
            BuiltinTool::Edit => "Edit",
            BuiltinTool::Bash => "Bash",
        }
    }

    /// Describes the model-facing tool name, purpose, and JSON input shape.
    pub fn schema(self) -> (schema: ToolSchema)
        ensures
            schema@ == tool_schema(self),
    {
        let (description, names) = match self {
            BuiltinTool::Read => (
                "Read a UTF-8 file from the workspace.",
                vec!["path".to_string()],
            ),
            BuiltinTool::Write => (
                "Create or replace a UTF-8 file in the workspace.",
                vec!["path".to_string(), "content".to_string()],
            ),
            BuiltinTool::Edit => (
                "Replace one exact text span in a UTF-8 workspace file.",
                vec!["path".to_string(), "old".to_string(), "new".to_string()],
            ),
            BuiltinTool::Bash => (
                "Run a shell command in the workspace using soft local execution.",
                vec!["command".to_string()],
            ),
        };
        assert(text::texts(names@) =~= tool_arguments(self));
        ToolSchema {
            name: self.name().to_string(),
            description: description.to_string(),
            parameters: string_fields(&names),
        }
    }
}

/// Lists the tools in the order in which they are offered.
pub fn builtin_tools() -> (tools: Vec<BuiltinTool>)
    ensures
        tools@ == builtin(),
{
    vec![BuiltinTool::Read, BuiltinTool::Write, BuiltinTool::Edit, BuiltinTool::Bash]
}

/// Returns schemas for the builtin tools allowed by the active config.
pub fn schemas(config: &ToolsConfig) -> (offered: Vec<ToolSchema>)
    ensures
        views::views(offered@) == offered_schemas(*config),
{
    let tools = builtin_tools();
    let mut offered: Vec<ToolSchema> = Vec::new();
    let ghost enabled = |tool: BuiltinTool| config.allows(tool_name(tool));
    let mut i: usize = 0;
    proof {
        reveal(Seq::filter);
        assert(views::views(offered@) =~= tools@.take(0).filter(enabled).map_values(
            |tool: BuiltinTool| tool_schema(tool),
        ));
    }
    while i < tools.len()
        invariant
            i <= tools@.len(),
            tools@ == builtin(),
            enabled == (|tool: BuiltinTool| config.allows(tool_name(tool))),
            views::views(offered@) == tools@.take(i as int).filter(enabled).map_values(
                |tool: BuiltinTool| tool_schema(tool),
            ),
        decreases tools@.len() - i,
    {
        let ghost before = views::views(offered@);
        let ghost kept = tools@.take(i as int).filter(enabled);
        proof {
            assert(tools@.take(i + 1) =~= tools@.take(i as int).push(tools@[i as int]));
            tools@.take(i as int).lemma_filter_push(tools@[i as int], enabled);
        }
        let schema = tools[i].schema();
        if config.is_allowed(schema.name.as_str()) {
            offered.push(schema);
            proof {
                assert(views::views(offered@) =~= before.push(tool_schema(tools@[i as int])));
                assert(kept.push(tools@[i as int]).map_values(
                    |tool: BuiltinTool| tool_schema(tool),
                ) =~= before.push(tool_schema(tools@[i as int])));
            }
        }
        i += 1;
    }
    assert(tools@.take(i as int) =~= tools@);
    offered
}

/// Why a tool call failed.
#[derive(Debug, Clone)]
pub enum ToolError {
    /// The allow-list does not hold the name.
    NotAllowed,
    /// No tool has the name.
    NotRegistered,
    /// The arguments are not what the tool takes.
    Arguments {
        /// The tool.
        tool: BuiltinTool,
    },
    /// The path is not one of the workspace.
    Path(PathRefusal),
    /// A file could not be read.
    Reading {
        /// The file.
        path: String,
    },
    /// A directory could not be created.
    Creating {
        /// The directory.
        path: String,
    },
    /// A file could not be written.
    Writing {
        /// The file.
        path: String,
    },
    /// The old text does not name exactly one place.
    Edit(EditRefusal),
    /// The command could not be run.
    Command {
        /// What the system says of it.
        message: String,
    },
}

/// The model of a [`ToolError`].
pub enum ToolErrorView {
    /// The allow-list does not hold the name.
    NotAllowed,
    /// No tool has the name.
    NotRegistered,
    /// The arguments are not what the tool takes.
    Arguments {
        /// The tool.
        tool: BuiltinTool,
    },
    /// The path is not one of the workspace.
    Path(PathRefusal),
    /// A file could not be read.
    Reading {
        /// The file.
        path: Seq<char>,
    },
    /// A directory could not be created.
    Creating {
        /// The directory.
        path: Seq<char>,
    },
    /// A file could not be written.
    Writing {
        /// The file.
        path: Seq<char>,
    },
    /// The old text does not name exactly one place.
    Edit(EditRefusalView),
    /// The command could not be run.
    Command {
        /// What the system says of it.
        message: Seq<char>,
    },
}

impl View for ToolError {
    type V = ToolErrorView;

    open spec fn view(&self) -> ToolErrorView {
        match self {
            ToolError::NotAllowed => ToolErrorView::NotAllowed,
            ToolError::NotRegistered => ToolErrorView::NotRegistered,
            ToolError::Arguments { tool } => ToolErrorView::Arguments { tool: *tool },
            ToolError::Path(refusal) => ToolErrorView::Path(*refusal),
            ToolError::Reading { path } => ToolErrorView::Reading { path: path@ },
            ToolError::Creating { path } => ToolErrorView::Creating { path: path@ },
            ToolError::Writing { path } => ToolErrorView::Writing { path: path@ },
            ToolError::Edit(refusal) => ToolErrorView::Edit(refusal@),
            ToolError::Command { message } => ToolErrorView::Command { message: message@ },
        }
    }
}

impl ToolErrorView {
    /// What the failure says.
    pub open spec fn rendered(self) -> Seq<char> {
        match self {
            ToolErrorView::NotAllowed => "tool is not allowed by config"@,
            ToolErrorView::NotRegistered => "tool is not registered"@,
            ToolErrorView::Arguments { tool } => "decoding "@ + tool_name(tool) + " args"@,
            ToolErrorView::Path(PathRefusal::OutsideWorkspace) => {
                "absolute paths must be under /workspace"@
            },
            ToolErrorView::Path(PathRefusal::EscapesWorkspace) => "path escapes the workspace"@,
            ToolErrorView::Reading { path } => "reading "@ + path,
            ToolErrorView::Creating { path } => "creating "@ + path,
            ToolErrorView::Writing { path } => "writing "@ + path,
            ToolErrorView::Edit(EditRefusalView::NotFound) => "old text was not found"@,
            ToolErrorView::Edit(EditRefusalView::Ambiguous { matches }) => {
                "old text matched "@ + text::decimal(matches) + " times"@
            },
            ToolErrorView::Command { message } => message,
        }
    }
}

impl ToolError {
    /// Says why the call failed.
    pub fn message(&self) -> (message: String)
        ensures
            message@ == self@.rendered(),
    {
        match self {
            ToolError::NotAllowed => "tool is not allowed by config".to_string(),
            ToolError::NotRegistered => "tool is not registered".to_string(),
            ToolError::Arguments { tool } => {
                let mut message = "decoding ".to_string();
                message.append(tool.name());
                message.append(" args");
                message
            },
            ToolError::Path(PathRefusal::OutsideWorkspace) => {
                "absolute paths must be under /workspace".to_string()
            },
            ToolError::Path(PathRefusal::EscapesWorkspace) => {
                "path escapes the workspace".to_string()
            },
            ToolError::Reading { path } => prefixed("reading ", path.as_str()),
            ToolError::Creating { path } => prefixed("creating ", path.as_str()),
            ToolError::Writing { path } => prefixed("writing ", path.as_str()),
            ToolError::Edit(EditRefusal::NotFound) => "old text was not found".to_string(),
            ToolError::Edit(EditRefusal::Ambiguous { matches }) => {
                let mut message = "old text matched ".to_string();
                message.append(decimal_text(*matches).as_str());
                message.append(" times");
                message
            },
            ToolError::Command { message } => message.clone(),
        }
    }
}

/// Which tool a call of a name runs under a configuration.
pub open spec fn selected(config: ToolsConfig, name: Seq<char>) -> Result<
    BuiltinTool,
    ToolErrorView,
> {
    if !config.allows(name) {
        Err(ToolErrorView::NotAllowed)
    } else if name == "Read"@ {
        Ok(BuiltinTool::Read)
    } else if name == "Write"@ {
        Ok(BuiltinTool::Write)
    } else if name == "Edit"@ {
        Ok(BuiltinTool::Edit)
    } else if name == "Bash"@ {
        Ok(BuiltinTool::Bash)
    } else {
        Err(ToolErrorView::NotRegistered)
    }
}

/// Picks the tool of one call after allow-list and name checks.
pub fn select_tool(config: &ToolsConfig, name: &str) -> (tool: Result<BuiltinTool, ToolError>)
    ensures
        match tool {
            Ok(tool) => selected(*config, name@) == Ok::<BuiltinTool, ToolErrorView>(tool),
            Err(error) => selected(*config, name@) == Err::<
                BuiltinTool,
                ToolErrorView,
            >(error@),
        },
{
    if !config.is_allowed(name) {
        return Err(ToolError::NotAllowed);
    }
    let tools = builtin_tools();
    let mut i: usize = 0;
    while i < tools.len()
        invariant
            i <= tools@.len(),
            tools@ == builtin(),
            config.allows(name@),
            forall|j: int| 0 <= j < i ==> tool_name(#[trigger] tools@[j]) != name@,
        decreases tools@.len() - i,
    {
        if same_text(tools[i].name(), name) {
            assert(forall|j: int| 0 <= j < i ==> tool_name(#[trigger] tools@[j]) != name@);
            assert(i > 0 ==> tool_name(tools@[0]) != name@);
            assert(i > 1 ==> tool_name(tools@[1]) != name@);
            assert(i > 2 ==> tool_name(tools@[2]) != name@);
            return Ok(tools[i]);
        }
        i += 1;
    }
    assert(tool_name(tools@[0]) != name@ && tool_name(tools@[1]) != name@ && tool_name(tools@[2])
        != name@ && tool_name(tools@[3]) != name@);
    Err(ToolError::NotRegistered)
}

/// What the agent is given for a call that is over: a failure becomes a result that says so.
pub open spec fn given(
    call: ToolCallView,
    result: Result<ToolOutputView, ToolErrorView>,
) -> ToolOutputView {
    match result {
        Ok(output) => output,
        Err(error) => ToolOutputView::Error(
            "tool '"@ + call.name + "' failed: "@ + error.rendered(),
        ),
    }
}

/// What the agent is told of a call that is over.
pub open spec fn call_report(
    call: ToolCallView,
    result: Result<ToolOutputView, ToolErrorView>,
) -> AgentMsgView {
    AgentMsgView::ToolFinished { call_id: call.id, name: call.name, output: given(call, result) }
}

/// Turns the result of a call into the message to the agent.
///
/// A failure becomes an ordinary result that says so.
pub fn report_call(call: ToolCall, result: Result<ToolOutput, ToolError>) -> (report: AgentMsg)
    ensures
        report@ == call_report(call@, views::outcome(result)),
{
    let output = match result {
        Ok(output) => output,
        Err(error) => {
            let mut told = "tool '".to_string();
            told.append(call.name.as_str());
            told.append("' failed: ");
            let reason = error.message();
            told.append(reason.as_str());
            ToolOutput::Error(told)
        },
    };
    AgentMsg::ToolFinished { call_id: call.id, name: call.name, output }
}

/// A batch of calls that is being executed: the calls that are left.
#[derive(Debug)]
pub struct ToolBatch {
    calls: Vec<ToolCall>,
}

/// The model of a [`ToolBatch`]: the calls that are left, in order.
impl View for ToolBatch {
    type V = Seq<ToolCallView>;

    closed spec fn view(&self) -> Seq<ToolCallView> {
        views::views(self.calls@)
    }
}

impl ToolBatch {
    /// Takes up a batch.
    pub fn new(calls: Vec<ToolCall>) -> (batch: ToolBatch)
        ensures
            batch@ == views::views(calls@),
    {
        ToolBatch { calls }
    }

    /// The call to execute next, where one is left.
    ///
    /// Calls are executed in model order so mutation effects remain easy to explain.
    pub fn current(&self) -> (call: Option<&ToolCall>)
        ensures
            match call {
                Some(call) => self@.len() > 0 && call@ == self@[0],
                None => self@.len() == 0,
            },
    {
        if self.calls.len() == 0 {
            None
        } else {
            Some(&self.calls[0])
        }
    }

    /// Ends the current call and says what the agent is told of it.
    pub fn finish(&mut self, result: Result<ToolOutput, ToolError>) -> (report: AgentMsg)
        requires
            old(self)@.len() > 0,
        ensures
            report@ == call_report(old(self)@[0], views::outcome(result)),
            final(self)@ == old(self)@.drop_first(),
    {
        let ghost before = self@;
        let call = self.calls.remove(0);
        assert(self@ =~= before.drop_first());
        report_call(call, result)
    }
}

/// What the tool registry does with a message.
#[derive(Debug)]
pub enum RegistryStep {
    /// It executes a batch.
    Execute(ToolBatch),
    /// It stops.
    Stop,
}

/// Takes one message from the tool registry mailbox.
pub fn take_up(message: ToolRegistryMsg) -> (step: RegistryStep)
    ensures
        match message {
            ToolRegistryMsg::DispatchBatch { calls } => step matches RegistryStep::Execute(batch)
                && batch@ == views::views(calls@),
            ToolRegistryMsg::Shutdown => step == RegistryStep::Stop,
        },
{
    match message {
        ToolRegistryMsg::DispatchBatch { calls } => RegistryStep::Execute(ToolBatch::new(calls)),
        ToolRegistryMsg::Shutdown => RegistryStep::Stop,
    }
}

/// What the agent is told of a batch, call after call.
pub open spec fn batch_reports(
    calls: Seq<ToolCallView>,
    results: Seq<Result<ToolOutputView, ToolErrorView>>,
) -> Seq<AgentMsgView>
    decreases calls.len(),
{
    if calls.len() == 0 || results.len() == 0 {
        Seq::empty()
    } else {
        seq![call_report(calls[0], results[0])] + batch_reports(
            calls.drop_first(),
            results.drop_first(),
        )
    }
}

/// Every call of a batch is answered once, in the model's order, under its own identifier.
pub proof fn lemma_every_call_is_answered(
    calls: Seq<ToolCallView>,
    results: Seq<Result<ToolOutputView, ToolErrorView>>,
)
    requires
        results.len() == calls.len(),
    ensures
        batch_reports(calls, results).len() == calls.len(),
        forall|i: int|
            0 <= i < calls.len() ==> #[trigger] batch_reports(calls, results)[i] == (
            AgentMsgView::ToolFinished {
                call_id: calls[i].id,
                name: calls[i].name,
                output: given(calls[i], results[i]),
            }),
    decreases calls.len(),
{
    if calls.len() > 0 {
        let rest = batch_reports(calls.drop_first(), results.drop_first());
        lemma_every_call_is_answered(calls.drop_first(), results.drop_first());
        assert forall|i: int| 0 <= i < calls.len() implies #[trigger] batch_reports(
            calls,
            results,
        )[i] == call_report(calls[i], results[i]) by {
            if i > 0 {
                assert(batch_reports(calls, results)[i] == rest[i - 1]);
            }
        }
    }
}

/// A model can call exactly the tools that it is offered: a name selects a tool where, and only
/// where, a schema of that name is offered.
pub proof fn lemma_offered_tools_are_the_callable_ones(config: ToolsConfig, name: Seq<char>)
    ensures
        selected(config, name) is Ok <==> exists|i: int|
            0 <= i < offered_schemas(config).len() && (#[trigger] offered_schemas(config)[i]).name
                == name,
        selected(config, name) is Ok ==> config.allows(name) && tool_name(
            selected(config, name)->Ok_0,
        ) == name,
{
    let enabled = |tool: BuiltinTool| config.allows(tool_name(tool));
    let kept = enabled_tools(config);
    if selected(config, name) is Ok {
        let tool = selected(config, name)->Ok_0;
        let at = match tool {
            BuiltinTool::Read => 0int,
            BuiltinTool::Write => 1,
            BuiltinTool::Edit => 2,
            BuiltinTool::Bash => 3,
        };
        assert(builtin()[at] == tool);
        builtin().lemma_filter_contains(enabled, at);
        let i = choose|i: int| 0 <= i < kept.len() && kept[i] == tool;
        assert(offered_schemas(config)[i].name == name);
    }
    if exists|i: int|
        0 <= i < offered_schemas(config).len() && (#[trigger] offered_schemas(config)[i]).name
            == name {
        let i = choose|i: int|
            0 <= i < offered_schemas(config).len() && (#[trigger] offered_schemas(config)[i]).name
                == name;
        assert(tool_name(kept[i]) == name);
        builtin().lemma_filter_pred(enabled, i);
    }
}

} // verus!
