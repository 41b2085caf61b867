//! The steps of a tool call.
//!
//! File tools stay inside the configured workspace while Bash runs as a local
//! command in that workspace. A call is a chain of steps: each names one thing
//! to do on the machine and says how to go on with what came of it.

use crate::config::ToolsConfig;
use crate::edits::{self, replace_exactly_one};
use crate::output::{self, lossy_text, truncate_text};
use crate::paths::{self, parent_path, resolve_path, PathRefusal};
use crate::protocol::{ToolOutput, ToolOutputView};
use crate::text::{self, decimal_text, prefixed, signed_decimal_text};
use crate::tools::{self, select_tool, BuiltinTool, ToolError, ToolErrorView};
use crate::views;
use vstd::prelude::*;
use vstd::string::*;
use vstd::utf8::*;

verus! {

/// What a tool call works with.
#[derive(Debug)]
pub struct ToolContext {
    /// The path of the workspace directory.
    pub workspace: String,
    /// The limits of the tools.
    pub config: ToolsConfig,
}

impl ToolContext {
    /// Resolves a model path and rejects paths outside the configured workspace.
    ///
    /// The resolution is lexical, so a path of a file that does not exist yet
    /// resolves too.
    pub fn resolve_workspace_path(&self, raw: &str) -> (path: Result<String, ToolError>)
        ensures
            match path {
                Ok(path) => paths::resolved(self.workspace@, raw@) == Ok::<Seq<char>, PathRefusal>(
                    path@,
                ),
                Err(error) => paths::resolved(self.workspace@, raw@) is Err && error@
                    == ToolErrorView::Path(paths::resolved(self.workspace@, raw@)->Err_0),
            },
    {
        match resolve_path(self.workspace.as_str(), raw) {
            Ok(path) => Ok(path),
            Err(refusal) => Err(ToolError::Path(refusal)),
        }
    }
}

/// The arguments of a Read call.
#[derive(Debug, Clone)]
pub struct PathArgs {
    /// The file.
    pub path: String,
}

/// The arguments of a Write call.
#[derive(Debug, Clone)]
pub struct WriteArgs {
    /// The file.
    pub path: String,
    /// What it shall hold.
    pub content: String,
}

/// The arguments of an Edit call.
#[derive(Debug, Clone)]
pub struct EditArgs {
    /// The file.
    pub path: String,
    /// The text to replace.
    pub old: String,
    /// What replaces it.
    pub new: String,
}

/// The arguments of a Bash call.
#[derive(Debug, Clone)]
pub struct BashArgs {
    /// The command.
    pub command: String,
}

/// The arguments of a call of one of the tools, absent where they could not be decoded.
#[derive(Debug, Clone)]
pub enum CallArgs {
    /// Of a Read call.
    Read(Option<PathArgs>),
    /// Of a Write call.
    Write(Option<WriteArgs>),
    /// Of an Edit call.
    Edit(Option<EditArgs>),
    /// Of a Bash call.
    Bash(Option<BashArgs>),
}

/// The tool whose arguments these are.
pub open spec fn tool_of(args: CallArgs) -> BuiltinTool {
    match args {
        CallArgs::Read(_) => BuiltinTool::Read,
        CallArgs::Write(_) => BuiltinTool::Write,
        CallArgs::Edit(_) => BuiltinTool::Edit,
        CallArgs::Bash(_) => BuiltinTool::Bash,
    }
}

impl CallArgs {
    /// The tool whose arguments these are.
    pub fn tool(&self) -> (tool: BuiltinTool)
        ensures
            tool == tool_of(*self),
    {
        match self {
            CallArgs::Read(_) => BuiltinTool::Read,
            CallArgs::Write(_) => BuiltinTool::Write,
            CallArgs::Edit(_) => BuiltinTool::Edit,
            CallArgs::Bash(_) => BuiltinTool::Bash,
        }
    }
}

/// What a call does next.
#[derive(Debug)]
pub enum ToolStep {
    /// It is over.
    Done(Result<ToolOutput, ToolError>),
    /// It reads a file.
    ReadFile(PendingRead),
    /// It creates a directory and those above it.
    CreateDirectory(PendingDirectory),
    /// It writes a file.
    WriteFile(PendingWrite),
    /// It runs a command.
    RunCommand(PendingCommand),
}

/// A file that a call is about to read.
#[derive(Debug)]
pub struct PendingRead {
    /// The file.
    pub path: String,
    /// What the contents are for.
    pub purpose: ReadPurpose,
}

/// What the contents of a file are for.
#[derive(Debug)]
pub enum ReadPurpose {
    /// The model sees them.
    Show,
    /// A span of them is replaced.
    Edit {
        /// The text to replace.
        old: String,
        /// What replaces it.
        new: String,
    },
}

/// A directory that a call is about to create.
#[derive(Debug)]
pub struct PendingDirectory {
    /// The directory.
    pub directory: String,
    /// The file to write afterwards.
    pub write: PendingWrite,
}

/// A file that a call is about to write.
#[derive(Debug)]
pub struct PendingWrite {
    /// The file.
    pub path: String,
    /// What it shall hold.
    pub contents: String,
    /// What the model is told of it.
    pub kind: WriteKind,
}

/// How a written file came about.
#[derive(Debug, Clone, Copy, PartialEq, Eq, Structural)]
pub enum WriteKind {
    /// The model wrote all of it.
    Written,
    /// The model replaced a span.
    Edited,
}

/// A command that a call is about to run.
#[derive(Debug)]
pub struct PendingCommand {
    /// The command, for the shell.
    pub command: String,
    /// The directory to run it in.
    pub directory: String,
    /// After how many seconds it is ended.
    pub timeout_secs: u64,
}

/// What came of a command.
#[derive(Debug)]
pub enum CommandOutcome {
    /// It ended by itself.
    Finished(CommandOutput),
    /// It could not be run, and this is what the system says of it.
    Failed(String),
    /// It took too long.
    TimedOut,
}

/// What a command that ended by itself leaves behind.
#[derive(Debug)]
pub struct CommandOutput {
    /// What it wrote to standard output.
    pub stdout: Vec<u8>,
    /// What it wrote to standard error.
    pub stderr: Vec<u8>,
    /// Its exit code, where it has one.
    pub code: Option<i32>,
    /// Whether the system counts it as a success.
    pub success: bool,
}

/// The model of a [`ToolStep`].
pub enum ToolStepView {
    /// It is over.
    Done(Result<ToolOutputView, ToolErrorView>),
    /// It reads a file.
    ReadFile(PendingReadView),
    /// It creates a directory and those above it.
    CreateDirectory(PendingDirectoryView),
    /// It writes a file.
    WriteFile(PendingWriteView),
    /// It runs a command.
    RunCommand(PendingCommandView),
}

/// The model of a [`PendingRead`].
pub struct PendingReadView {
    /// The file.
    pub path: Seq<char>,
    /// The text to replace and what replaces it, where the file is edited.
    pub edit: Option<(Seq<char>, Seq<char>)>,
}

/// The model of a [`PendingDirectory`].
pub struct PendingDirectoryView {
    /// The directory.
    pub directory: Seq<char>,
    /// The file to write afterwards.
    pub write: PendingWriteView,
}

/// The model of a [`PendingWrite`].
pub struct PendingWriteView {
    /// The file.
    pub path: Seq<char>,
    /// What it shall hold.
    pub contents: Seq<char>,
    /// What the model is told of it.
    pub kind: WriteKind,
}

/// The model of a [`PendingCommand`].
pub struct PendingCommandView {
    /// The command.
    pub command: Seq<char>,
    /// The directory to run it in.
    pub directory: Seq<char>,
    /// After how many seconds it is ended.
    pub timeout_secs: nat,
}

impl View for PendingRead {
    type V = PendingReadView;

    open spec fn view(&self) -> PendingReadView {
        PendingReadView {
            path: self.path@,
            edit: match self.purpose {
                ReadPurpose::Show => None,
                ReadPurpose::Edit { old, new } => Some((old@, new@)),
            },
        }
    }
}

impl View for PendingWrite {
    type V = PendingWriteView;

    open spec fn view(&self) -> PendingWriteView {
        PendingWriteView { path: self.path@, contents: self.contents@, kind: self.kind }
    }
}

impl View for PendingDirectory {
    type V = PendingDirectoryView;

    open spec fn view(&self) -> PendingDirectoryView {
        PendingDirectoryView { directory: self.directory@, write: self.write@ }
    }
}

impl View for PendingCommand {
    type V = PendingCommandView;

    open spec fn view(&self) -> PendingCommandView {
        PendingCommandView {
            command: self.command@,
            directory: self.directory@,
            timeout_secs: self.timeout_secs as nat,
        }
    }
}

impl View for ToolStep {
    type V = ToolStepView;

    open spec fn view(&self) -> ToolStepView {
        match self {
            ToolStep::Done(result) => ToolStepView::Done(views::outcome(*result)),
            ToolStep::ReadFile(read) => ToolStepView::ReadFile(read@),
            ToolStep::CreateDirectory(directory) => ToolStepView::CreateDirectory(directory@),
            ToolStep::WriteFile(write) => ToolStepView::WriteFile(write@),
            ToolStep::RunCommand(command) => ToolStepView::RunCommand(command@),
        }
    }
}

/// The step that ends a call in failure.
pub open spec fn failed(error: ToolErrorView) -> ToolStepView {
    ToolStepView::Done(Err(error))
}

/// How a Read call starts, given its decoded arguments.
pub open spec fn read_start(context: ToolContext, args: Option<PathArgs>) -> ToolStepView {
    match args {
        None => failed(ToolErrorView::Arguments { tool: BuiltinTool::Read }),
        Some(args) => match paths::resolved(context.workspace@, args.path@) {
            Err(refusal) => failed(ToolErrorView::Path(refusal)),
            Ok(path) => ToolStepView::ReadFile(PendingReadView { path, edit: None }),
        },
    }
}

/// How a Write call starts, given its decoded arguments.
pub open spec fn write_start(context: ToolContext, args: Option<WriteArgs>) -> ToolStepView {
    match args {
        None => failed(ToolErrorView::Arguments { tool: BuiltinTool::Write }),
        Some(args) => match paths::resolved(context.workspace@, args.path@) {
            Err(refusal) => failed(ToolErrorView::Path(refusal)),
            Ok(path) => {
                let write = PendingWriteView {
                    path,
                    contents: args.content@,
                    kind: WriteKind::Written,
                };
                match paths::parent(path) {
                    Some(directory) => ToolStepView::CreateDirectory(
                        PendingDirectoryView { directory, write },
                    ),
                    None => ToolStepView::WriteFile(write),
                }
            },
        },
    }
}

/// How an Edit call starts, given its decoded arguments.
pub open spec fn edit_start(context: ToolContext, args: Option<EditArgs>) -> ToolStepView {
    match args {
        None => failed(ToolErrorView::Arguments { tool: BuiltinTool::Edit }),
        Some(args) => match paths::resolved(context.workspace@, args.path@) {
            Err(refusal) => failed(ToolErrorView::Path(refusal)),
            Ok(path) => ToolStepView::ReadFile(
                PendingReadView { path, edit: Some((args.old@, args.new@)) },
            ),
        },
    }
}

/// How a Bash call starts, given its decoded arguments.
pub open spec fn bash_start(context: ToolContext, args: Option<BashArgs>) -> ToolStepView {
    match args {
        None => failed(ToolErrorView::Arguments { tool: BuiltinTool::Bash }),
        Some(args) => ToolStepView::RunCommand(
            PendingCommandView {
                command: args.command@,
                directory: context.workspace@,
                timeout_secs: context.config.bash_timeout_secs as nat,
            },
        ),
    }
}

/// How a call starts, given its decoded arguments.
pub open spec fn call_start(context: ToolContext, args: CallArgs) -> ToolStepView {
    match args {
        CallArgs::Read(args) => read_start(context, args),
        CallArgs::Write(args) => write_start(context, args),
        CallArgs::Edit(args) => edit_start(context, args),
        CallArgs::Bash(args) => bash_start(context, args),
    }
}

/// How a call of a name starts: not at all where the name selects no tool, and with arguments of
/// another tool no further than a failure to decode them.
pub open spec fn selected_start(
    context: ToolContext,
    name: Seq<char>,
    args: CallArgs,
) -> ToolStepView {
    match tools::selected(context.config, name) {
        Err(error) => failed(error),
        Ok(tool) => if tool_of(args) == tool {
            call_start(context, args)
        } else {
            failed(ToolErrorView::Arguments { tool })
        },
    }
}

/// How a call goes on once a file has been read, or could not be.
pub open spec fn after_read(
    context: ToolContext,
    read: PendingReadView,
    contents: Option<Seq<char>>,
) -> ToolStepView {
    match contents {
        None => failed(ToolErrorView::Reading { path: read.path }),
        Some(contents) => match read.edit {
            None => ToolStepView::Done(
                Ok(
                    ToolOutputView::Text(
                        output::truncated(contents, context.config.output_byte_limit as nat),
                    ),
                ),
            ),
            Some((old, new)) => match edits::edit(contents, old, new) {
                Err(refusal) => failed(ToolErrorView::Edit(refusal)),
                Ok(edited) => ToolStepView::WriteFile(
                    PendingWriteView {
                        path: read.path,
                        contents: edited,
                        kind: WriteKind::Edited,
                    },
                ),
            },
        },
    }
}

/// How a call goes on once a directory has been created, or could not be.
pub open spec fn after_directory(directory: PendingDirectoryView, created: bool) -> ToolStepView {
    if created {
        ToolStepView::WriteFile(directory.write)
    } else {
        failed(ToolErrorView::Creating { path: directory.directory })
    }
}

/// How a call ends once a file has been written, or could not be.
pub open spec fn after_write(write: PendingWriteView, written: bool) -> ToolStepView {
    if !written {
        failed(ToolErrorView::Writing { path: write.path })
    } else {
        ToolStepView::Done(
            Ok(
                ToolOutputView::Text(
                    match write.kind {
                        WriteKind::Written => "wrote "@ + write.path,
                        WriteKind::Edited => "edited "@ + write.path,
                    },
                ),
            ),
        )
    }
}

/// The exit code of a command as text.
pub open spec fn exit_label(code: Option<i32>) -> Seq<char> {
    match code {
        Some(code) => text::signed_decimal(code as int),
        None => "?"@,
    }
}

/// A truth value as text.
pub open spec fn truth_label(value: bool) -> Seq<char> {
    if value {
        "true"@
    } else {
        "false"@
    }
}

/// What a command wrote, with headings where it wrote to standard error.
pub open spec fn command_body(stdout: Seq<char>, stderr: Seq<char>) -> Seq<char> {
    if stderr.len() == 0 {
        stdout
    } else {
        "--- stdout ---\n"@ + stdout + "--- stderr ---\n"@ + stderr
    }
}

/// The line under the output of a command.
pub open spec fn command_footer(code: Seq<char>, directory: Seq<char>, timed_out: bool) -> Seq<
    char,
> {
    "\n[exit="@ + code + " cwd="@ + directory + " timed_out="@ + truth_label(timed_out) + "]"@
}

/// What the model sees of a command that ended, given the decoded output.
pub open spec fn command_text(
    context: ToolContext,
    stdout: Seq<char>,
    stderr: Seq<char>,
    code: Option<i32>,
    timed_out: bool,
) -> Seq<char> {
    output::truncated(command_body(stdout, stderr), context.config.output_byte_limit as nat)
        + command_footer(exit_label(code), context.workspace@, timed_out)
}

/// The output of a tool call that ran a command which ended, given the decoded output.
pub open spec fn command_output(
    context: ToolContext,
    stdout: Seq<char>,
    stderr: Seq<char>,
    code: Option<i32>,
    success: bool,
    timed_out: bool,
) -> ToolOutputView {
    if success {
        ToolOutputView::Text(command_text(context, stdout, stderr, code, timed_out))
    } else {
        ToolOutputView::Error(command_text(context, stdout, stderr, code, timed_out))
    }
}

/// How a call ends once a command has run, or could not be.
pub open spec fn after_command(context: ToolContext, outcome: CommandOutcome) -> ToolStepView {
    match outcome {
        CommandOutcome::Finished(ended) => ToolStepView::Done(
            Ok(
                command_output(
                    context,
                    output::lossy(ended.stdout@),
                    output::lossy(ended.stderr@),
                    ended.code,
                    ended.success,
                    false,
                ),
            ),
        ),
        CommandOutcome::Failed(message) => failed(ToolErrorView::Command { message: message@ }),
        CommandOutcome::TimedOut => ToolStepView::Done(
            Ok(
                ToolOutputView::Error(
                    "timed out after "@ + text::decimal(context.config.bash_timeout_secs as nat)
                        + "s"@ + command_footer("?"@, context.workspace@, true),
                ),
            ),
        ),
    }
}

/// Starts a Read call. The arguments are absent where they could not be decoded.
pub fn begin_read(context: &ToolContext, args: Option<PathArgs>) -> (step: ToolStep)
    ensures
        step@ == read_start(*context, args),
{
    match args {
        None => ToolStep::Done(Err(ToolError::Arguments { tool: BuiltinTool::Read })),
        Some(args) => match context.resolve_workspace_path(args.path.as_str()) {
            Err(error) => ToolStep::Done(Err(error)),
            Ok(path) => ToolStep::ReadFile(PendingRead { path, purpose: ReadPurpose::Show }),
        },
    }
}

/// Starts a Write call. The arguments are absent where they could not be decoded.
///
/// The directory of the file is created first, so new files need no setup.
pub fn begin_write(context: &ToolContext, args: Option<WriteArgs>) -> (step: ToolStep)
    ensures
        step@ == write_start(*context, args),
{
    match args {
        None => ToolStep::Done(Err(ToolError::Arguments { tool: BuiltinTool::Write })),
        Some(args) => match context.resolve_workspace_path(args.path.as_str()) {
            Err(error) => ToolStep::Done(Err(error)),
            Ok(path) => {
                let parent = parent_path(path.as_str());
                let write = PendingWrite { path, contents: args.content, kind: WriteKind::Written };
                match parent {
                    Some(directory) => ToolStep::CreateDirectory(
                        PendingDirectory { directory, write },
                    ),
                    None => ToolStep::WriteFile(write),
                }
            },
        },
    }
}

/// Starts an Edit call. The arguments are absent where they could not be decoded.
pub fn begin_edit(context: &ToolContext, args: Option<EditArgs>) -> (step: ToolStep)
    ensures
        step@ == edit_start(*context, args),
{
    match args {
        None => ToolStep::Done(Err(ToolError::Arguments { tool: BuiltinTool::Edit })),
        Some(args) => match context.resolve_workspace_path(args.path.as_str()) {
            Err(error) => ToolStep::Done(Err(error)),
            Ok(path) => ToolStep::ReadFile(
                PendingRead { path, purpose: ReadPurpose::Edit { old: args.old, new: args.new } },
            ),
        },
    }
}

/// Starts a Bash call. The arguments are absent where they could not be decoded.
pub fn begin_bash(context: &ToolContext, args: Option<BashArgs>) -> (step: ToolStep)
    ensures
        step@ == bash_start(*context, args),
{
    match args {
        None => ToolStep::Done(Err(ToolError::Arguments { tool: BuiltinTool::Bash })),
        Some(args) => ToolStep::RunCommand(
            PendingCommand {
                command: args.command,
                directory: context.workspace.clone(),
                timeout_secs: context.config.bash_timeout_secs,
            },
        ),
    }
}

/// Starts a call.
pub fn begin_call(context: &ToolContext, args: CallArgs) -> (step: ToolStep)
    ensures
        step@ == call_start(*context, args),
{
    match args {
        CallArgs::Read(args) => begin_read(context, args),
        CallArgs::Write(args) => begin_write(context, args),
        CallArgs::Edit(args) => begin_edit(context, args),
        CallArgs::Bash(args) => begin_bash(context, args),
    }
}

/// Starts a call of a name, after allow-list and name checks.
pub fn begin_selected(context: &ToolContext, name: &str, args: CallArgs) -> (step: ToolStep)
    ensures
        step@ == selected_start(*context, name@, args),
{
    match select_tool(&context.config, name) {
        Err(error) => ToolStep::Done(Err(error)),
        Ok(tool) => if args.tool() == tool {
            begin_call(context, args)
        } else {
            ToolStep::Done(Err(ToolError::Arguments { tool }))
        },
    }
}

impl PendingRead {
    /// Goes on with the contents of the file, which are absent where it could not be read.
    ///
    /// Contents for the model are limited in length; an edit must name exactly one place.
    pub fn resume(self, context: &ToolContext, contents: Option<String>) -> (step: ToolStep)
        ensures
            step@ == after_read(*context, self@, text::optional(contents)),
    {
        match contents {
            None => ToolStep::Done(Err(ToolError::Reading { path: self.path })),
            Some(contents) => match self.purpose {
                ReadPurpose::Show => ToolStep::Done(
                    Ok(
                        ToolOutput::Text(
                            truncate_text(contents, context.config.output_byte_limit),
                        ),
                    ),
                ),
                ReadPurpose::Edit { old, new } => {
                    match replace_exactly_one(contents.as_str(), old.as_str(), new.as_str()) {
                        Err(refusal) => ToolStep::Done(Err(ToolError::Edit(refusal))),
                        Ok(edited) => ToolStep::WriteFile(
                            PendingWrite {
                                path: self.path,
                                contents: edited,
                                kind: WriteKind::Edited,
                            },
                        ),
                    }
                },
            },
        }
    }
}

impl PendingDirectory {
    /// Goes on with whether the directory is there now.
    pub fn resume(self, created: bool) -> (step: ToolStep)
        ensures
            step@ == after_directory(self@, created),
    {
        if created {
            ToolStep::WriteFile(self.write)
        } else {
            ToolStep::Done(Err(ToolError::Creating { path: self.directory }))
        }
    }
}

impl PendingWrite {
    /// Ends with whether the file was written.
    pub fn resume(self, written: bool) -> (step: ToolStep)
        ensures
            step@ == after_write(self@, written),
    {
        if !written {
            return ToolStep::Done(Err(ToolError::Writing { path: self.path }));
        }
        let told = match self.kind {
            WriteKind::Written => prefixed("wrote ", self.path.as_str()),
            WriteKind::Edited => prefixed("edited ", self.path.as_str()),
        };
        ToolStep::Done(Ok(ToolOutput::Text(told)))
    }
}

/// Writes the line under the output of a command.
fn footer_text(code: &str, directory: &str, timed_out: bool) -> (footer: String)
    ensures
        footer@ == command_footer(code@, directory@, timed_out),
{
    let mut footer = "\n[exit=".to_string();
    footer.append(code);
    footer.append(" cwd=");
    footer.append(directory);
    footer.append(" timed_out=");
    if timed_out {
        footer.append("true");
    } else {
        footer.append("false");
    }
    footer.append("]");
    footer
}

/// Renders the decoded output of a command that ended.
pub fn render_command_output(
    context: &ToolContext,
    stdout: String,
    stderr: String,
    code: Option<i32>,
    success: bool,
    timed_out: bool,
) -> (shown: ToolOutput)
    ensures
        shown@ == command_output(*context, stdout@, stderr@, code, success, timed_out),
{
    let label = match code {
        Some(code) => signed_decimal_text(code),
        None => "?".to_string(),
    };
    let body = if stderr.as_str().is_empty() {
        stdout
    } else {
        let mut body = "--- stdout ---\n".to_string();
        body.append(stdout.as_str());
        body.append("--- stderr ---\n");
        body.append(stderr.as_str());
        body
    };
    let mut body = truncate_text(body, context.config.output_byte_limit);
    let footer = footer_text(label.as_str(), context.workspace.as_str(), timed_out);
    body.append(footer.as_str());
    if success {
        ToolOutput::Text(body)
    } else {
        ToolOutput::Error(body)
    }
}

/// Formats command output into Acty's tool-output shape.
pub fn format_command_output(
    ended: CommandOutput,
    context: &ToolContext,
    timed_out: bool,
) -> (shown: ToolOutput)
    ensures
        shown@ == command_output(
            *context,
            output::lossy(ended.stdout@),
            output::lossy(ended.stderr@),
            ended.code,
            ended.success,
            timed_out,
        ),
        valid_utf8(ended.stdout@) ==> output::lossy(ended.stdout@) == decode_utf8(ended.stdout@),
        valid_utf8(ended.stderr@) ==> output::lossy(ended.stderr@) == decode_utf8(ended.stderr@),
{
    let stdout = lossy_text(&ended.stdout);
    let stderr = lossy_text(&ended.stderr);
    render_command_output(context, stdout, stderr, ended.code, ended.success, timed_out)
}

impl PendingCommand {
    /// Ends with what came of the command.
    pub fn resume(self, context: &ToolContext, outcome: CommandOutcome) -> (step: ToolStep)
        ensures
            step@ == after_command(*context, outcome),
            outcome matches CommandOutcome::Finished(ended) ==> {
                &&& valid_utf8(ended.stdout@) ==> output::lossy(ended.stdout@) == decode_utf8(
                    ended.stdout@,
                )
                &&& valid_utf8(ended.stderr@) ==> output::lossy(ended.stderr@) == decode_utf8(
                    ended.stderr@,
                )
            },
    {
        match outcome {
            CommandOutcome::Finished(ended) => ToolStep::Done(
                Ok(format_command_output(ended, context, false)),
            ),
            CommandOutcome::Failed(message) => ToolStep::Done(Err(ToolError::Command { message })),
            CommandOutcome::TimedOut => {
                let mut told = "timed out after ".to_string();
                let seconds = decimal_text(context.config.bash_timeout_secs as u128);
                told.append(seconds.as_str());
                told.append("s");
                let footer = footer_text("?", context.workspace.as_str(), true);
                told.append(footer.as_str());
                ToolStep::Done(Ok(ToolOutput::Error(told)))
            },
        }
    }
}

/// Whether the file that a step reads or writes is one that a model path resolves to, and the
/// directory that it creates the one that holds such a file.
pub open spec fn touches_workspace_only(workspace: Seq<char>, step: ToolStepView) -> bool {
    match step {
        ToolStepView::Done(_) => true,
        ToolStepView::ReadFile(read) => exists|raw: Seq<char>|
            #[trigger] paths::resolved(workspace, raw) == Ok::<Seq<char>, PathRefusal>(read.path),
        ToolStepView::CreateDirectory(directory) => {
            &&& paths::parent(directory.write.path) == Some(directory.directory)
            &&& exists|raw: Seq<char>|
                #[trigger] paths::resolved(workspace, raw) == Ok::<Seq<char>, PathRefusal>(
                    directory.write.path,
                )
        },
        ToolStepView::WriteFile(write) => exists|raw: Seq<char>|
            #[trigger] paths::resolved(workspace, raw) == Ok::<Seq<char>, PathRefusal>(write.path),
        ToolStepView::RunCommand(command) => command.directory == workspace,
    }
}

/// Every call starts with a file of the workspace, or with a command that runs in it.
pub proof fn lemma_calls_start_in_the_workspace(
    context: ToolContext,
    name: Seq<char>,
    args: CallArgs,
)
    ensures
        touches_workspace_only(context.workspace@, call_start(context, args)),
        touches_workspace_only(context.workspace@, selected_start(context, name, args)),
{
}

/// A call that the allow-list refuses starts no step on the machine: it is over at once, and so is
/// a call of a name that no tool has. A call that starts a step is one of an enabled tool, and
/// has arguments of the tool of that name.
pub proof fn lemma_refused_calls_do_nothing(context: ToolContext, name: Seq<char>, args: CallArgs)
    ensures
        !context.config.allows(name) ==> selected_start(context, name, args) == failed(
            ToolErrorView::NotAllowed,
        ),
        selected_start(context, name, args) is Done || {
            &&& context.config.allows(name)
            &&& name == tools::tool_name(tool_of(args))
            &&& selected_start(context, name, args) == call_start(context, args)
        },
{
    tools::lemma_offered_tools_are_the_callable_ones(context.config, name);
}

/// Whether a directory is the workspace or one in it.
pub open spec fn is_workspace_directory(workspace: Seq<char>, directory: Seq<char>) -> bool {
    exists|names: Seq<Seq<char>>|
        (forall|i: int| 0 <= i < names.len() ==> paths::is_entry_name(#[trigger] names[i]))
            && directory == paths::without_tail(
            paths::appended(workspace, #[trigger] text::joined(names, "/"@)),
        )
}

/// The directory that a Write call creates is the workspace or one in it, unless the call names
/// the workspace itself as its file.
pub proof fn lemma_write_creates_inside_the_workspace(context: ToolContext, args: WriteArgs)
    requires
        paths::workspace_components(args.path@) is Ok,
        paths::workspace_components(args.path@)->Ok_0.len() > 0,
    ensures
        write_start(context, Some(args)) matches ToolStepView::CreateDirectory(pending)
            && is_workspace_directory(context.workspace@, pending.directory),
{
    let names = paths::workspace_components(args.path@)->Ok_0;
    let front = names.drop_last();
    paths::lemma_parent_stays_inside(context.workspace@, args.path@);
    paths::lemma_resolved_stays_inside(context.workspace@, args.path@);
    assert forall|i: int| 0 <= i < front.len() implies paths::is_entry_name(
        #[trigger] front[i],
    ) by {
        assert(paths::is_entry_name(names[i]));
    }
}

/// Whatever comes of a step, the call goes on in the workspace.
pub proof fn lemma_calls_stay_in_the_workspace(
    context: ToolContext,
    step: ToolStepView,
    contents: Option<Seq<char>>,
    success: bool,
)
    requires
        touches_workspace_only(context.workspace@, step),
    ensures
        step matches ToolStepView::ReadFile(read) ==> touches_workspace_only(
            context.workspace@,
            after_read(context, read, contents),
        ),
        step matches ToolStepView::CreateDirectory(directory) ==> touches_workspace_only(
            context.workspace@,
            after_directory(directory, success),
        ),
        step matches ToolStepView::WriteFile(write) ==> after_write(write, success) is Done,
{
}

/// What a Read call shows exceeds the configured limit by the truncation mark at most.
pub proof fn lemma_shown_contents_are_bounded(
    context: ToolContext,
    path: Seq<char>,
    contents: Seq<char>,
)
    ensures
        ({
            let step = after_read(context, PendingReadView { path, edit: None }, Some(contents));
            &&& step matches ToolStepView::Done(Ok(ToolOutputView::Text(shown)))
            &&& output::byte_len(shown) <= context.config.output_byte_limit + output::byte_len(
                "\n[truncated]"@,
            )
        }),
{
    output::lemma_truncation_is_bounded(contents, context.config.output_byte_limit as nat);
}

} // verus!
