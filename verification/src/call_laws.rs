//! What the tools do, from the arguments of a call to what the model is told.
//!
//! Every statement here is in terms of the call, what is on the machine, and what is read, written
//! or shown.

use crate::calls::{
    self, BashArgs, CallArgs, CommandOutcome, CommandOutput, EditArgs, PathArgs, PendingReadView,
    ToolContext, ToolStepView, WriteArgs,
};
use crate::config::ToolsConfig;
use crate::edits::{self, EditRefusalView};
use crate::json::JsonView;
use crate::messages::AgentMsgView;
use crate::output;
use crate::paths::{self, PathRefusal};
use crate::protocol::{ToolCallView, ToolOutputView};
use crate::text;
use crate::tools::{self, BuiltinTool, ToolErrorView};
use vstd::prelude::*;
use vstd::string::*;

verus! {

/// A pattern stands at a place exactly where the text is what comes before it, the pattern, and
/// what comes after it.
pub proof fn lemma_occurrence_splits_the_text(
    text: Seq<char>,
    before: Seq<char>,
    pattern: Seq<char>,
    after: Seq<char>,
    at: int,
)
    ensures
        edits::occurs_at(before + pattern + after, pattern, before.len() as int),
        edits::occurs_at(text, pattern, at) ==> 0 <= at <= text.len() - pattern.len() && text
            == text.take(at) + pattern + text.skip(at + pattern.len()),
{
    let whole = before + pattern + after;
    let start = before.len() as int;
    assert(whole.subrange(start, start + pattern.len()) =~= pattern);
    if edits::occurs_at(text, pattern, at) {
        assert(text =~= text.take(at) + pattern + text.skip(at + pattern.len()));
    }
}

/// Where the old text occurs at one place only, an accepted edit gives the text with the new text
/// in that place and everything else as it was; the old and the new text are taken as they are.
pub proof fn lemma_edit_puts_the_new_text_in_place(
    text: Seq<char>,
    old: Seq<char>,
    new: Seq<char>,
    at: int,
)
    requires
        edits::occurs_at(text, old, at),
        forall|i: int| #[trigger] edits::occurs_at(text, old, i) ==> i == at,
    ensures
        edits::edit(text, old, new) == Ok::<Seq<char>, EditRefusalView>(
            text.take(at) + new + text.skip(at + old.len()),
        ),
{
    edits::lemma_edit_needs_one_site(text, old, new);
    assert(edits::edit(text, old, new) is Ok);
    edits::lemma_edit_site_is_unique(text, old, new, at);
}

/// An edit by way of an intermediate text: replacing the old text by a second and that by a third
/// gives what replacing the old text by the third gives, where the second stands at that place
/// only.
pub proof fn lemma_edits_compose(
    text: Seq<char>,
    first: Seq<char>,
    second: Seq<char>,
    third: Seq<char>,
    at: int,
)
    requires
        edits::occurs_at(text, first, at),
        forall|i: int| #[trigger] edits::occurs_at(text, first, i) ==> i == at,
        forall|i: int| #[trigger]
            edits::occurs_at(
                text.take(at) + second + text.skip(at + first.len()),
                second,
                i,
            ) ==> i == at,
    ensures
        edits::edit(text, first, second) is Ok,
        edits::edit(edits::edit(text, first, second)->Ok_0, second, third) == edits::edit(
            text,
            first,
            third,
        ),
{
    let middle = text.take(at) + second + text.skip(at + first.len());
    lemma_edit_puts_the_new_text_in_place(text, first, second, at);
    lemma_edit_puts_the_new_text_in_place(text, first, third, at);
    lemma_occurrence_splits_the_text(middle, text.take(at), second, text.skip(at + first.len()), at);
    lemma_edit_puts_the_new_text_in_place(middle, second, third, at);
    assert(middle.take(at) =~= text.take(at));
    assert(middle.skip(at + second.len()) =~= text.skip(at + first.len()));
}

/// How often a text is reported to occur: with the first occurrence cut off, once less; and not at
/// all where it does not occur. The empty text occurs once more than there are characters.
pub proof fn lemma_disjoint_occurrences_are_counted(text: Seq<char>, pattern: Seq<char>, at: int)
    ensures
        (forall|i: int| !#[trigger] edits::occurs_at(text, pattern, i)) ==> edits::disjoint_matches(
            text,
            pattern,
            0,
        ) == 0,
        pattern.len() == 0 ==> edits::disjoint_matches(text, pattern, 0) == text.len() + 1,
        pattern.len() > 0 && edits::occurs_at(text, pattern, at) && (forall|i: int|
            0 <= i < at ==> !#[trigger] edits::occurs_at(text, pattern, i))
            ==> edits::disjoint_matches(text, pattern, 0) == 1 + edits::disjoint_matches(
            text.skip(at + pattern.len()),
            pattern,
            0,
        ),
{
    if forall|i: int| !#[trigger] edits::occurs_at(text, pattern, i) {
        lemma_nothing_to_count(text, pattern, 0);
    }
    if pattern.len() == 0 {
        lemma_empty_pattern_is_everywhere(text, pattern, 0);
    }
    if pattern.len() > 0 && edits::occurs_at(text, pattern, at) && (forall|i: int|
        0 <= i < at ==> !#[trigger] edits::occurs_at(text, pattern, i)) {
        lemma_count_skips_what_does_not_match(text, pattern, 0, at);
        lemma_count_from_a_later_place(text, pattern, at + pattern.len(), 0);
    }
}

/// Where a pattern does not occur, nothing is counted.
proof fn lemma_nothing_to_count(text: Seq<char>, pattern: Seq<char>, from: int)
    requires
        0 <= from,
        forall|i: int| !#[trigger] edits::occurs_at(text, pattern, i),
    ensures
        edits::disjoint_matches(text, pattern, from) == 0,
    decreases text.len() + 1 - from,
{
    if from <= text.len() - pattern.len() {
        assert(!edits::occurs_at(text, pattern, from));
        lemma_nothing_to_count(text, pattern, from + 1);
    }
}

/// The empty pattern occurs before every character and at the end.
proof fn lemma_empty_pattern_is_everywhere(text: Seq<char>, pattern: Seq<char>, from: int)
    requires
        pattern.len() == 0,
        0 <= from <= text.len() + 1,
    ensures
        edits::disjoint_matches(text, pattern, from) == text.len() + 1 - from,
    decreases text.len() + 1 - from,
{
    if from <= text.len() {
        assert(text.subrange(from, from) =~= pattern);
        lemma_empty_pattern_is_everywhere(text, pattern, from + 1);
    }
}

/// Counting passes over places where the pattern does not stand.
proof fn lemma_count_skips_what_does_not_match(
    text: Seq<char>,
    pattern: Seq<char>,
    from: int,
    at: int,
)
    requires
        0 <= from <= at,
        edits::occurs_at(text, pattern, at),
        forall|i: int| from <= i < at ==> !#[trigger] edits::occurs_at(text, pattern, i),
    ensures
        edits::disjoint_matches(text, pattern, from) == edits::disjoint_matches(text, pattern, at),
    decreases at - from,
{
    if from < at {
        assert(!edits::occurs_at(text, pattern, from));
        lemma_count_skips_what_does_not_match(text, pattern, from + 1, at);
    }
}

/// Counting from a place on is counting in the text from that place on.
proof fn lemma_count_from_a_later_place(
    text: Seq<char>,
    pattern: Seq<char>,
    cut: int,
    from: int,
)
    requires
        pattern.len() > 0,
        0 <= cut <= text.len(),
        0 <= from,
    ensures
        edits::disjoint_matches(text, pattern, cut + from) == edits::disjoint_matches(
            text.skip(cut),
            pattern,
            from,
        ),
    decreases text.len() + 1 - from,
{
    let rest = text.skip(cut);
    if from <= rest.len() - pattern.len() {
        assert(rest.subrange(from, from + pattern.len()) =~= text.subrange(
            cut + from,
            cut + from + pattern.len(),
        ));
        lemma_count_from_a_later_place(text, pattern, cut, from + pattern.len());
        lemma_count_from_a_later_place(text, pattern, cut, from + 1);
    }
}

/// How often a text occurs at all: at one place more or less as the pattern stands at the first
/// place counted or not.
pub proof fn lemma_all_occurrences_are_counted(text: Seq<char>, pattern: Seq<char>, from: int)
    requires
        0 <= from,
    ensures
        edits::occurs_at(text, pattern, from) ==> edits::all_matches(text, pattern, from) == 1
            + edits::all_matches(text, pattern, from + 1),
        !edits::occurs_at(text, pattern, from) ==> edits::all_matches(text, pattern, from)
            == edits::all_matches(text, pattern, from + 1),
        from > text.len() ==> edits::all_matches(text, pattern, from) == 0,
{
}

/// A refused edit reports the number of disjoint occurrences where that is two or more, and the
/// number of occurrences where they all overlap.
pub proof fn lemma_ambiguity_is_reported(text: Seq<char>, old: Seq<char>, new: Seq<char>)
    ensures
        edits::edit(text, old, new) matches Err(EditRefusalView::Ambiguous { matches }) ==> {
            let disjoint = edits::disjoint_matches(text, old, 0);
            &&& disjoint >= 2 ==> matches == disjoint
            &&& disjoint < 2 ==> matches == edits::all_matches(text, old, 0)
        },
{
}

/// A text that fits is shown whole. A longer one is cut: what is shown is a beginning of it that
/// fits, as long as any beginning that fits, and after it the mark.
pub proof fn lemma_truncation_keeps_the_longest_beginning(
    text: Seq<char>,
    limit: nat,
) -> (kept: int)
    ensures
        output::byte_len(text) <= limit ==> output::truncated(text, limit) == text,
        output::byte_len(text) > limit ==> {
            &&& 0 <= kept < text.len()
            &&& output::truncated(text, limit) == text.take(kept) + "\n[truncated]"@
            &&& output::byte_len(text.take(kept)) <= limit
            &&& forall|longer: int|
                kept < longer <= text.len() ==> output::byte_len(#[trigger] text.take(longer))
                    > limit
        },
        output::byte_len(text) == vstd::utf8::encode_utf8(text).len(),
{
    output::lemma_fitting_chars_is_longest(text, limit);
    let kept = output::fitting_chars(text, limit as int) as int;
    if output::byte_len(text) > limit && kept == text.len() {
        assert(text.take(kept) =~= text);
    }
    kept
}

/// A Read call shows the file that its path names, up to the limit.
pub proof fn lemma_read_shows_the_file(
    context: ToolContext,
    args: PathArgs,
    place: Seq<char>,
    contents: Seq<char>,
)
    requires
        paths::resolved(context.workspace@, args.path@) == Ok::<Seq<char>, PathRefusal>(place),
    ensures
        calls::call_start(context, CallArgs::Read(Some(args))) matches ToolStepView::ReadFile(read)
            && read.path == place && {
            &&& calls::after_read(context, read, Some(contents)) matches ToolStepView::Done(
                Ok(ToolOutputView::Text(shown)),
            )
            &&& output::byte_len(contents) <= context.config.output_byte_limit ==> shown == contents
            &&& shown == output::truncated(contents, context.config.output_byte_limit as nat)
        } && calls::after_read(context, read, None) == ToolStepView::Done(
            Err(ToolErrorView::Reading { path: place }),
        ),
{
    output::lemma_truncation_is_bounded(contents, context.config.output_byte_limit as nat);
}

/// A Write call puts exactly the given contents into the file that its path names, after the
/// directory of that file is there, and says so.
pub proof fn lemma_write_puts_the_contents(
    context: ToolContext,
    args: WriteArgs,
    place: Seq<char>,
    created: bool,
    written: bool,
)
    requires
        paths::resolved(context.workspace@, args.path@) == Ok::<Seq<char>, PathRefusal>(place),
    ensures
        ({
            let step = calls::call_start(context, CallArgs::Write(Some(args)));
            let write = match step {
                ToolStepView::CreateDirectory(pending) => pending.write,
                ToolStepView::WriteFile(write) => write,
                _ => arbitrary(),
            };
            &&& step is CreateDirectory || step is WriteFile
            &&& step is WriteFile <==> paths::parent(place) is None
            &&& step matches ToolStepView::CreateDirectory(pending) ==> {
                &&& paths::parent(place) == Some(pending.directory)
                &&& calls::after_directory(pending, true) == ToolStepView::WriteFile(write)
                &&& calls::after_directory(pending, false) == ToolStepView::Done(
                    Err(ToolErrorView::Creating { path: pending.directory }),
                )
            }
            &&& write.path == place
            &&& write.contents == args.content@
            &&& calls::after_write(write, true) == ToolStepView::Done(
                Ok(ToolOutputView::Text("wrote "@ + place)),
            )
            &&& calls::after_write(write, false) == ToolStepView::Done(
                Err(ToolErrorView::Writing { path: place }),
            )
        }),
{
}

/// An Edit call reads the file that its path names. Where the old text, exactly as the call gave
/// it, occurs there at one place only, the file is written with the new text, exactly as the call
/// gave it, in that place and everything else as it was.
pub proof fn lemma_edit_writes_the_new_text_in_place(
    context: ToolContext,
    args: EditArgs,
    place: Seq<char>,
    contents: Seq<char>,
    at: int,
)
    requires
        paths::resolved(context.workspace@, args.path@) == Ok::<Seq<char>, PathRefusal>(place),
        edits::occurs_at(contents, args.old@, at),
        forall|i: int| #[trigger] edits::occurs_at(contents, args.old@, i) ==> i == at,
    ensures
        calls::call_start(context, CallArgs::Edit(Some(args))) matches ToolStepView::ReadFile(read)
            && read.path == place && (calls::after_read(
            context,
            read,
            Some(contents),
        ) matches ToolStepView::WriteFile(write) && {
            &&& write.path == place
            &&& write.contents == contents.take(at) + args.new@ + contents.skip(
                at + args.old@.len(),
            )
            &&& calls::after_write(write, true) == ToolStepView::Done(
                Ok(ToolOutputView::Text("edited "@ + place)),
            )
            &&& calls::after_write(write, false) == ToolStepView::Done(
                Err(ToolErrorView::Writing { path: place }),
            )
        }),
{
    lemma_edit_puts_the_new_text_in_place(contents, args.old@, args.new@, at);
}

/// The same of the step that follows the reading of a file: it writes the new text in place.
pub proof fn lemma_reading_for_an_edit_leads_to_the_edited_file(
    context: ToolContext,
    path: Seq<char>,
    contents: Seq<char>,
    old_text: Seq<char>,
    new_text: Seq<char>,
    at: int,
)
    requires
        edits::occurs_at(contents, old_text, at),
        forall|i: int| #[trigger] edits::occurs_at(contents, old_text, i) ==> i == at,
    ensures
        calls::after_read(
            context,
            PendingReadView { path, edit: Some((old_text, new_text)) },
            Some(contents),
        ) matches ToolStepView::WriteFile(write) && write.path == path && write.contents
            == contents.take(at) + new_text + contents.skip(at + old_text.len()),
{
    lemma_edit_puts_the_new_text_in_place(contents, old_text, new_text, at);
}

/// An Edit call writes nothing where the old text is absent or stands at more than one place, or
/// where the file cannot be read.
pub proof fn lemma_edit_leaves_other_files_alone(
    context: ToolContext,
    path: Seq<char>,
    contents: Seq<char>,
    old_text: Seq<char>,
    new_text: Seq<char>,
)
    ensures
        ({
            let read = PendingReadView { path, edit: Some((old_text, new_text)) };
            let step = calls::after_read(context, read, Some(contents));
            &&& (forall|i: int| !#[trigger] edits::occurs_at(contents, old_text, i)) ==> step
                == ToolStepView::Done(Err(ToolErrorView::Edit(EditRefusalView::NotFound)))
            &&& (exists|i: int, j: int|
                #[trigger] edits::occurs_at(contents, old_text, i)
                    && #[trigger] edits::occurs_at(contents, old_text, j) && i != j) ==> (
            step matches ToolStepView::Done(
                Err(ToolErrorView::Edit(EditRefusalView::Ambiguous { matches })),
            ) && matches >= 2)
            &&& calls::after_read(context, read, None) == ToolStepView::Done(
                Err(ToolErrorView::Reading { path }),
            )
        }),
{
    edits::lemma_edit_needs_one_site(contents, old_text, new_text);
}

/// A Bash call runs exactly the given command in the workspace, for no longer than configured.
pub proof fn lemma_bash_runs_the_command(context: ToolContext, args: BashArgs)
    ensures
        calls::call_start(context, CallArgs::Bash(Some(args))) matches ToolStepView::RunCommand(
            command,
        ) && command.command == args.command@ && command.directory == context.workspace@
            && command.timeout_secs == context.config.bash_timeout_secs,
{
}

/// Whether a finished command counts as a success depends on its exit status alone, not on what it
/// wrote nor where.
pub proof fn lemma_exit_status_alone_decides(
    context: ToolContext,
    stdout: Seq<char>,
    stderr: Seq<char>,
    code: Option<i32>,
    success: bool,
    timed_out: bool,
    ended: CommandOutput,
)
    ensures
        calls::command_output(context, stdout, stderr, code, success, timed_out) is Text <==> success,
        calls::command_output(context, stdout, stderr, code, success, timed_out) is Error
            <==> !success,
        ended.success ==> (calls::after_command(
            context,
            CommandOutcome::Finished(ended),
        ) matches ToolStepView::Done(Ok(ToolOutputView::Text(_)))),
        !ended.success ==> (calls::after_command(
            context,
            CommandOutcome::Finished(ended),
        ) matches ToolStepView::Done(Ok(ToolOutputView::Error(_)))),
{
}

/// What is shown of a finished command: what it wrote, up to the limit, under headings exactly
/// where it wrote to standard error, and after it a line with the exit code, or a question mark
/// where it has none, the workspace, and whether it timed out. A success and a failure show the
/// same text.
pub proof fn lemma_command_report_in_full(
    context: ToolContext,
    stdout: Seq<char>,
    stderr: Seq<char>,
    code: Option<i32>,
    success: bool,
    timed_out: bool,
)
    ensures
        ({
            let shown = match calls::command_output(
                context,
                stdout,
                stderr,
                code,
                success,
                timed_out,
            ) {
                ToolOutputView::Text(said) => said,
                ToolOutputView::Error(said) => said,
            };
            let wrote = if stderr.len() == 0 {
                stdout
            } else {
                "--- stdout ---\n"@ + stdout + "--- stderr ---\n"@ + stderr
            };
            let exit = match code {
                None => "?"@,
                Some(number) => text::signed_decimal(number as int),
            };
            let late = if timed_out {
                "true"@
            } else {
                "false"@
            };
            let line = "\n[exit="@ + exit + " cwd="@ + context.workspace@ + " timed_out="@ + late
                + "]"@;
            &&& shown == output::truncated(wrote, context.config.output_byte_limit as nat) + line
            &&& output::byte_len(wrote) <= context.config.output_byte_limit ==> shown == wrote
                + line
        }),
{
    let wrote = if stderr.len() == 0 {
        stdout
    } else {
        "--- stdout ---\n"@ + stdout + "--- stderr ---\n"@ + stderr
    };
    output::lemma_truncation_is_bounded(wrote, context.config.output_byte_limit as nat);
}

/// A command that ended by itself is reported with both of its outputs decoded, its own exit code
/// and status, and as not timed out.
pub proof fn lemma_finished_command_is_reported(context: ToolContext, ended: CommandOutput)
    ensures
        calls::after_command(context, CommandOutcome::Finished(ended)) == ToolStepView::Done(
            Ok(
                calls::command_output(
                    context,
                    output::lossy(ended.stdout@),
                    output::lossy(ended.stderr@),
                    ended.code,
                    ended.success,
                    false,
                ),
            ),
        ),
{
}

/// A command that could not be run fails with what the system says of it, and one that took too
/// long is an error that names the limit and the workspace.
pub proof fn lemma_other_commands_are_reported(
    context: ToolContext,
    message: String,
    outcome: CommandOutcome,
)
    ensures
        calls::after_command(context, CommandOutcome::Failed(message)) == ToolStepView::Done(
            Err(ToolErrorView::Command { message: message@ }),
        ),
        calls::after_command(context, CommandOutcome::TimedOut) == ToolStepView::Done(
            Ok(
                ToolOutputView::Error(
                    "timed out after "@ + text::decimal(context.config.bash_timeout_secs as nat)
                        + "s"@ + ("\n[exit="@ + "?"@ + " cwd="@ + context.workspace@
                        + " timed_out="@ + "true"@ + "]"@),
                ),
            ),
        ),
        calls::after_command(context, outcome) is Done,
{
}

/// A call whose arguments cannot be decoded, or whose path is refused, does nothing but say so.
pub proof fn lemma_unusable_arguments_do_nothing(
    context: ToolContext,
    path: Seq<char>,
    refusal: PathRefusal,
    read: PathArgs,
    write: WriteArgs,
    edit: EditArgs,
)
    requires
        paths::resolved(context.workspace@, path) == Err::<Seq<char>, PathRefusal>(refusal),
        read.path@ == path,
        write.path@ == path,
        edit.path@ == path,
    ensures
        ({
            let refused = ToolStepView::Done(Err(ToolErrorView::Path(refusal)));
            &&& calls::call_start(context, CallArgs::Read(Some(read))) == refused
            &&& calls::call_start(context, CallArgs::Write(Some(write))) == refused
            &&& calls::call_start(context, CallArgs::Edit(Some(edit))) == refused
        }),
        calls::call_start(context, CallArgs::Read(None)) == ToolStepView::Done(
            Err(ToolErrorView::Arguments { tool: BuiltinTool::Read }),
        ),
        calls::call_start(context, CallArgs::Write(None)) == ToolStepView::Done(
            Err(ToolErrorView::Arguments { tool: BuiltinTool::Write }),
        ),
        calls::call_start(context, CallArgs::Edit(None)) == ToolStepView::Done(
            Err(ToolErrorView::Arguments { tool: BuiltinTool::Edit }),
        ),
        calls::call_start(context, CallArgs::Bash(None)) == ToolStepView::Done(
            Err(ToolErrorView::Arguments { tool: BuiltinTool::Bash }),
        ),
{
}

/// A call of the name of an enabled tool, with arguments of that tool, starts as a call of that
/// tool does.
pub proof fn lemma_enabled_tools_can_be_called(context: ToolContext, args: CallArgs)
    ensures
        ({
            let name = match args {
                CallArgs::Read(_) => "Read"@,
                CallArgs::Write(_) => "Write"@,
                CallArgs::Edit(_) => "Edit"@,
                CallArgs::Bash(_) => "Bash"@,
            };
            text::texts(context.config.allowed@).contains(name) ==> calls::selected_start(
                context,
                name,
                args,
            ) == calls::call_start(context, args)
        }),
{
    reveal_strlit("Read");
    reveal_strlit("Write");
    reveal_strlit("Edit");
    reveal_strlit("Bash");
    assert("Read"@[0] == 'R' && "Edit"@[0] == 'E' && "Bash"@[0] == 'B' && "Write"@[0] == 'W');
}

/// Which tool a name selects: none where the allow-list does not hold it, else the tool of that
/// name, and none where there is no such tool.
pub proof fn lemma_names_select_their_tools(config: ToolsConfig, name: Seq<char>)
    ensures
        config.allows(name) <==> exists|i: int|
            0 <= i < config.allowed@.len() && (#[trigger] config.allowed@[i])@ == name,
        !config.allows(name) ==> tools::selected(config, name) == Err::<BuiltinTool, ToolErrorView>(
            ToolErrorView::NotAllowed,
        ),
        config.allows(name) ==> {
            &&& name == "Read"@ ==> tools::selected(config, name) == Ok::<
                BuiltinTool,
                ToolErrorView,
            >(BuiltinTool::Read)
            &&& name == "Write"@ ==> tools::selected(config, name) == Ok::<
                BuiltinTool,
                ToolErrorView,
            >(BuiltinTool::Write)
            &&& name == "Edit"@ ==> tools::selected(config, name) == Ok::<
                BuiltinTool,
                ToolErrorView,
            >(BuiltinTool::Edit)
            &&& name == "Bash"@ ==> tools::selected(config, name) == Ok::<
                BuiltinTool,
                ToolErrorView,
            >(BuiltinTool::Bash)
            &&& name != "Read"@ && name != "Write"@ && name != "Edit"@ && name != "Bash"@
                ==> tools::selected(config, name) == Err::<BuiltinTool, ToolErrorView>(
                ToolErrorView::NotRegistered,
            )
        },
{
    reveal_strlit("Read");
    reveal_strlit("Write");
    reveal_strlit("Edit");
    reveal_strlit("Bash");
    assert("Read"@[0] == 'R' && "Edit"@[0] == 'E' && "Bash"@[0] == 'B' && "Write"@[0] == 'W');
    let names = text::texts(config.allowed@);
    if config.allows(name) {
        let i = choose|i: int| 0 <= i < names.len() && names[i] == name;
        assert(config.allowed@[i]@ == name);
    }
    if exists|i: int| 0 <= i < config.allowed@.len() && (#[trigger] config.allowed@[i])@ == name {
        let i = choose|i: int|
            0 <= i < config.allowed@.len() && (#[trigger] config.allowed@[i])@ == name;
        assert(names[i] == name);
    }
}

/// The model is offered every enabled tool once and no other, in a fixed order.
pub proof fn lemma_every_enabled_tool_is_offered(config: ToolsConfig)
    ensures
        ({
            let offer = |name: Seq<char>, tool: BuiltinTool|
                if config.allows(name) {
                    seq![tools::tool_schema(tool)]
                } else {
                    Seq::empty()
                };
            tools::offered_schemas(config) == offer("Read"@, BuiltinTool::Read) + offer(
                "Write"@,
                BuiltinTool::Write,
            ) + offer("Edit"@, BuiltinTool::Edit) + offer("Bash"@, BuiltinTool::Bash)
        }),
{
    let enabled = |tool: BuiltinTool| config.allows(tools::tool_name(tool));
    let schema = |tool: BuiltinTool| tools::tool_schema(tool);
    let all = tools::builtin();
    let three = all.drop_last();
    let two = three.drop_last();
    let one = two.drop_last();
    reveal_with_fuel(Seq::filter, 5);
    assert(one.drop_last() =~= Seq::empty());
    let offer = |name: Seq<char>, tool: BuiltinTool|
        if config.allows(name) {
            seq![tools::tool_schema(tool)]
        } else {
            Seq::empty()
        };
    assert(one.filter(enabled).map_values(schema) =~= offer("Read"@, BuiltinTool::Read));
    assert(two.filter(enabled).map_values(schema) =~= offer("Read"@, BuiltinTool::Read) + offer(
        "Write"@,
        BuiltinTool::Write,
    ));
    assert(three.filter(enabled).map_values(schema) =~= offer("Read"@, BuiltinTool::Read) + offer(
        "Write"@,
        BuiltinTool::Write,
    ) + offer("Edit"@, BuiltinTool::Edit));
    assert(all.filter(enabled).map_values(schema) =~= offer("Read"@, BuiltinTool::Read) + offer(
        "Write"@,
        BuiltinTool::Write,
    ) + offer("Edit"@, BuiltinTool::Edit) + offer("Bash"@, BuiltinTool::Bash));
}

/// Every tool is described under the name that a call uses, and its schema asks for an object
/// with exactly the arguments of the tool, each a string and each required.
pub proof fn lemma_schemas_ask_for_the_arguments(tool: BuiltinTool)
    ensures
        ({
            let schema = tools::tool_schema(tool);
            let fields = schema.parameters->Object_0;
            let properties = fields[1].1->Object_0;
            let required = fields[2].1->Array_0;
            let names = match tool {
                BuiltinTool::Read => seq!["path"@],
                BuiltinTool::Write => seq!["path"@, "content"@],
                BuiltinTool::Edit => seq!["path"@, "old"@, "new"@],
                BuiltinTool::Bash => seq!["command"@],
            };
            &&& schema.name == match tool {
                BuiltinTool::Read => "Read"@,
                BuiltinTool::Write => "Write"@,
                BuiltinTool::Edit => "Edit"@,
                BuiltinTool::Bash => "Bash"@,
            }
            &&& schema.description == match tool {
                BuiltinTool::Read => "Read a UTF-8 file from the workspace."@,
                BuiltinTool::Write => "Create or replace a UTF-8 file in the workspace."@,
                BuiltinTool::Edit => "Replace one exact text span in a UTF-8 workspace file."@,
                BuiltinTool::Bash => {
                    "Run a shell command in the workspace using soft local execution."@
                },
            }
            &&& schema.parameters is Object
            &&& fields.len() == 3
            &&& fields[0] == ("type"@, JsonView::Text("object"@))
            &&& fields[1].0 == "properties"@ && fields[1].1 is Object
            &&& fields[2].0 == "required"@ && fields[2].1 is Array
            &&& properties.len() == names.len() && required.len() == names.len()
            &&& forall|i: int|
                0 <= i < names.len() ==> #[trigger] properties[i] == (
                    names[i],
                    JsonView::Object(seq![("type"@, JsonView::Text("string"@))]),
                )
            &&& forall|i: int|
                0 <= i < names.len() ==> #[trigger] required[i] == JsonView::Text(names[i])
        }),
{
}

/// What a failure says.
pub proof fn lemma_failures_say_what_happened(
    tool: BuiltinTool,
    path: Seq<char>,
    matches: nat,
    message: Seq<char>,
)
    ensures
        ToolErrorView::NotAllowed.rendered() == "tool is not allowed by config"@,
        ToolErrorView::NotRegistered.rendered() == "tool is not registered"@,
        (ToolErrorView::Arguments { tool }).rendered() == "decoding "@ + tools::tool_schema(
            tool,
        ).name + " args"@,
        ToolErrorView::Path(PathRefusal::OutsideWorkspace).rendered()
            == "absolute paths must be under /workspace"@,
        ToolErrorView::Path(PathRefusal::EscapesWorkspace).rendered()
            == "path escapes the workspace"@,
        (ToolErrorView::Reading { path }).rendered() == "reading "@ + path,
        (ToolErrorView::Creating { path }).rendered() == "creating "@ + path,
        (ToolErrorView::Writing { path }).rendered() == "writing "@ + path,
        ToolErrorView::Edit(EditRefusalView::NotFound).rendered() == "old text was not found"@,
        ToolErrorView::Edit(EditRefusalView::Ambiguous { matches }).rendered()
            == "old text matched "@ + text::decimal(matches) + " times"@,
        (ToolErrorView::Command { message }).rendered() == message,
{
}

/// The agent is told of every call under its own identifier and name: the output itself where the
/// call came to one, be it a success or not, and otherwise an error that names the tool and says
/// what happened.
pub proof fn lemma_calls_are_reported(
    call: ToolCallView,
    output: ToolOutputView,
    error: ToolErrorView,
)
    ensures
        tools::call_report(call, Ok(output)) == (AgentMsgView::ToolFinished {
            call_id: call.id,
            name: call.name,
            output,
        }),
        tools::call_report(call, Err(error)) == (AgentMsgView::ToolFinished {
            call_id: call.id,
            name: call.name,
            output: ToolOutputView::Error(
                "tool '"@ + call.name + "' failed: "@ + error.rendered(),
            ),
        }),
{
}

/// A tool output reads as its text where the call succeeded, and as its message after a prefix
/// where it failed; only the latter counts as failed.
pub proof fn lemma_outputs_read_as_they_are(said: Seq<char>)
    ensures
        ToolOutputView::Text(said).rendered() == said,
        ToolOutputView::Error(said).rendered() == "Error: "@ + said,
        !ToolOutputView::Text(said).failed(),
        ToolOutputView::Error(said).failed(),
{
}

} // verus!
