//! Keeps the paths that a model names inside the workspace.
//!
//! Paths are text with `/` as the separator. Normalization is lexical, so it
//! works for files that do not exist yet.

use crate::text::{self, chars_of, join_texts, same_text};
use vstd::prelude::*;
use vstd::string::*;

verus! {

/// The pieces of a path between its separators.
pub open spec fn segments(path: Seq<char>) -> Seq<Seq<char>>
    decreases path.len(),
{
    if path.len() == 0 {
        seq![Seq::empty()]
    } else {
        let before = segments(path.drop_last());
        if path.last() == '/' {
            before.push(Seq::empty())
        } else {
            before.drop_last().push(before.last().push(path.last()))
        }
    }
}

/// Whether a segment names something: it is neither empty nor the current directory.
pub open spec fn is_component(segment: Seq<char>) -> bool {
    segment.len() > 0 && segment != "."@
}

/// The components of a path: repeated separators and current directories are left out.
pub open spec fn components(path: Seq<char>) -> Seq<Seq<char>> {
    segments(path).filter(|segment: Seq<char>| is_component(segment))
}

/// Whether a path starts at the root.
pub open spec fn is_absolute(path: Seq<char>) -> bool {
    path.len() > 0 && path[0] == '/'
}

/// Why a path was refused.
#[derive(Debug, Clone, Copy, PartialEq, Eq, Structural)]
pub enum PathRefusal {
    /// An absolute path that does not start with `/workspace`.
    OutsideWorkspace,
    /// A path whose parent directories lead above the workspace.
    EscapesWorkspace,
}

/// The components of a path relative to the workspace.
pub open spec fn workspace_relative(path: Seq<char>) -> Result<Seq<Seq<char>>, PathRefusal> {
    let parts = components(path);
    if !is_absolute(path) {
        Ok(parts)
    } else if parts.len() > 0 && parts[0] == "workspace"@ {
        Ok(parts.drop_first())
    } else {
        Err(PathRefusal::OutsideWorkspace)
    }
}

/// What is left of a list of components once every parent directory has removed the component
/// before it.
pub open spec fn normalized(parts: Seq<Seq<char>>) -> Result<Seq<Seq<char>>, PathRefusal>
    decreases parts.len(),
{
    if parts.len() == 0 {
        Ok(Seq::empty())
    } else {
        match normalized(parts.drop_last()) {
            Err(refusal) => Err(refusal),
            Ok(before) => if parts.last() != ".."@ {
                Ok(before.push(parts.last()))
            } else if before.len() > 0 {
                Ok(before.drop_last())
            } else {
                Err(PathRefusal::EscapesWorkspace)
            },
        }
    }
}

/// The normalized components, below the workspace, of a path that a model names.
pub open spec fn workspace_components(path: Seq<char>) -> Result<Seq<Seq<char>>, PathRefusal> {
    match workspace_relative(path) {
        Ok(parts) => normalized(parts),
        Err(refusal) => Err(refusal),
    }
}

/// A relative path appended to a base directory.
pub open spec fn appended(base: Seq<char>, relative: Seq<char>) -> Seq<char> {
    if base.len() == 0 || base.last() == '/' {
        base + relative
    } else {
        base + "/"@ + relative
    }
}

/// Where a path that a model names lies, given the workspace directory.
pub open spec fn resolved(workspace: Seq<char>, path: Seq<char>) -> Result<Seq<char>, PathRefusal> {
    match workspace_components(path) {
        Ok(parts) => Ok(appended(workspace, text::joined(parts, "/"@))),
        Err(refusal) => Err(refusal),
    }
}

/// Splits a path into its components.
pub fn path_components(path: &str) -> (parts: Vec<String>)
    ensures
        text::texts(parts@) == components(path@),
{
    let ghost keep = |segment: Seq<char>| is_component(segment);
    let chars = chars_of(path);
    let mut parts: Vec<String> = Vec::new();
    let mut start: usize = 0;
    let mut i: usize = 0;
    proof {
        assert(path@.take(0) =~= Seq::<char>::empty());
        assert(segments(path@.take(0)).drop_last() =~= Seq::<Seq<char>>::empty());
        reveal(Seq::filter);
        assert(text::texts(parts@) =~= Seq::<Seq<char>>::empty());
    }
    while i < chars.len()
        invariant
            start <= i <= chars@.len(),
            chars@ == path@,
            keep == (|segment: Seq<char>| is_component(segment)),
            segments(path@.take(i as int)).len() > 0,
            segments(path@.take(i as int)).last() == path@.subrange(start as int, i as int),
            text::texts(parts@) == segments(path@.take(i as int)).drop_last().filter(keep),
        decreases chars@.len() - i,
    {
        let ghost before = segments(path@.take(i as int));
        assert(path@.take(i + 1).drop_last() =~= path@.take(i as int));
        if chars[i] == '/' {
            let segment = path.substring_char(start, i);
            push_component(&mut parts, segment, Ghost(before.drop_last()));
            proof {
                assert(before.drop_last().push(before.last()) =~= before);
                assert(segments(path@.take(i + 1)).drop_last() =~= before);
            }
            start = i + 1;
            assert(path@.subrange(start as int, i + 1) =~= Seq::<char>::empty());
        } else {
            assert(segments(path@.take(i + 1)).drop_last() =~= before.drop_last());
            assert(path@.subrange(start as int, i + 1) =~= path@.subrange(
                start as int,
                i as int,
            ).push(path@[i as int]));
        }
        i += 1;
    }
    assert(path@.take(i as int) =~= path@);
    let ghost all = segments(path@);
    push_component(&mut parts, path.substring_char(start, i), Ghost(all.drop_last()));
    assert(all.drop_last().push(all.last()) =~= all);
    parts
}

/// Records a segment where it is a component.
fn push_component(parts: &mut Vec<String>, segment: &str, Ghost(before): Ghost<Seq<Seq<char>>>)
    requires
        text::texts(old(parts)@) == before.filter(
            |segment: Seq<char>| is_component(segment),
        ),
    ensures
        text::texts(final(parts)@) == before.push(segment@).filter(
            |segment: Seq<char>| is_component(segment),
        ),
{
    let ghost keep = |segment: Seq<char>| is_component(segment);
    proof {
        before.lemma_filter_push(segment@, keep);
    }
    if !segment.is_empty() && !same_text(segment, ".") {
        parts.push(segment.to_string());
        assert(text::texts(parts@) =~= text::texts(old(parts)@).push(segment@));
    }
}

/// Converts a path that a model names into components relative to the workspace.
///
/// Absolute paths are accepted under `/workspace` only.
pub fn workspace_relative_path(path: &str) -> (relative: Result<Vec<String>, PathRefusal>)
    ensures
        match relative {
            Ok(parts) => workspace_relative(path@) == Ok::<Seq<Seq<char>>, PathRefusal>(
                text::texts(parts@),
            ),
            Err(refusal) => workspace_relative(path@) == Err::<Seq<Seq<char>>, PathRefusal>(
                refusal,
            ),
        },
{
    let mut parts = path_components(path);
    let chars = chars_of(path);
    if chars.len() == 0 || chars[0] != '/' {
        return Ok(parts);
    }
    let ghost all = text::texts(parts@);
    if parts.len() == 0 {
        return Err(PathRefusal::OutsideWorkspace);
    }
    let under_workspace = same_text(parts[0].as_str(), "workspace");
    assert(all[0] == parts@[0]@);
    if !under_workspace {
        return Err(PathRefusal::OutsideWorkspace);
    }
    let _ = parts.remove(0);
    assert(text::texts(parts@) =~= all.drop_first());
    Ok(parts)
}

/// Normalizes a list of components without touching the filesystem.
pub fn normalize_relative(parts: Vec<String>) -> (result: Result<Vec<String>, PathRefusal>)
    ensures
        match result {
            Ok(clean) => normalized(text::texts(parts@)) == Ok::<
                Seq<Seq<char>>,
                PathRefusal,
            >(text::texts(clean@)),
            Err(refusal) => normalized(text::texts(parts@)) == Err::<
                Seq<Seq<char>>,
                PathRefusal,
            >(refusal),
        },
{
    let ghost all = text::texts(parts@);
    let mut clean: Vec<String> = Vec::new();
    let mut i: usize = 0;
    assert(text::texts(clean@) =~= Seq::<Seq<char>>::empty());
    while i < parts.len()
        invariant
            i <= parts@.len(),
            all == text::texts(parts@),
            normalized(all.take(i as int)) == Ok::<Seq<Seq<char>>, PathRefusal>(
                text::texts(clean@),
            ),
        decreases parts@.len() - i,
    {
        let ghost before = text::texts(clean@);
        assert(all.take(i + 1).drop_last() =~= all.take(i as int));
        assert(all.take(i + 1).last() == parts@[i as int]@);
        if !same_text(parts[i].as_str(), "..") {
            clean.push(parts[i].clone());
            assert(text::texts(clean@) =~= before.push(parts@[i as int]@));
        } else if clean.len() > 0 {
            let _ = clean.pop();
            assert(text::texts(clean@) =~= before.drop_last());
        } else {
            proof {
                lemma_escape_is_final(all, i + 1);
            }
            return Err(PathRefusal::EscapesWorkspace);
        }
        i += 1;
    }
    assert(all.take(i as int) =~= all);
    Ok(clean)
}

/// A prefix that escapes the workspace makes the whole path escape it.
pub proof fn lemma_escape_is_final(parts: Seq<Seq<char>>, count: int)
    requires
        0 <= count <= parts.len(),
        normalized(parts.take(count)) is Err,
    ensures
        normalized(parts) == Err::<Seq<Seq<char>>, PathRefusal>(PathRefusal::EscapesWorkspace),
    decreases parts.len(),
{
    if count == parts.len() {
        assert(parts.take(count) =~= parts);
        if parts.len() > 0 && normalized(parts.drop_last()) is Err {
            assert(parts.drop_last().take(count - 1) =~= parts.drop_last());
            lemma_escape_is_final(parts.drop_last(), count - 1);
        }
    } else {
        assert(parts.drop_last().take(count) =~= parts.take(count));
        lemma_escape_is_final(parts.drop_last(), count);
    }
}

/// Appends a relative path to a base directory.
pub fn append_path(base: &str, relative: &str) -> (path: String)
    ensures
        path@ == appended(base@, relative@),
{
    let chars = chars_of(base);
    let mut path = base.to_string();
    if chars.len() > 0 && chars[chars.len() - 1] != '/' {
        path.append("/");
    }
    path.append(relative);
    path
}

/// A path as seen from a base directory: an absolute one stands for itself.
pub open spec fn based(base: Seq<char>, path: Seq<char>) -> Seq<char> {
    if is_absolute(path) {
        path
    } else {
        appended(base, path)
    }
}

/// Joins a path to a base directory.
pub fn join_path(base: &str, path: &str) -> (place: String)
    ensures
        place@ == based(base@, path@),
{
    let chars = chars_of(path);
    if chars.len() > 0 && chars[0] == '/' {
        return path.to_string();
    }
    append_path(base, path)
}

/// Finds where a path that a model names lies, given the workspace directory.
pub fn resolve_path(workspace: &str, path: &str) -> (place: Result<String, PathRefusal>)
    ensures
        match place {
            Ok(place) => resolved(workspace@, path@) == Ok::<Seq<char>, PathRefusal>(place@),
            Err(refusal) => resolved(workspace@, path@) == Err::<Seq<char>, PathRefusal>(refusal),
        },
{
    match workspace_relative_path(path) {
        Err(refusal) => Err(refusal),
        Ok(parts) => match normalize_relative(parts) {
            Err(refusal) => Err(refusal),
            Ok(clean) => {
                let relative = join_texts(&clean, "/");
                Ok(append_path(workspace, relative.as_str()))
            },
        },
    }
}

/// A path without the separators and current directories at its end.
pub open spec fn without_tail(path: Seq<char>) -> Seq<char>
    decreases path.len(),
{
    if path.len() > 1 && path.last() == '/' {
        without_tail(path.drop_last())
    } else if path.len() > 1 && path.last() == '.' && path[path.len() - 2] == '/' {
        without_tail(path.drop_last())
    } else {
        path
    }
}

/// A path up to and with its last separator.
pub open spec fn directory_part(path: Seq<char>) -> Seq<char>
    decreases path.len(),
{
    if path.len() > 0 && path.last() != '/' {
        directory_part(path.drop_last())
    } else {
        path
    }
}

/// The directory that holds a path. The root and the empty path have none.
pub open spec fn parent(path: Seq<char>) -> Option<Seq<char>> {
    let core = without_tail(path);
    if core.len() == 0 || core == seq!['/'] {
        None
    } else {
        Some(without_tail(directory_part(core)))
    }
}

/// How many characters of the first `length` are left without separators and current directories
/// at the end.
fn tail_start(chars: &Vec<char>, length: usize) -> (kept: usize)
    requires
        length <= chars@.len(),
    ensures
        kept <= length,
        chars@.take(kept as int) == without_tail(chars@.take(length as int)),
{
    let mut kept: usize = length;
    while kept > 1 && (chars[kept - 1] == '/' || (chars[kept - 1] == '.' && chars[kept - 2] == '/'))
        invariant
            kept <= length <= chars@.len(),
            without_tail(chars@.take(kept as int)) == without_tail(chars@.take(length as int)),
        decreases kept,
    {
        assert(chars@.take(kept as int).drop_last() =~= chars@.take(kept - 1));
        kept -= 1;
    }
    kept
}

/// Finds the directory that holds a path.
pub fn parent_path(path: &str) -> (directory: Option<String>)
    ensures
        match directory {
            Some(directory) => parent(path@) == Some(directory@),
            None => parent(path@) is None,
        },
{
    let chars = chars_of(path);
    assert(chars@.take(chars.len() as int) =~= path@);
    let core: usize = tail_start(&chars, chars.len());
    let ghost core_text = without_tail(path@);
    assert(core_text == chars@.take(core as int));
    assert(seq!['/'].len() == 1 && seq!['/'][0] == '/');
    if core == 0 || (core == 1 && chars[0] == '/') {
        proof {
            if core == 1 {
                assert(core_text =~= seq!['/']);
            }
        }
        return None;
    }
    assert(core_text != seq!['/']) by {
        if core_text == seq!['/'] {
            assert(core == 1);
            assert(core_text[0] == chars@[0]);
        }
    }
    let mut end: usize = core;
    while end > 0 && chars[end - 1] != '/'
        invariant
            end <= core <= chars@.len(),
            core_text == chars@.take(core as int),
            directory_part(chars@.take(end as int)) == directory_part(core_text),
        decreases end,
    {
        assert(chars@.take(end as int).drop_last() =~= chars@.take(end - 1));
        end -= 1;
    }
    let kept: usize = tail_start(&chars, end);
    let directory = path.substring_char(0, kept);
    assert(directory@ =~= chars@.take(kept as int));
    Some(directory.to_string())
}

/// Whether a component names an entry of a directory and leads nowhere else.
pub open spec fn is_entry_name(part: Seq<char>) -> bool {
    is_component(part) && part != ".."@ && !part.contains('/')
}

/// No segment holds a separator.
proof fn lemma_segments_hold_no_separator(path: Seq<char>)
    ensures
        segments(path).len() > 0,
        forall|i: int| 0 <= i < segments(path).len() ==> !(#[trigger] segments(path)[i]).contains('/'),
    decreases path.len(),
{
    if path.len() > 0 {
        lemma_segments_hold_no_separator(path.drop_last());
        let before = segments(path.drop_last());
        assert(!before.last().contains('/'));
        if path.last() != '/' {
            let grown = before.last().push(path.last());
            assert(!grown.contains('/')) by {
                if grown.contains('/') {
                    let j = choose|j: int| 0 <= j < grown.len() && grown[j] == '/';
                    assert(before.last()[j] == '/');
                }
            }
        }
    }
}

/// Every component of a path names something and holds no separator.
pub proof fn lemma_components_are_segments(path: Seq<char>)
    ensures
        forall|i: int|
            0 <= i < components(path).len() ==> is_component(#[trigger] components(path)[i])
                && !components(path)[i].contains('/'),
{
    let keep = |segment: Seq<char>| is_component(segment);
    lemma_segments_hold_no_separator(path);
    assert forall|i: int| 0 <= i < components(path).len() implies is_component(
        #[trigger] components(path)[i],
    ) && !components(path)[i].contains('/') by {
        segments(path).lemma_filter_pred(keep, i);
        segments(path).lemma_filter_contains_rev(keep, components(path)[i]);
        let j = choose|j: int| 0 <= j < segments(path).len() && segments(path)[j] == components(path)[i];
        assert(!segments(path)[j].contains('/'));
    }
}

/// Normalization leaves entry names only.
proof fn lemma_normalized_holds_entry_names(parts: Seq<Seq<char>>)
    requires
        normalized(parts) is Ok,
        forall|i: int|
            0 <= i < parts.len() ==> is_component(#[trigger] parts[i]) && !parts[i].contains('/'),
    ensures
        forall|i: int|
            0 <= i < normalized(parts)->Ok_0.len() ==> is_entry_name(
                #[trigger] normalized(parts)->Ok_0[i],
            ),
    decreases parts.len(),
{
    if parts.len() > 0 {
        assert forall|i: int| 0 <= i < parts.drop_last().len() implies is_component(
            #[trigger] parts.drop_last()[i],
        ) && !parts.drop_last()[i].contains('/') by {
            assert(is_component(parts[i]));
        }
        lemma_normalized_holds_entry_names(parts.drop_last());
        assert(is_component(parts[parts.len() - 1]));
    }
}

/// A path that is accepted lies in the workspace: it is the workspace directory followed by
/// entry names, none of which is a parent directory or holds a separator.
pub proof fn lemma_resolved_stays_inside(workspace: Seq<char>, path: Seq<char>)
    requires
        resolved(workspace, path) is Ok,
    ensures
        workspace.is_prefix_of(resolved(workspace, path)->Ok_0),
        workspace_components(path) is Ok,
        resolved(workspace, path)->Ok_0 == appended(
            workspace,
            text::joined(workspace_components(path)->Ok_0, "/"@),
        ),
        forall|i: int|
            0 <= i < workspace_components(path)->Ok_0.len() ==> is_entry_name(
                #[trigger] workspace_components(path)->Ok_0[i],
            ),
{
    lemma_components_are_segments(path);
    let parts = workspace_relative(path)->Ok_0;
    assert forall|i: int| 0 <= i < parts.len() implies is_component(#[trigger] parts[i])
        && !parts[i].contains('/') by {
        if is_absolute(path) {
            assert(parts[i] == components(path)[i + 1]);
        }
    }
    lemma_normalized_holds_entry_names(parts);
}

/// An absolute path outside `/workspace` is refused.
pub proof fn lemma_foreign_absolute_path_is_refused(workspace: Seq<char>, path: Seq<char>)
    requires
        is_absolute(path),
        components(path).len() == 0 || components(path)[0] != "workspace"@,
    ensures
        resolved(workspace, path) == Err::<Seq<char>, PathRefusal>(PathRefusal::OutsideWorkspace),
{
}

/// A separator between two paths splits their segments.
proof fn lemma_segments_split(left: Seq<char>, right: Seq<char>)
    ensures
        segments(left + "/"@ + right) == segments(left) + segments(right),
    decreases right.len(),
{
    reveal_strlit("/");
    let whole = left + "/"@ + right;
    lemma_segments_hold_no_separator(left);
    lemma_segments_hold_no_separator(right);
    if right.len() == 0 {
        assert(whole =~= left.push('/'));
        assert(whole.drop_last() =~= left);
        assert(segments(whole) =~= segments(left) + segments(right));
    } else {
        assert(whole.drop_last() =~= left + "/"@ + right.drop_last());
        lemma_segments_split(left, right.drop_last());
        lemma_segments_hold_no_separator(right.drop_last());
        assert(segments(whole) =~= segments(left) + segments(right));
    }
}

/// A separator between two paths splits their components.
pub proof fn lemma_components_split(left: Seq<char>, right: Seq<char>)
    ensures
        components(left + "/"@ + right) == components(left) + components(right),
{
    lemma_segments_split(left, right);
    Seq::filter_distributes_over_add(
        segments(left),
        segments(right),
        |segment: Seq<char>| is_component(segment),
    );
}

/// A component is its own only component.
pub proof fn lemma_component_stands_alone(part: Seq<char>)
    requires
        is_component(part),
        !part.contains('/'),
    ensures
        components(part) == seq![part],
{
    lemma_plain_segment(part);
    let keep = |segment: Seq<char>| is_component(segment);
    Seq::<Seq<char>>::empty().lemma_filter_push(part, keep);
    reveal(Seq::filter);
    assert(Seq::<Seq<char>>::empty().push(part) =~= seq![part]);
    assert(Seq::<Seq<char>>::empty().filter(keep) =~= Seq::<Seq<char>>::empty());
}

/// A text without separators is one segment.
proof fn lemma_plain_segment(part: Seq<char>)
    requires
        !part.contains('/'),
    ensures
        segments(part) == seq![part],
    decreases part.len(),
{
    if part.len() > 0 {
        assert(part[part.len() - 1] != '/') by {
            if part[part.len() - 1] == '/' {
                assert(part.contains('/'));
            }
        }
        assert(!part.drop_last().contains('/')) by {
            if part.drop_last().contains('/') {
                let j = choose|j: int| 0 <= j < part.drop_last().len() && part.drop_last()[j] == '/';
                assert(part[j] == '/');
            }
        }
        lemma_plain_segment(part.drop_last());
        assert(part.drop_last().push(part.last()) =~= part);
        assert(segments(part) =~= seq![part]);
    } else {
        assert(part =~= Seq::<char>::empty());
    }
}

/// The empty path has no components.
pub proof fn lemma_empty_path_has_no_components()
    ensures
        components(Seq::<char>::empty()) == Seq::<Seq<char>>::empty(),
{
    let keep = |segment: Seq<char>| is_component(segment);
    Seq::<Seq<char>>::empty().lemma_filter_push(Seq::<char>::empty(), keep);
    reveal(Seq::filter);
    assert(Seq::<Seq<char>>::empty().push(Seq::<char>::empty()) =~= seq![Seq::<char>::empty()]);
    assert(components(Seq::<char>::empty()) =~= Seq::<Seq<char>>::empty());
}

/// The path `/workspace/p` means what `p` means, for every relative path `p`.
pub proof fn lemma_workspace_prefix_is_optional(workspace: Seq<char>, path: Seq<char>)
    requires
        !is_absolute(path),
    ensures
        resolved(workspace, "/workspace/"@ + path) == resolved(workspace, path),
{
    reveal_strlit("/workspace/");
    reveal_strlit("workspace");
    reveal_strlit("/");
    reveal_strlit(".");
    let name = "workspace"@;
    let root = Seq::<char>::empty();
    let whole = "/workspace/"@ + path;
    assert(whole =~= (root + "/"@ + name) + "/"@ + path);
    lemma_components_split(root + "/"@ + name, path);
    lemma_components_split(root, name);
    assert(!name.contains('/'));
    assert(name.len() != "."@.len());
    lemma_component_stands_alone(name);
    lemma_empty_path_has_no_components();
    assert(components(whole) =~= seq![name] + components(path));
    assert(components(whole).drop_first() =~= components(path));
}

/// Entry names joined by separators have themselves as components.
pub proof fn lemma_joined_components(parts: Seq<Seq<char>>)
    requires
        forall|i: int| 0 <= i < parts.len() ==> is_entry_name(#[trigger] parts[i]),
    ensures
        components(text::joined(parts, "/"@)) == parts,
        !is_absolute(text::joined(parts, "/"@)),
    decreases parts.len(),
{
    let whole = text::joined(parts, "/"@);
    if parts.len() == 0 {
        lemma_empty_path_has_no_components();
        assert(components(whole) =~= parts);
    } else if parts.len() == 1 {
        assert(is_entry_name(parts[0]));
        lemma_component_stands_alone(parts[0]);
        assert(components(whole) =~= parts);
        assert(!is_absolute(parts[0])) by {
            if is_absolute(parts[0]) {
                assert(parts[0].contains('/'));
            }
        }
    } else {
        let front = parts.drop_last();
        assert forall|i: int| 0 <= i < front.len() implies is_entry_name(#[trigger] front[i]) by {
            assert(is_entry_name(parts[i]));
        }
        lemma_joined_components(front);
        assert(is_entry_name(parts[parts.len() - 1]));
        lemma_components_split(text::joined(front, "/"@), parts.last());
        lemma_component_stands_alone(parts.last());
        assert(components(whole) =~= parts);
        let start = text::joined(front, "/"@);
        assert(start.len() > 0) by {
            if start.len() == 0 {
                assert(start =~= Seq::<char>::empty());
                lemma_empty_path_has_no_components();
            }
        }
        assert(whole[0] == start[0]);
    }
}

/// Entry names are already normal.
pub proof fn lemma_entry_names_are_normal(parts: Seq<Seq<char>>)
    requires
        forall|i: int| 0 <= i < parts.len() ==> is_entry_name(#[trigger] parts[i]),
    ensures
        normalized(parts) == Ok::<Seq<Seq<char>>, PathRefusal>(parts),
    decreases parts.len(),
{
    if parts.len() > 0 {
        let front = parts.drop_last();
        assert forall|i: int| 0 <= i < front.len() implies is_entry_name(#[trigger] front[i]) by {
            assert(is_entry_name(parts[i]));
        }
        lemma_entry_names_are_normal(front);
        assert(is_entry_name(parts[parts.len() - 1]));
        assert(front.push(parts.last()) =~= parts);
    } else {
        assert(parts =~= Seq::<Seq<char>>::empty());
    }
}

/// Normalizing is idempotent: the normalized path of an accepted path resolves to the same place.
pub proof fn lemma_normalizing_is_idempotent(workspace: Seq<char>, path: Seq<char>)
    requires
        workspace_components(path) is Ok,
    ensures
        resolved(
            workspace,
            text::joined(workspace_components(path)->Ok_0, "/"@),
        ) == resolved(workspace, path),
{
    let parts = workspace_components(path)->Ok_0;
    lemma_resolved_stays_inside(workspace, path);
    lemma_joined_components(parts);
    lemma_entry_names_are_normal(parts);
}

/// The directory part of a path that ends in a name is what comes before the name.
pub proof fn lemma_directory_part_ends_before_the_name(before: Seq<char>, name: Seq<char>)
    requires
        before.len() == 0 || before.last() == '/',
        !name.contains('/'),
    ensures
        directory_part(before + name) == before,
    decreases name.len(),
{
    if name.len() == 0 {
        assert(before + name =~= before);
    } else {
        let shorter = name.drop_last();
        assert(name[name.len() - 1] != '/') by {
            if name[name.len() - 1] == '/' {
                assert(name.contains('/'));
            }
        }
        assert(!shorter.contains('/')) by {
            if shorter.contains('/') {
                let j = choose|j: int| 0 <= j < shorter.len() && shorter[j] == '/';
                assert(name[j] == '/');
            }
        }
        assert((before + name).drop_last() =~= before + shorter);
        lemma_directory_part_ends_before_the_name(before, shorter);
    }
}

/// A path that ends in an entry name has nothing at its end to leave out.
pub proof fn lemma_entry_name_is_no_tail(before: Seq<char>, name: Seq<char>)
    requires
        is_entry_name(name),
    ensures
        without_tail(before + name) == before + name,
{
    reveal_strlit(".");
    let path = before + name;
    assert(name[name.len() - 1] != '/') by {
        if name[name.len() - 1] == '/' {
            assert(name.contains('/'));
        }
    }
    if name.len() > 1 {
        assert(path[path.len() - 2] == name[name.len() - 2]);
        assert(name[name.len() - 2] != '/') by {
            if name[name.len() - 2] == '/' {
                assert(name.contains('/'));
            }
        }
    } else if path.last() == '.' {
        assert(name =~= "."@);
    }
}

/// The directory of an accepted path lies in the workspace too: it is where the path without its
/// last name lies. Only the workspace itself has its directory elsewhere.
pub proof fn lemma_parent_stays_inside(workspace: Seq<char>, path: Seq<char>)
    requires
        workspace_components(path) is Ok,
        workspace_components(path)->Ok_0.len() > 0,
    ensures
        resolved(workspace, path) is Ok,
        parent(resolved(workspace, path)->Ok_0) == Some(
            without_tail(
                appended(workspace, text::joined(workspace_components(path)->Ok_0.drop_last(), "/"@)),
            ),
        ),
{
    reveal_strlit("/");
    let parts = workspace_components(path)->Ok_0;
    let front = parts.drop_last();
    let name = parts.last();
    let place = resolved(workspace, path)->Ok_0;
    let inside = appended(workspace, text::joined(front, "/"@));
    lemma_resolved_stays_inside(workspace, path);
    assert(is_entry_name(parts[parts.len() - 1]));
    let before = if front.len() == 0 {
        inside
    } else {
        inside.push('/')
    };
    if front.len() > 0 {
        assert forall|i: int| 0 <= i < front.len() implies is_entry_name(#[trigger] front[i]) by {
            assert(is_entry_name(parts[i]));
        }
        lemma_joined_components(front);
        let start = text::joined(front, "/"@);
        assert(start.len() > 0) by {
            if start.len() == 0 {
                assert(start =~= Seq::<char>::empty());
                lemma_empty_path_has_no_components();
            }
        }
        assert(before.drop_last() =~= inside);
        assert(without_tail(before) == without_tail(inside));
    } else {
        assert(text::joined(front, "/"@) =~= Seq::<char>::empty());
    }
    assert(place =~= before + name);
    lemma_entry_name_is_no_tail(before, name);
    lemma_directory_part_ends_before_the_name(before, name);
    assert(place != seq!['/']) by {
        if place == seq!['/'] {
            assert(place.last() == '/');
            assert(name[name.len() - 1] == '/');
            assert(name.contains('/'));
        }
    }
}

} // verus!
