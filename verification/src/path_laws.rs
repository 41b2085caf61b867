//! Where paths lead, step by step.
//!
//! A path grows by a separator and a name, or by a separator and a parent directory; what each
//! does to the place that the path names is said here for every path and every workspace.

use crate::paths::{self, PathRefusal};
use crate::text;
use vstd::prelude::*;
use vstd::string::*;

verus! {

/// A path that consists of names leads to these names below the workspace, one separator between
/// any two.
pub proof fn lemma_names_lead_below_the_workspace(workspace: Seq<char>, names: Seq<Seq<char>>)
    requires
        workspace.len() > 0,
        workspace.last() != '/',
        forall|i: int| 0 <= i < names.len() ==> paths::is_entry_name(#[trigger] names[i]),
    ensures
        paths::resolved(workspace, text::joined(names, "/"@)) == Ok::<Seq<char>, PathRefusal>(
            workspace + "/"@ + text::joined(names, "/"@),
        ),
{
    paths::lemma_joined_components(names);
    paths::lemma_entry_names_are_normal(names);
}

/// The empty path leads to the workspace itself.
pub proof fn lemma_empty_path_is_the_workspace()
    ensures
        paths::workspace_components(Seq::empty()) == Ok::<Seq<Seq<char>>, PathRefusal>(Seq::empty()),
{
    paths::lemma_empty_path_has_no_components();
}

/// Where an accepted path goes on by `part`, the components behind it go on by it.
proof fn lemma_one_more_component(path: Seq<char>, part: Seq<char>)
    requires
        path.len() > 0,
        paths::workspace_components(path) is Ok,
        paths::is_component(part),
        !part.contains('/'),
    ensures
        paths::workspace_relative(path) is Ok,
        paths::workspace_relative(path + "/"@ + part) == Ok::<Seq<Seq<char>>, PathRefusal>(
            paths::workspace_relative(path)->Ok_0.push(part),
        ),
{
    reveal_strlit("/");
    let longer = path + "/"@ + part;
    paths::lemma_components_split(path, part);
    paths::lemma_component_stands_alone(part);
    assert(paths::components(longer) =~= paths::components(path).push(part));
    assert(longer[0] == path[0]);
    if paths::is_absolute(path) {
        assert(paths::components(longer).drop_first() =~= paths::components(
            path,
        ).drop_first().push(part));
    }
}

/// A name at the end of a path leads to the entry of that name in the place that the path names.
pub proof fn lemma_name_leads_one_down(path: Seq<char>, name: Seq<char>)
    requires
        path.len() > 0,
        paths::workspace_components(path) is Ok,
        name.len() > 0,
        name != "."@,
        name != ".."@,
        !name.contains('/'),
    ensures
        paths::workspace_components(path + "/"@ + name) == Ok::<Seq<Seq<char>>, PathRefusal>(
            paths::workspace_components(path)->Ok_0.push(name),
        ),
{
    lemma_one_more_component(path, name);
    let parts = paths::workspace_relative(path)->Ok_0;
    assert(parts.push(name).drop_last() =~= parts);
}

/// A parent directory at the end of a path leads one up, and is refused where the path names the
/// workspace itself.
pub proof fn lemma_parent_directory_leads_one_up(path: Seq<char>)
    requires
        path.len() > 0,
        paths::workspace_components(path) is Ok,
    ensures
        ({
            let place = paths::workspace_components(path)->Ok_0;
            let above = paths::workspace_components(path + "/.."@);
            &&& place.len() > 0 ==> above == Ok::<Seq<Seq<char>>, PathRefusal>(place.drop_last())
            &&& place.len() == 0 ==> above == Err::<Seq<Seq<char>>, PathRefusal>(
                PathRefusal::EscapesWorkspace,
            )
        }),
{
    reveal_strlit("/..");
    reveal_strlit("/");
    reveal_strlit("..");
    reveal_strlit(".");
    assert(path + "/.."@ =~= path + "/"@ + ".."@);
    assert(".."@.len() != "."@.len());
    assert(!".."@.contains('/'));
    lemma_one_more_component(path, ".."@);
    let parts = paths::workspace_relative(path)->Ok_0;
    assert(parts.push(".."@).drop_last() =~= parts);
}

/// A name and a parent directory after it lead back to where the path was.
pub proof fn lemma_down_and_up_leads_back(workspace: Seq<char>, path: Seq<char>, name: Seq<char>)
    requires
        path.len() > 0,
        paths::workspace_components(path) is Ok,
        paths::is_entry_name(name),
    ensures
        paths::resolved(workspace, path + "/"@ + name + "/.."@) == paths::resolved(workspace, path),
{
    lemma_name_leads_one_down(path, name);
    lemma_parent_directory_leads_one_up(path + "/"@ + name);
    let place = paths::workspace_components(path)->Ok_0;
    assert(place.push(name).drop_last() =~= place);
}

/// A separator, or a separator and the current directory, at the end of a path change nothing.
pub proof fn lemma_current_directory_leads_nowhere(workspace: Seq<char>, path: Seq<char>)
    requires
        path.len() > 0,
    ensures
        paths::resolved(workspace, path + "/"@) == paths::resolved(workspace, path),
        paths::resolved(workspace, path + "/."@) == paths::resolved(workspace, path),
{
    reveal_strlit("/");
    reveal_strlit(".");
    reveal_strlit("/.");
    let empty = Seq::<char>::empty();
    assert(path + "/"@ =~= path + "/"@ + empty);
    paths::lemma_components_split(path, empty);
    paths::lemma_empty_path_has_no_components();
    assert(paths::components(path) + Seq::<Seq<char>>::empty() =~= paths::components(path));
    assert((path + "/"@)[0] == path[0]);
    assert(path + "/."@ =~= path + "/"@ + "."@);
    paths::lemma_components_split(path, "."@);
    paths::lemma_components_are_segments("."@);
    lemma_dot_is_no_component();
    assert((path + "/."@)[0] == path[0]);
}

/// The current directory is no component.
proof fn lemma_dot_is_no_component()
    ensures
        paths::components("."@) == Seq::<Seq<char>>::empty(),
{
    reveal_strlit(".");
    let dot = "."@;
    let keep = |segment: Seq<char>| paths::is_component(segment);
    assert(dot.drop_last() =~= Seq::empty());
    assert(dot =~= Seq::<char>::empty().push('.'));
    reveal_with_fuel(paths::segments, 3);
    let start = seq![Seq::<char>::empty()];
    assert(paths::segments(dot) =~= seq![dot]);
    Seq::<Seq<char>>::empty().lemma_filter_push(dot, keep);
    reveal(Seq::filter);
    assert(Seq::<Seq<char>>::empty().push(dot) =~= seq![dot]);
    assert(Seq::<Seq<char>>::empty().filter(keep) =~= Seq::empty());
}

/// A path that has once left the workspace is refused, wherever it goes on to.
pub proof fn lemma_leaving_is_refused_for_good(path: Seq<char>, more: Seq<char>)
    requires
        path.len() > 0,
        paths::workspace_components(path) == Err::<Seq<Seq<char>>, PathRefusal>(
            PathRefusal::EscapesWorkspace,
        ),
    ensures
        paths::workspace_components(path + "/"@ + more) == Err::<Seq<Seq<char>>, PathRefusal>(
            PathRefusal::EscapesWorkspace,
        ),
{
    reveal_strlit("/");
    let longer = path + "/"@ + more;
    paths::lemma_components_split(path, more);
    assert(longer[0] == path[0]);
    let parts = paths::workspace_relative(path)->Ok_0;
    let all = paths::workspace_relative(longer)->Ok_0;
    if paths::is_absolute(path) {
        assert(all =~= parts + paths::components(more));
    }
    assert(all.take(parts.len() as int) =~= parts);
    paths::lemma_escape_is_final(all, parts.len() as int);
}

/// An absolute path is refused unless the first name in it is that of the workspace, whatever
/// comes after the first name.
pub proof fn lemma_other_roots_are_refused(workspace: Seq<char>, name: Seq<char>, more: Seq<char>)
    requires
        name.len() > 0,
        name != "."@,
        name != "workspace"@,
        !name.contains('/'),
    ensures
        paths::resolved(workspace, "/"@ + name + "/"@ + more) == Err::<Seq<char>, PathRefusal>(
            PathRefusal::OutsideWorkspace,
        ),
        paths::resolved(workspace, "/"@ + name) == Err::<Seq<char>, PathRefusal>(
            PathRefusal::OutsideWorkspace,
        ),
{
    reveal_strlit("/");
    let empty = Seq::<char>::empty();
    let start = "/"@ + name;
    assert(start =~= empty + "/"@ + name);
    paths::lemma_components_split(empty, name);
    paths::lemma_empty_path_has_no_components();
    paths::lemma_component_stands_alone(name);
    assert(paths::components(start) =~= seq![name]);
    paths::lemma_components_split(start, more);
    let whole = "/"@ + name + "/"@ + more;
    assert(whole =~= start + "/"@ + more);
    assert(paths::components(whole)[0] == name);
    assert(whole[0] == '/' && start[0] == '/');
}

/// Two paths are joined by one separator, and by none where the first is empty or ends in one.
pub proof fn lemma_one_separator_joins(base: Seq<char>, path: Seq<char>)
    ensures
        base.len() > 0 && base.last() != '/' ==> paths::appended(base, path) == base.push('/')
            + path,
        base.len() == 0 || base.last() == '/' ==> paths::appended(base, path) == base + path,
        path.len() > 0 && path[0] == '/' ==> paths::based(base, path) == path,
        path.len() == 0 || path[0] != '/' ==> paths::based(base, path) == paths::appended(
            base,
            path,
        ),
{
    reveal_strlit("/");
    assert(base + "/"@ + path =~= base.push('/') + path);
}

/// The place of an accepted path is the workspace and below it the names that are left.
pub proof fn lemma_places_are_names_below_the_workspace(workspace: Seq<char>, path: Seq<char>)
    ensures
        match paths::workspace_components(path) {
            Ok(names) => paths::resolved(workspace, path) == Ok::<Seq<char>, PathRefusal>(
                paths::appended(workspace, text::joined(names, "/"@)),
            ),
            Err(refusal) => paths::resolved(workspace, path) == Err::<Seq<char>, PathRefusal>(
                refusal,
            ),
        },
{
}

/// The directory of an entry is what its path has before the name.
pub proof fn lemma_directory_is_what_comes_before_the_name(directory: Seq<char>, name: Seq<char>)
    requires
        paths::is_entry_name(name),
        directory.len() > 0,
        directory.last() != '/',
        directory.last() != '.',
    ensures
        paths::parent(directory + "/"@ + name) == Some(directory),
        paths::parent("/"@ + name) == Some("/"@),
        paths::parent(name) == Some(Seq::<char>::empty()),
        paths::parent("/"@) is None,
        paths::parent(Seq::empty()) is None,
{
    reveal_strlit("/");
    reveal_with_fuel(paths::without_tail, 3);
    let before = directory + "/"@;
    let empty = Seq::<char>::empty();
    paths::lemma_entry_name_is_no_tail(before, name);
    paths::lemma_directory_part_ends_before_the_name(before, name);
    assert(before.drop_last() =~= directory);
    assert(name[name.len() - 1] != '/') by {
        if name[name.len() - 1] == '/' {
            assert(name.contains('/'));
        }
    }
    assert((before + name).last() == name.last());
    assert((before + name) != seq!['/']) by {
        assert(seq!['/'].last() == '/');
    }
    paths::lemma_entry_name_is_no_tail("/"@, name);
    paths::lemma_directory_part_ends_before_the_name("/"@, name);
    assert(("/"@ + name).last() == name.last());
    assert(("/"@ + name) != seq!['/']) by {
        assert(seq!['/'].last() == '/');
    }
    paths::lemma_entry_name_is_no_tail(empty, name);
    paths::lemma_directory_part_ends_before_the_name(empty, name);
    assert(empty + name =~= name);
    assert(name != seq!['/']) by {
        assert(seq!['/'].last() == '/');
    }
    assert("/"@ =~= seq!['/']);
}

} // verus!
