//! The rules of the file and shell tools: paths, edits, limits and texts.

use acty::edits::{replace_exactly_one, EditRefusal};
use acty::output::truncate_text;
use acty::paths::{
    append_path, join_path, normalize_relative, parent_path, path_components, resolve_path,
    workspace_relative_path, PathRefusal,
};
use acty::text::{
    chars_of, decimal_text, join_texts, prefixed, same_text, signed_decimal_text, trim_text,
};

fn owned(parts: &[&str]) -> Vec<String> {
    parts.iter().map(|part| part.to_string()).collect()
}

#[test]
fn path_components_drop_repeated_separators_and_current_directories() {
    assert_eq!(path_components("a//b/./c/"), owned(&["a", "b", "c"]));
    assert_eq!(path_components("./x"), owned(&["x"]));
    assert_eq!(path_components(""), owned(&[]));
    assert_eq!(path_components("/"), owned(&[]));
    assert_eq!(path_components("../.."), owned(&["..", ".."]));
    assert_eq!(path_components("...hidden"), owned(&["...hidden"]));
}

#[test]
fn relative_paths_are_workspace_relative() {
    assert_eq!(workspace_relative_path("src/main.rs"), Ok(owned(&["src", "main.rs"])));
}

#[test]
fn absolute_paths_must_name_the_workspace() {
    assert_eq!(workspace_relative_path("/workspace/a/b"), Ok(owned(&["a", "b"])));
    assert_eq!(workspace_relative_path("//workspace"), Ok(owned(&[])));
    assert_eq!(workspace_relative_path("/workspaces/a"), Err(PathRefusal::OutsideWorkspace));
    assert_eq!(workspace_relative_path("/etc/passwd"), Err(PathRefusal::OutsideWorkspace));
    assert_eq!(workspace_relative_path("/"), Err(PathRefusal::OutsideWorkspace));
    assert_eq!(workspace_relative_path("/../workspace"), Err(PathRefusal::OutsideWorkspace));
}

#[test]
fn parent_directories_remove_the_component_before_them() {
    assert_eq!(normalize_relative(owned(&["a", "..", "b"])), Ok(owned(&["b"])));
    assert_eq!(normalize_relative(owned(&["a", "b", "..", ".."])), Ok(owned(&[])));
}

#[test]
fn normalized_paths_cannot_escape() {
    assert_eq!(normalize_relative(owned(&[".."])), Err(PathRefusal::EscapesWorkspace));
    assert_eq!(
        normalize_relative(owned(&["a", "..", "..", "b"])),
        Err(PathRefusal::EscapesWorkspace)
    );
}

#[test]
fn normalizing_twice_changes_nothing() {
    let once = normalize_relative(owned(&["a", "b", "..", "c"])).unwrap();
    assert_eq!(once, owned(&["a", "c"]));
    assert_eq!(normalize_relative(once.clone()), Ok(once));
}

#[test]
fn resolved_paths_lie_under_the_workspace() {
    assert_eq!(resolve_path("/home/me/ws", "src/./lib.rs"), Ok("/home/me/ws/src/lib.rs".to_string()));
    assert_eq!(resolve_path("/ws/", "a/../b"), Ok("/ws/b".to_string()));
    assert_eq!(resolve_path("/ws", "../secret"), Err(PathRefusal::EscapesWorkspace));
    assert_eq!(resolve_path("/ws", "/tmp/x"), Err(PathRefusal::OutsideWorkspace));
}

#[test]
fn workspace_prefix_is_optional() {
    assert_eq!(resolve_path("/ws", "/workspace/a/b"), resolve_path("/ws", "a/b"));
    assert_eq!(resolve_path("/ws", "/workspace/../b"), resolve_path("/ws", "../b"));
}

#[test]
fn empty_path_resolves_to_the_workspace_itself() {
    assert_eq!(resolve_path("/ws", ""), Ok("/ws/".to_string()));
    assert_eq!(resolve_path("/ws", "."), Ok("/ws/".to_string()));
    assert_eq!(resolve_path("/ws", "/workspace"), Ok("/ws/".to_string()));
}

#[test]
fn appended_paths_have_one_separator() {
    assert_eq!(append_path("a", "b"), "a/b");
    assert_eq!(append_path("a/", "b"), "a/b");
    assert_eq!(append_path("", "b"), "b");
}

#[test]
fn joined_absolute_paths_stand_for_themselves() {
    assert_eq!(join_path("/home/me", "project"), "/home/me/project");
    assert_eq!(join_path("/home/me", "/srv/project"), "/srv/project");
    assert_eq!(join_path("/home/me", "."), "/home/me/.");
    assert_eq!(join_path("/home/me", ""), "/home/me/");
}

#[test]
fn parents_agree_with_the_standard_library() {
    for path in [
        "/", "", "a", "a/b", "/a", "/a/b/", "/a//b", "a/./b", "a/.", "./a", ".", "..", "/..",
        "/a/../b", "//", "/.", "a//", "/ws/dir/file.txt",
    ] {
        let expected = std::path::Path::new(path).parent().map(|p| p.to_str().unwrap().to_string());
        assert_eq!(parent_path(path), expected, "{path:?}");
    }
}

#[test]
fn resolution_agrees_with_the_standard_library() {
    for raw in ["a", "./a//b/", "a/./b", "/workspace/x", "/workspace//x/", "/./workspace/x"] {
        let path = std::path::Path::new(raw);
        let relative = path.strip_prefix("/workspace").unwrap_or(path);
        let clean: std::path::PathBuf = relative
            .components()
            .filter(|component| matches!(component, std::path::Component::Normal(_)))
            .collect();
        let expected = std::path::Path::new("/ws").join(clean);
        assert_eq!(resolve_path("/ws", raw), Ok(expected.to_str().unwrap().to_string()), "{raw:?}");
    }
}

#[test]
fn edit_replaces_the_only_match() {
    assert_eq!(
        replace_exactly_one("fn main() {}\n", "main", "start"),
        Ok("fn start() {}\n".to_string())
    );
    assert_eq!(replace_exactly_one("äöü", "ö", "o"), Ok("äoü".to_string()));
    assert_eq!(replace_exactly_one("abc", "abc", ""), Ok(String::new()));
}

fn refusal(text: &str, old: &str, new: &str) -> EditRefusal {
    match replace_exactly_one(text, old, new) {
        Ok(edited) => panic!("edited: {edited}"),
        Err(refusal) => refusal,
    }
}

#[test]
fn edit_refuses_absent_text() {
    assert!(matches!(refusal("abc", "x", "y"), EditRefusal::NotFound));
    assert!(matches!(refusal("ab", "abc", "y"), EditRefusal::NotFound));
}

#[test]
fn edit_refuses_ambiguous_text() {
    assert!(matches!(refusal("a-a-a", "a", "b"), EditRefusal::Ambiguous { matches: 3 }));
}

#[test]
fn edit_refuses_overlapping_matches() {
    assert!(matches!(refusal("aaa", "aa", "b"), EditRefusal::Ambiguous { matches: 2 }));
    assert!(matches!(refusal("ababa", "aba", "x"), EditRefusal::Ambiguous { matches: 2 }));
    assert!(matches!(refusal("aaaa", "aaa", "x"), EditRefusal::Ambiguous { matches: 2 }));
    assert!(matches!(refusal("aaaa", "aa", "b"), EditRefusal::Ambiguous { matches: 2 }));
    assert!(matches!(refusal("aaaaa", "aa", "b"), EditRefusal::Ambiguous { matches: 2 }));
    assert_eq!(replace_exactly_one("aa", "aa", "b"), Ok("b".to_string()));
}

#[test]
fn empty_old_text_matches_between_characters() {
    assert!(matches!(refusal("ab", "", "x"), EditRefusal::Ambiguous { matches: 3 }));
    assert_eq!(replace_exactly_one("", "", "new"), Ok("new".to_string()));
}

#[test]
fn putting_the_old_text_back_restores_the_text() {
    let text = "let a = 1;\nlet b = 2;\n";
    let edited = replace_exactly_one(text, "b = 2", "b = 3").unwrap();
    assert_eq!(edited, "let a = 1;\nlet b = 3;\n");
    assert_eq!(replace_exactly_one(&edited, "b = 3", "b = 2"), Ok(text.to_string()));
}

#[test]
fn edits_without_overlaps_agree_with_the_standard_library() {
    for (text, old) in [("aabaa", "aa"), ("xyx", "x"), ("hello", "l"), ("", ""), ("ü", ""), ("ü", "ü")] {
        let matches = text.matches(old).count();
        match replace_exactly_one(text, old, "<>") {
            Ok(edited) => {
                assert_eq!(matches, 1);
                assert_eq!(edited, text.replacen(old, "<>", 1));
            }
            Err(EditRefusal::NotFound) => assert_eq!(matches, 0),
            Err(EditRefusal::Ambiguous { matches: counted }) => assert_eq!(matches as u128, counted),
        }
    }
}

#[test]
fn short_text_is_shown_whole() {
    assert_eq!(truncate_text("hello".to_string(), 5), "hello");
    assert_eq!(truncate_text(String::new(), 0), "");
}

#[test]
fn long_text_is_cut_and_marked() {
    assert_eq!(truncate_text("hello".to_string(), 4), "hell\n[truncated]");
    assert_eq!(truncate_text("hello".to_string(), 0), "\n[truncated]");
}

#[test]
fn cut_never_splits_a_character() {
    assert_eq!(truncate_text("aé".to_string(), 2), "a\n[truncated]");
    assert_eq!(truncate_text("日本".to_string(), 5), "日\n[truncated]");
    assert_eq!(truncate_text("日本".to_string(), 2), "\n[truncated]");
    assert_eq!(truncate_text("日本".to_string(), 6), "日本");
}

#[test]
fn truncated_text_stays_within_the_limit_and_the_mark() {
    let text = "añ日😀".repeat(5);
    for limit in 0..=text.len() {
        let shown = truncate_text(text.clone(), limit);
        if limit == text.len() {
            assert_eq!(shown, text);
        } else {
            assert!(shown.len() <= limit + "\n[truncated]".len());
            let kept = shown.strip_suffix("\n[truncated]").unwrap();
            assert!(text.starts_with(kept));
            let next = text[kept.len()..].chars().next().unwrap();
            assert!(kept.len() + next.len_utf8() > limit);
        }
    }
}

#[test]
fn numbers_are_written_in_decimal() {
    assert_eq!(decimal_text(0), "0");
    assert_eq!(decimal_text(7), "7");
    assert_eq!(decimal_text(1203), "1203");
    assert_eq!(decimal_text(u128::MAX), u128::MAX.to_string());
    assert_eq!(signed_decimal_text(-1), "-1");
    assert_eq!(signed_decimal_text(0), "0");
    assert_eq!(signed_decimal_text(127), "127");
    assert_eq!(signed_decimal_text(i32::MIN), "-2147483648");
    assert_eq!(signed_decimal_text(i32::MAX), "2147483647");
}

#[test]
fn texts_are_joined_with_a_separator() {
    assert_eq!(join_texts(&owned(&[]), ": "), "");
    assert_eq!(join_texts(&owned(&["a"]), ": "), "a");
    assert_eq!(join_texts(&owned(&["a", "", "c"]), ": "), "a: : c");
}

#[test]
fn trimming_agrees_with_the_standard_library() {
    let spaces = [
        '\t', '\n', '\u{b}', '\u{c}', '\r', ' ', '\u{85}', '\u{a0}', '\u{1680}', '\u{2000}',
        '\u{200a}', '\u{2028}', '\u{2029}', '\u{202f}', '\u{205f}', '\u{3000}',
    ];
    for space in spaces {
        let line = format!("{space}a{space}b{space}");
        assert_eq!(trim_text(&line), line.trim(), "{space:?}");
        assert_eq!(trim_text(&line), format!("a{space}b"));
    }
    for other in ['\u{200b}', '\u{180e}', '\u{feff}', 'x', '\u{1c}', '\u{8}'] {
        let line = format!("{other}a");
        assert_eq!(trim_text(&line), line.trim(), "{other:?}");
    }
    assert_eq!(trim_text(" \t "), "");
}

#[test]
fn every_white_space_character_is_known() {
    for code in 0..=0x10ffffu32 {
        if let Some(c) = char::from_u32(code) {
            let line = c.to_string();
            assert_eq!(trim_text(&line).is_empty(), c.is_whitespace(), "{c:?}");
        }
    }
}

#[test]
fn small_text_helpers() {
    assert_eq!(chars_of("aß"), vec!['a', 'ß']);
    assert!(same_text("Read", "Read"));
    assert!(!same_text("Read", "read"));
    assert!(!same_text("Read", "Rea"));
    assert_eq!(prefixed("wrote ", "/ws/a"), "wrote /ws/a");
}
