//! Tests of the diff-preview generator, its artifacts, and path handling.
//! These run against the real digest and diff crates.

use notch_hook::hook::NotchHook;
use notch_hook::paths::{project_name_of, relative_path, resolve_path};
use notch_hook::preview::generate_file_id;
use notch_hook::text::dec_chars;
use sha2::Digest;

fn cv(s: &str) -> Vec<char> {
    s.chars().collect()
}

fn cs(v: &Vec<char>) -> String {
    v.iter().collect()
}

fn hook() -> NotchHook {
    NotchHook::new(cv("/proj"), cv("/tmp/previews"), cv("0.5"), cv("7"))
}

#[test]
fn replacement_preview_counts_one_line_each_way() {
    let h = hook();
    let art = h.generate_preview_diff(
        &cv("/proj/f.txt"),
        &cv("foo\nbaz\n"),
        Some(&cv("foo")),
        Some(&cv("bar")),
    );
    assert_eq!(cs(&art.modified), "bar\nbaz\n");
    assert_eq!(art.added, 1);
    assert_eq!(art.removed, 1);
}

#[test]
fn full_write_against_missing_file_counts_all_lines() {
    let h = hook();
    let art = h.generate_preview_diff(&cv("/proj/new.txt"), &cv(""), None, Some(&cv("a\nb\nc\n")));
    assert_eq!(cs(&art.modified), "a\nb\nc\n");
    assert_eq!(art.added, 3);
    assert_eq!(art.removed, 0);

    let no_newline = h.generate_preview_diff(&cv("/proj/new.txt"), &cv(""), None, Some(&cv("a\nb")));
    assert_eq!(no_newline.added, 2);
    assert_eq!(no_newline.removed, 0);
}

#[test]
fn missing_fragments_preview_no_change() {
    let h = hook();
    let art = h.generate_preview_diff(&cv("/proj/f.txt"), &cv("keep\n"), None, None);
    assert_eq!(cs(&art.modified), "keep\n");
    assert_eq!(art.added, 0);
    assert_eq!(art.removed, 0);

    let absent = h.generate_preview_diff(
        &cv("/proj/f.txt"),
        &cv("keep\n"),
        Some(&cv("not there")),
        Some(&cv("x")),
    );
    assert_eq!(cs(&absent.modified), "keep\n");
    assert_eq!(absent.added, 0);
}

#[test]
fn repeated_previews_overwrite_the_same_artifacts() {
    let h = hook();
    let a = h.generate_preview_diff(&cv("/proj/f.txt"), &cv("x\n"), None, Some(&cv("y\n")));
    let b = h.generate_preview_diff(&cv("/proj/f.txt"), &cv("other\n"), Some(&cv("other")), Some(&cv("z")));
    assert!(a.diff_path == b.diff_path);
    assert!(a.stats_path == b.stats_path);
    let c = h.generate_preview_diff(&cv("/proj/g.txt"), &cv("x\n"), None, Some(&cv("y\n")));
    assert!(a.diff_path != c.diff_path);
}

#[test]
fn artifact_paths_are_digest_named() {
    let h = hook();
    let art = h.generate_preview_diff(&cv("/proj/f.txt"), &cv(""), None, Some(&cv("hi\n")));
    let id = hex::encode(sha2::Sha256::digest("/proj/f.txt".as_bytes()));
    assert_eq!(cs(&art.diff_path), format!("/tmp/previews/{}.preview.diff", id));
    assert_eq!(cs(&art.stats_path), format!("/tmp/previews/{}.preview.stats.json", id));
    assert_eq!(cs(&generate_file_id(&cv("/proj/f.txt"))), id);
}

#[test]
fn unified_diff_matches_the_diff_crate() {
    let h = hook();
    let art = h.generate_preview_diff(
        &cv("/proj/f.txt"),
        &cv("foo\nbaz\n"),
        Some(&cv("foo")),
        Some(&cv("bar")),
    );
    let diff = similar::TextDiff::from_lines("foo\nbaz\n", "bar\nbaz\n");
    let expected = diff
        .unified_diff()
        .context_radius(3)
        .header("--- /proj/f.txt", "+++ /proj/f.txt")
        .to_string();
    assert_eq!(cs(&art.diff_content), expected);
    assert!(expected.contains("-foo"));
    assert!(expected.contains("+bar"));
}

#[test]
fn stats_record_is_serialized_exactly() {
    let h = hook();
    let art = h.generate_preview_diff(
        &cv("/proj/f.txt"),
        &cv("foo\nbaz\n"),
        Some(&cv("foo")),
        Some(&cv("bar")),
    );
    assert_eq!(
        cs(&art.stats_json),
        "{\"added\":1,\"removed\":1,\"file\":\"/proj/f.txt\",\"preview\":true}"
    );
    let odd = h.generate_preview_diff(&cv("/proj/a\"b\\c.txt"), &cv(""), None, Some(&cv("x\n")));
    assert_eq!(
        cs(&odd.stats_json),
        "{\"added\":1,\"removed\":0,\"file\":\"/proj/a\\\"b\\\\c.txt\",\"preview\":true}"
    );
}

#[test]
fn decimal_rendering_is_exact() {
    assert_eq!(cs(&dec_chars(0)), "0");
    assert_eq!(cs(&dec_chars(7)), "7");
    assert_eq!(cs(&dec_chars(12345)), "12345");
    assert_eq!(cs(&dec_chars(u64::MAX)), "18446744073709551615");
}

#[test]
fn false_absolute_paths_resolve_under_the_project() {
    let resolved = resolve_path(&cv("/README.md"), &cv("/proj"), false);
    assert_eq!(cs(&resolved), "/proj/README.md");
    let kept = resolve_path(&cv("/etc/hosts"), &cv("/proj"), true);
    assert_eq!(cs(&kept), "/etc/hosts");
    let relative = resolve_path(&cv("src/lib.rs"), &cv("/proj"), false);
    assert_eq!(cs(&relative), "/proj/src/lib.rs");
}

#[test]
fn display_paths_strip_the_project_prefix() {
    assert_eq!(cs(&relative_path(&cv("/proj/src/x.rs"), &cv("/proj"))), "src/x.rs");
    assert_eq!(cs(&relative_path(&cv("/other/x.rs"), &cv("/proj"))), "/other/x.rs");
    assert_eq!(cs(&relative_path(&cv("/proj"), &cv("/proj"))), "");
    assert_eq!(cs(&relative_path(&cv("/projx/y"), &cv("/proj"))), "/projx/y");
}

#[test]
fn project_names_come_from_the_last_segment() {
    assert_eq!(cs(&project_name_of(&cv("/home/dev/myproj"))), "myproj");
    assert_eq!(cs(&project_name_of(&cv("/home/dev/myproj/"))), "myproj");
    assert_eq!(cs(&project_name_of(&cv("plain"))), "plain");
    assert_eq!(cs(&project_name_of(&cv("/"))), "unknown");
    assert_eq!(cs(&project_name_of(&cv(""))), "unknown");
}
