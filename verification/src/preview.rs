//! Diff previews and their artifacts.
//!
//! Before a file-mutating tool runs, the hypothetical post-edit content is
//! synthesized from the tool's text fragments, a line diff against the
//! current content is computed, and both the unified diff and a statistics
//! record are laid out as artifacts.  The artifacts are named by a stable
//! digest of the absolute path, so re-previewing a file overwrites its
//! earlier preview instead of accumulating new files.

use vstd::prelude::*;
use vstd::string::StrSliceExecFns;
use vstd::string::StringSliceAdditionalSpecFns;
use vstd::utf8::encode_utf8;
use sha2::Digest;
use crate::hook::NotchHook;
use crate::paths::spec_join;
use crate::text::{clone_chars, dec_chars, lit_chars, push_all, push_lit, replace_first,
    replace_first_chars, spec_dec};

verus! {

// ---------------------------------------------------------------------------
// Synthesized content
// ---------------------------------------------------------------------------

/// The hypothetical post-edit content: a first-occurrence replacement when
/// both fragments are given, the new fragment verbatim for a full write,
/// and the current content when nothing is given.
pub open spec fn spec_modified(
    original: Seq<char>,
    old_text: Option<Seq<char>>,
    new_text: Option<Seq<char>>,
) -> Seq<char> {
    match (old_text, new_text) {
        (Some(o), Some(n)) => replace_first(original, o, n),
        (None, Some(n)) => n,
        _ => original,
    }
}

/// Synthesize the hypothetical post-edit content.
pub fn synthesize_modified(
    original: &Vec<char>,
    old_text: Option<&Vec<char>>,
    new_text: Option<&Vec<char>>,
) -> (r: Vec<char>)
    ensures
        r@ == spec_modified(
            original@,
            match old_text {
                Some(o) => Some(o@),
                None => None,
            },
            match new_text {
                Some(n) => Some(n@),
                None => None,
            },
        ),
{
    match (old_text, new_text) {
        (Some(o), Some(n)) => replace_first_chars(original, o, n),
        (None, Some(n)) => clone_chars(n),
        _ => clone_chars(original),
    }
}

// ---------------------------------------------------------------------------
// Line diff, through the `similar` crate
// ---------------------------------------------------------------------------

/// The tag of one change in a line diff.
#[derive(Clone, Copy, Debug, PartialEq, Eq, Structural)]
pub enum ChangeKind {
    Equal,
    Delete,
    Insert,
}

/// The change tags of the line diff between two texts; deterministic in the
/// two texts.
pub uninterp spec fn diff_tags(old: Seq<char>, new: Seq<char>) -> Seq<ChangeKind>;

/// The rendered unified diff of two texts under the given headers;
/// deterministic in its arguments.
pub uninterp spec fn unified_diff_of(
    old: Seq<char>,
    new: Seq<char>,
    from_header: Seq<char>,
    to_header: Seq<char>,
) -> Seq<char>;

/// The position of the first line-break character at or after `from`.
pub open spec fn find_nl_from(s: Seq<char>, from: int) -> Option<int>
    decreases s.len() - from,
{
    if from < 0 || from >= s.len() {
        None
    } else if s[from] == '\n' || s[from] == '\r' {
        Some(from)
    } else {
        find_nl_from(s, from + 1)
    }
}

proof fn lemma_find_nl_bounds(s: Seq<char>, from: int)
    requires
        0 <= from,
    ensures
        find_nl_from(s, from) matches Some(i) ==> from <= i < s.len(),
    decreases s.len() - from,
{
    if from < s.len() && !(s[from] == '\n' || s[from] == '\r') {
        lemma_find_nl_bounds(s, from + 1);
    }
}

/// How many line tokens a text splits into: one per line break — a carriage
/// return directly before a line feed belongs to the same break — plus one
/// for a final segment without a break.
pub open spec fn spec_line_tokens(s: Seq<char>) -> nat
    decreases s.len(),
    via spec_line_tokens_decreases
{
    if s.len() == 0 {
        0
    } else {
        match find_nl_from(s, 0) {
            None => 1,
            Some(i) => {
                let step = if s[i] == '\r' && i + 1 < s.len() && s[i + 1] == '\n' {
                    i + 2
                } else {
                    i + 1
                };
                1 + spec_line_tokens(s.skip(step))
            },
        }
    }
}

#[via_fn]
proof fn spec_line_tokens_decreases(s: Seq<char>) {
    if s.len() > 0 {
        lemma_find_nl_bounds(s, 0);
    }
}

/// Relies on `similar::TextDiff::from_lines` and `iter_all_changes`: the
/// change tags of a line diff are a function of the two texts alone, and a
/// diff against an empty old text inserts exactly its line tokens.
#[verifier::external_body]
fn line_diff_tags(old: &Vec<char>, new: &Vec<char>) -> (r: Vec<ChangeKind>)
    ensures
        r@ == diff_tags(old@, new@),
        old@.len() == 0 ==> r@ == Seq::new(spec_line_tokens(new@), |i: int| ChangeKind::Insert),
{
    let old_s: String = old.iter().collect();
    let new_s: String = new.iter().collect();
    let diff = similar::TextDiff::from_lines(old_s.as_str(), new_s.as_str());
    diff.iter_all_changes().map(|c| match c.tag() {
        similar::ChangeTag::Equal => ChangeKind::Equal,
        similar::ChangeTag::Delete => ChangeKind::Delete,
        similar::ChangeTag::Insert => ChangeKind::Insert,
    }).collect()
}

/// Relies on `similar`'s unified-diff rendering with a context radius of
/// three: the rendered text is a function of the texts and headers alone.
#[verifier::external_body]
fn unified_diff_text(
    old: &Vec<char>,
    new: &Vec<char>,
    from_header: &Vec<char>,
    to_header: &Vec<char>,
) -> (r: Vec<char>)
    ensures
        r@ == unified_diff_of(old@, new@, from_header@, to_header@),
{
    let old_s: String = old.iter().collect();
    let new_s: String = new.iter().collect();
    let fh: String = from_header.iter().collect();
    let th: String = to_header.iter().collect();
    let diff = similar::TextDiff::from_lines(old_s.as_str(), new_s.as_str());
    let text = diff.unified_diff().context_radius(3).header(&fh, &th).to_string();
    text.chars().collect()
}

/// How many of `tags` are `k`.
pub open spec fn count_kind(tags: Seq<ChangeKind>, k: ChangeKind) -> nat
    decreases tags.len(),
{
    if tags.len() == 0 {
        0
    } else {
        (if tags[0] == k {
            1nat
        } else {
            0nat
        }) + count_kind(tags.drop_first(), k)
    }
}

pub proof fn lemma_count_kind_le_len(tags: Seq<ChangeKind>, k: ChangeKind)
    ensures
        count_kind(tags, k) <= tags.len(),
    decreases tags.len(),
{
    if tags.len() > 0 {
        lemma_count_kind_le_len(tags.drop_first(), k);
    }
}

proof fn lemma_count_all_insert(n: nat)
    ensures
        count_kind(Seq::new(n, |i: int| ChangeKind::Insert), ChangeKind::Insert) == n,
        count_kind(Seq::new(n, |i: int| ChangeKind::Insert), ChangeKind::Delete) == 0,
    decreases n,
{
    let s = Seq::new(n, |i: int| ChangeKind::Insert);
    if n > 0 {
        lemma_count_all_insert((n - 1) as nat);
        assert(s.drop_first() =~= Seq::new((n - 1) as nat, |i: int| ChangeKind::Insert));
    }
}

/// Count inserted and deleted lines in a tag sequence.
fn count_stats(tags: &Vec<ChangeKind>) -> (r: (usize, usize))
    ensures
        r.0 == count_kind(tags@, ChangeKind::Insert),
        r.1 == count_kind(tags@, ChangeKind::Delete),
{
    let n = tags.len();
    let mut added: usize = 0;
    let mut removed: usize = 0;
    let mut i: usize = 0;
    proof {
        assert(tags@.skip(0) =~= tags@);
        lemma_count_kind_le_len(tags@, ChangeKind::Insert);
        lemma_count_kind_le_len(tags@, ChangeKind::Delete);
    }
    while i < n
        invariant
            n == tags@.len(),
            i <= n,
            added <= i,
            removed <= i,
            count_kind(tags@, ChangeKind::Insert) == added + count_kind(
                tags@.skip(i as int),
                ChangeKind::Insert,
            ),
            count_kind(tags@, ChangeKind::Delete) == removed + count_kind(
                tags@.skip(i as int),
                ChangeKind::Delete,
            ),
        decreases n - i,
    {
        proof {
            assert(tags@.skip(i as int)[0] == tags@[i as int]);
            assert(tags@.skip(i as int).drop_first() =~= tags@.skip(i + 1));
            lemma_count_kind_le_len(tags@.skip(i + 1), ChangeKind::Insert);
            lemma_count_kind_le_len(tags@.skip(i + 1), ChangeKind::Delete);
        }
        match tags[i] {
            ChangeKind::Insert => {
                added = added + 1;
            },
            ChangeKind::Delete => {
                removed = removed + 1;
            },
            ChangeKind::Equal => {},
        }
        i = i + 1;
    }
    proof {
        assert(tags@.skip(i as int) =~= Seq::<ChangeKind>::empty());
    }
    (added, removed)
}

/// The inserted and deleted line counts of the line diff between two texts.
/// Equal lines contribute to neither count; against an empty old text the
/// insertions are exactly the new text's line tokens.
pub fn diff_line_stats(old: &Vec<char>, new: &Vec<char>) -> (r: (usize, usize))
    ensures
        r.0 == count_kind(diff_tags(old@, new@), ChangeKind::Insert),
        r.1 == count_kind(diff_tags(old@, new@), ChangeKind::Delete),
        old@.len() == 0 ==> r.0 == spec_line_tokens(new@) && r.1 == 0,
{
    let tags = line_diff_tags(old, new);
    proof {
        if old@.len() == 0 {
            lemma_count_all_insert(spec_line_tokens(new@));
        }
    }
    count_stats(&tags)
}

// ---------------------------------------------------------------------------
// File identity, through sha2 and hex
// ---------------------------------------------------------------------------

/// The SHA-256 digest of a byte sequence; deterministic in its input.
pub uninterp spec fn sha256_of(bytes: Seq<u8>) -> Seq<u8>;

/// Relies on sha2's `Sha256`: the digest has 32 bytes and depends on the
/// input bytes alone.
#[verifier::external_body]
fn sha256_digest(bytes: &Vec<u8>) -> (r: Vec<u8>)
    ensures
        r@ == sha256_of(bytes@),
        r@.len() == 32,
{
    let mut h = sha2::Sha256::new();
    h.update(bytes.as_slice());
    h.finalize().to_vec()
}

/// The lowercase hex digit for `d`.
pub open spec fn spec_hex_digit(d: u8) -> char {
    if d == 0 {
        '0'
    } else if d == 1 {
        '1'
    } else if d == 2 {
        '2'
    } else if d == 3 {
        '3'
    } else if d == 4 {
        '4'
    } else if d == 5 {
        '5'
    } else if d == 6 {
        '6'
    } else if d == 7 {
        '7'
    } else if d == 8 {
        '8'
    } else if d == 9 {
        '9'
    } else if d == 10 {
        'a'
    } else if d == 11 {
        'b'
    } else if d == 12 {
        'c'
    } else if d == 13 {
        'd'
    } else if d == 14 {
        'e'
    } else {
        'f'
    }
}

/// The lowercase hex encoding: two digits per byte, high nibble first.
pub open spec fn spec_hex(bytes: Seq<u8>) -> Seq<char>
    decreases bytes.len(),
{
    if bytes.len() == 0 {
        Seq::empty()
    } else {
        seq![spec_hex_digit(bytes[0] / 16), spec_hex_digit(bytes[0] % 16)] + spec_hex(
            bytes.drop_first(),
        )
    }
}

/// Relies on `hex::encode`: each input byte becomes exactly two lowercase
/// hex digits, high nibble first.
#[verifier::external_body]
fn hex_chars(bytes: &Vec<u8>) -> (r: Vec<char>)
    ensures
        r@ == spec_hex(bytes@),
{
    hex::encode(bytes.as_slice()).chars().collect()
}

/// Relies on `String: FromIterator<char>`: collecting characters yields the
/// string holding exactly those characters.
#[verifier::external_body]
fn string_of(v: &Vec<char>) -> (r: String)
    ensures
        r@ == v@,
{
    v.iter().collect()
}

/// The stable identity of a file path: the hex SHA-256 of its UTF-8 bytes.
pub open spec fn spec_file_id(path: Seq<char>) -> Seq<char> {
    spec_hex(sha256_of(encode_utf8(path)))
}

/// Derive the artifact-name key for a path.
pub fn generate_file_id(path: &Vec<char>) -> (r: Vec<char>)
    ensures
        r@ == spec_file_id(path@),
{
    let s = string_of(path);
    let bytes = s.as_str().as_bytes_vec();
    let digest = sha256_digest(&bytes);
    hex_chars(&digest)
}

/// The name of the unified-diff artifact for a path.
pub open spec fn spec_diff_artifact_name(path: Seq<char>) -> Seq<char> {
    spec_file_id(path) + ".preview.diff"@
}

/// The name of the statistics artifact for a path.
pub open spec fn spec_stats_artifact_name(path: Seq<char>) -> Seq<char> {
    spec_file_id(path) + ".preview.stats.json"@
}

/// Artifact names depend on the absolute path alone: previewing the same
/// path again targets the same two files, never new ones.
pub proof fn lemma_artifact_names_deterministic(p1: Seq<char>, p2: Seq<char>)
    requires
        p1 == p2,
    ensures
        spec_diff_artifact_name(p1) == spec_diff_artifact_name(p2),
        spec_stats_artifact_name(p1) == spec_stats_artifact_name(p2),
{
}

// ---------------------------------------------------------------------------
// The statistics record
// ---------------------------------------------------------------------------

/// The escape of one character inside a JSON string literal.
pub open spec fn spec_esc_char(c: char) -> Seq<char> {
    if c == '"' {
        seq!['\\', '"']
    } else if c == '\\' {
        seq!['\\', '\\']
    } else if c == '\u{8}' {
        seq!['\\', 'b']
    } else if c == '\t' {
        seq!['\\', 't']
    } else if c == '\n' {
        seq!['\\', 'n']
    } else if c == '\u{c}' {
        seq!['\\', 'f']
    } else if c == '\r' {
        seq!['\\', 'r']
    } else if (c as u32) < 32 {
        seq!['\\', 'u', '0', '0', spec_hex_digit((c as u32 / 16) as u8), spec_hex_digit(
            (c as u32 % 16) as u8,
        )]
    } else {
        seq![c]
    }
}

/// The body of a JSON string literal holding `s`.
pub open spec fn spec_esc(s: Seq<char>) -> Seq<char>
    decreases s.len(),
{
    if s.len() == 0 {
        Seq::empty()
    } else {
        spec_esc_char(s[0]) + spec_esc(s.drop_first())
    }
}

fn hex_digit_char(d: u8) -> (r: char)
    requires
        d < 16,
    ensures
        r == spec_hex_digit(d),
{
    if d == 0 {
        '0'
    } else if d == 1 {
        '1'
    } else if d == 2 {
        '2'
    } else if d == 3 {
        '3'
    } else if d == 4 {
        '4'
    } else if d == 5 {
        '5'
    } else if d == 6 {
        '6'
    } else if d == 7 {
        '7'
    } else if d == 8 {
        '8'
    } else if d == 9 {
        '9'
    } else if d == 10 {
        'a'
    } else if d == 11 {
        'b'
    } else if d == 12 {
        'c'
    } else if d == 13 {
        'd'
    } else if d == 14 {
        'e'
    } else {
        'f'
    }
}

fn esc_pair(second: char) -> (r: Vec<char>)
    ensures
        r@ == seq!['\\', second],
{
    let mut r: Vec<char> = Vec::new();
    r.push('\\');
    r.push(second);
    proof {
        assert(r@ =~= seq!['\\', second]);
    }
    r
}

fn esc_char_chars(c: char) -> (r: Vec<char>)
    ensures
        r@ == spec_esc_char(c),
{
    if c == '"' {
        esc_pair('"')
    } else if c == '\\' {
        esc_pair('\\')
    } else if c == '\u{8}' {
        esc_pair('b')
    } else if c == '\t' {
        esc_pair('t')
    } else if c == '\n' {
        esc_pair('n')
    } else if c == '\u{c}' {
        esc_pair('f')
    } else if c == '\r' {
        esc_pair('r')
    } else if (c as u32) < 32 {
        let mut r: Vec<char> = Vec::new();
        r.push('\\');
        r.push('u');
        r.push('0');
        r.push('0');
        let code = c as u32;
        r.push(hex_digit_char((code / 16) as u8));
        r.push(hex_digit_char((code % 16) as u8));
        proof {
            assert(r@ =~= spec_esc_char(c));
        }
        r
    } else {
        let mut r: Vec<char> = Vec::new();
        r.push(c);
        proof {
            assert(r@ =~= spec_esc_char(c));
        }
        r
    }
}

/// Escape `s` for inclusion in a JSON string literal.
pub fn json_escape(s: &Vec<char>) -> (r: Vec<char>)
    ensures
        r@ == spec_esc(s@),
{
    let n = s.len();
    let mut r: Vec<char> = Vec::new();
    let mut i: usize = 0;
    proof {
        assert(s@.skip(0) =~= s@);
        assert(r@ + spec_esc(s@) =~= spec_esc(s@));
    }
    while i < n
        invariant
            n == s@.len(),
            i <= n,
            spec_esc(s@) == r@ + spec_esc(s@.skip(i as int)),
        decreases n - i,
    {
        proof {
            assert(s@.skip(i as int)[0] == s@[i as int]);
            assert(s@.skip(i as int).drop_first() =~= s@.skip(i + 1));
        }
        let piece = esc_char_chars(s[i]);
        push_all(&mut r, &piece);
        i = i + 1;
        proof {
            assert(spec_esc(s@) =~= r@ + spec_esc(s@.skip(i as int)));
        }
    }
    proof {
        assert(spec_esc(s@.skip(i as int)) =~= Seq::<char>::empty());
        assert(r@ =~= spec_esc(s@));
    }
    r
}

/// The serialized statistics record: line counts, target path, preview flag.
pub open spec fn spec_stats_json(added: nat, removed: nat, file: Seq<char>) -> Seq<char> {
    "{\"added\":"@ + spec_dec(added) + ",\"removed\":"@ + spec_dec(removed) + ",\"file\":\""@
        + spec_esc(file) + "\",\"preview\":true}"@
}

/// Serialize the statistics record.
pub fn stats_json_chars(added: usize, removed: usize, file: &Vec<char>) -> (r: Vec<char>)
    ensures
        r@ == spec_stats_json(added as nat, removed as nat, file@),
{
    let mut r = lit_chars("{\"added\":");
    let da = dec_chars(added as u64);
    push_all(&mut r, &da);
    push_lit(&mut r, ",\"removed\":");
    let dr = dec_chars(removed as u64);
    push_all(&mut r, &dr);
    push_lit(&mut r, ",\"file\":\"");
    let ef = json_escape(file);
    push_all(&mut r, &ef);
    push_lit(&mut r, "\",\"preview\":true}");
    proof {
        assert(r@ =~= spec_stats_json(added as nat, removed as nat, file@));
    }
    r
}

// ---------------------------------------------------------------------------
// The preview itself
// ---------------------------------------------------------------------------

/// Everything a preview produces: the two artifacts, laid out and named,
/// and the line statistics.  The caller writes the artifacts to disk.
pub struct PreviewArtifacts {
    /// The synthesized post-edit content the diff was taken against.
    pub modified: Vec<char>,
    /// Lines the edit would insert.
    pub added: usize,
    /// Lines the edit would delete.
    pub removed: usize,
    /// Full path of the unified-diff artifact.
    pub diff_path: Vec<char>,
    /// Content of the unified-diff artifact.
    pub diff_content: Vec<char>,
    /// Full path of the statistics artifact.
    pub stats_path: Vec<char>,
    /// Content of the statistics artifact.
    pub stats_json: Vec<char>,
}

impl NotchHook {
    /// Compute a preview of editing `file_path`, whose current content is
    /// `original`, with the given fragments.  Re-running for the same path
    /// yields the same artifact paths.
    pub fn generate_preview_diff(
        &self,
        file_path: &Vec<char>,
        original: &Vec<char>,
        old_text: Option<&Vec<char>>,
        new_text: Option<&Vec<char>>,
    ) -> (r: PreviewArtifacts)
        ensures
            r.modified@ == spec_modified(
                original@,
                match old_text {
                    Some(o) => Some(o@),
                    None => None,
                },
                match new_text {
                    Some(n) => Some(n@),
                    None => None,
                },
            ),
            r.added == count_kind(diff_tags(original@, r.modified@), ChangeKind::Insert),
            r.removed == count_kind(diff_tags(original@, r.modified@), ChangeKind::Delete),
            original@.len() == 0 ==> r.added == spec_line_tokens(r.modified@) && r.removed == 0,
            r.diff_path@ == spec_join(self.diff_dir@, spec_diff_artifact_name(file_path@)),
            r.stats_path@ == spec_join(self.diff_dir@, spec_stats_artifact_name(file_path@)),
            r.diff_content@ == unified_diff_of(
                original@,
                r.modified@,
                "--- "@ + file_path@,
                "+++ "@ + file_path@,
            ),
            r.stats_json@ == spec_stats_json(r.added as nat, r.removed as nat, file_path@),
    {
        let modified = synthesize_modified(original, old_text, new_text);
        let (added, removed) = diff_line_stats(original, &modified);
        let file_id = generate_file_id(file_path);
        let mut diff_name = clone_chars(&file_id);
        push_lit(&mut diff_name, ".preview.diff");
        let mut stats_name = file_id;
        push_lit(&mut stats_name, ".preview.stats.json");
        let diff_path = crate::paths::join_path(&self.diff_dir, &diff_name);
        let stats_path = crate::paths::join_path(&self.diff_dir, &stats_name);
        let mut from_header = lit_chars("--- ");
        push_all(&mut from_header, file_path);
        let mut to_header = lit_chars("+++ ");
        push_all(&mut to_header, file_path);
        let diff_content = unified_diff_text(original, &modified, &from_header, &to_header);
        let stats_json = stats_json_chars(added, removed, file_path);
        PreviewArtifacts {
            modified,
            added,
            removed,
            diff_path,
            diff_content,
            stats_path,
            stats_json,
        }
    }
}

} // verus!
