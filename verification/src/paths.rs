//! Path resolution and display.
//!
//! A tool reports a raw path-like string.  A string that begins with the
//! path-root marker is taken as absolute only when it actually exists on
//! disk; otherwise the leading markers are stripped and the remainder is
//! resolved against the project root, since upstream tools sometimes put a
//! root marker in front of a project-relative path.  Whether the absolute
//! candidate exists is a fact about the disk and is passed in by the caller.

use vstd::prelude::*;
use crate::text::{clone_chars, eq_chars, starts_with, starts_with_chars, sub_vec};

verus! {

// ---------------------------------------------------------------------------
// Specifications
// ---------------------------------------------------------------------------

/// `s` without its leading path-root markers.
pub open spec fn strip_leading_slashes(s: Seq<char>) -> Seq<char>
    decreases s.len(),
{
    if s.len() > 0 && s[0] == '/' {
        strip_leading_slashes(s.drop_first())
    } else {
        s
    }
}

/// `s` without its trailing path separators.
pub open spec fn strip_trailing_slashes(s: Seq<char>) -> Seq<char>
    decreases s.len(),
{
    if s.len() > 0 && s.last() == '/' {
        strip_trailing_slashes(s.drop_last())
    } else {
        s
    }
}

/// The position of the last occurrence of `c` in `s`, if any.
pub open spec fn rfind_char(s: Seq<char>, c: char) -> Option<int>
    decreases s.len(),
{
    if s.len() == 0 {
        None
    } else if s.last() == c {
        Some(s.len() - 1)
    } else {
        rfind_char(s.drop_last(), c)
    }
}

/// `root` and `rel` joined with a single separator.
pub open spec fn spec_join(root: Seq<char>, rel: Seq<char>) -> Seq<char> {
    if root.len() > 0 && root.last() == '/' {
        root + rel
    } else {
        root + seq!['/'] + rel
    }
}

/// The resolution of a raw path against the project root.
///
/// `abs_exists` reports whether the raw string, taken verbatim as an
/// absolute path, names an existing file.
pub open spec fn spec_resolve(raw: Seq<char>, root: Seq<char>, abs_exists: bool) -> Seq<char> {
    if raw.len() > 0 && raw[0] == '/' {
        if abs_exists {
            raw
        } else {
            spec_join(root, strip_leading_slashes(raw))
        }
    } else {
        spec_join(root, raw)
    }
}

/// The project-relative display form of `path`: the part after the root
/// prefix, or `path` unchanged when it does not lie under `root`.
pub open spec fn spec_relative(path: Seq<char>, root: Seq<char>) -> Seq<char> {
    if root.len() > 0 && root.last() == '/' {
        if starts_with(path, root) {
            path.skip(root.len() as int)
        } else {
            path
        }
    } else if path == root {
        Seq::empty()
    } else if starts_with(path, root + seq!['/']) {
        path.skip(root.len() as int + 1)
    } else {
        path
    }
}

/// The last path segment of `p`, or `unknown` when there is none.
pub open spec fn spec_project_name(p: Seq<char>) -> Seq<char> {
    let q = strip_trailing_slashes(p);
    if q.len() == 0 {
        "unknown"@
    } else {
        match rfind_char(q, '/') {
            Some(i) => q.skip(i + 1),
            None => q,
        }
    }
}

pub proof fn lemma_rfind_char(s: Seq<char>, c: char)
    ensures
        match rfind_char(s, c) {
            Some(i) => 0 <= i < s.len() && s[i] == c && (forall|j: int|
                i < j < s.len() ==> s[j] != c),
            None => forall|j: int| 0 <= j < s.len() ==> s[j] != c,
        },
    decreases s.len(),
{
    if s.len() > 0 && s.last() != c {
        lemma_rfind_char(s.drop_last(), c);
        assert(forall|j: int| 0 <= j < s.len() - 1 ==> s.drop_last()[j] == s[j]);
    }
}

// ---------------------------------------------------------------------------
// Executable functions
// ---------------------------------------------------------------------------

/// `s` without its leading path-root markers.
pub fn strip_leading(s: &Vec<char>) -> (r: Vec<char>)
    ensures
        r@ == strip_leading_slashes(s@),
{
    let n = s.len();
    let mut i: usize = 0;
    proof {
        assert(s@.skip(0) =~= s@);
    }
    while i < n && s[i] == '/'
        invariant
            n == s@.len(),
            i <= n,
            strip_leading_slashes(s@) == strip_leading_slashes(s@.skip(i as int)),
        decreases n - i,
    {
        proof {
            assert(s@.skip(i as int)[0] == s@[i as int]);
            assert(s@.skip(i as int).drop_first() =~= s@.skip(i + 1));
        }
        i = i + 1;
    }
    let r = sub_vec(s, i, n);
    proof {
        assert(r@ =~= s@.skip(i as int));
        if i < n {
            assert(s@.skip(i as int)[0] == s@[i as int]);
        }
    }
    r
}

/// `root` and `rel` joined with a single separator.
pub fn join_path(root: &Vec<char>, rel: &Vec<char>) -> (r: Vec<char>)
    ensures
        r@ == spec_join(root@, rel@),
{
    let mut r = clone_chars(root);
    if !(root.len() > 0 && root[root.len() - 1] == '/') {
        r.push('/');
        assert(r@ =~= root@ + seq!['/']);
    }
    crate::text::push_all(&mut r, rel);
    proof {
        if root@.len() > 0 && root@.last() == '/' {
        } else {
            assert((root@ + seq!['/']) + rel@ =~= root@ + seq!['/'] + rel@);
        }
    }
    r
}

/// Resolve a raw tool-reported path against the project root.
pub fn resolve_path(raw: &Vec<char>, root: &Vec<char>, abs_exists: bool) -> (r: Vec<char>)
    ensures
        r@ == spec_resolve(raw@, root@, abs_exists),
{
    if raw.len() > 0 && raw[0] == '/' {
        if abs_exists {
            clone_chars(raw)
        } else {
            let stripped = strip_leading(raw);
            join_path(root, &stripped)
        }
    } else {
        join_path(root, raw)
    }
}

/// The project-relative display form of `path`.
pub fn relative_path(path: &Vec<char>, root: &Vec<char>) -> (r: Vec<char>)
    ensures
        r@ == spec_relative(path@, root@),
{
    if root.len() > 0 && root[root.len() - 1] == '/' {
        if starts_with_chars(path, root) {
            let r = sub_vec(path, root.len(), path.len());
            assert(r@ =~= path@.skip(root@.len() as int));
            r
        } else {
            clone_chars(path)
        }
    } else if eq_chars(path, root) {
        let r: Vec<char> = Vec::new();
        assert(r@ =~= Seq::<char>::empty());
        r
    } else {
        let mut root_slash = clone_chars(root);
        root_slash.push('/');
        proof {
            assert(root_slash@ =~= root@ + seq!['/']);
        }
        if starts_with_chars(path, &root_slash) {
            let pl = path.len();
            let r = sub_vec(path, root.len() + 1, pl);
            assert(r@ =~= path@.skip(root@.len() as int + 1));
            r
        } else {
            clone_chars(path)
        }
    }
}

/// The position of the last `'/'` in `s`, if any.
fn rfind_slash(s: &Vec<char>) -> (r: Option<usize>)
    ensures
        match r {
            Some(i) => rfind_char(s@, '/') == Some(i as int),
            None => rfind_char(s@, '/') is None,
        },
{
    let mut i = s.len();
    proof {
        assert(s@.take(s@.len() as int) =~= s@);
    }
    while i > 0
        invariant
            i <= s@.len(),
            rfind_char(s@, '/') == rfind_char(s@.take(i as int), '/'),
        decreases i,
    {
        i = i - 1;
        if s[i] == '/' {
            proof {
                assert(s@.take(i + 1).last() == s@[i as int]);
            }
            return Some(i);
        }
        proof {
            assert(s@.take(i + 1).last() == s@[i as int]);
            assert(s@.take(i + 1).drop_last() =~= s@.take(i as int));
        }
    }
    None
}

/// The last path segment of `p`, or `unknown` when there is none.
pub fn project_name_of(p: &Vec<char>) -> (r: Vec<char>)
    ensures
        r@ == spec_project_name(p@),
{
    let mut q = clone_chars(p);
    while q.len() > 0 && q[q.len() - 1] == '/'
        invariant
            strip_trailing_slashes(p@) == strip_trailing_slashes(q@),
        decreases q.len(),
    {
        let ghost before = q@;
        q.pop();
        proof {
            assert(q@ =~= before.drop_last());
        }
    }
    if q.len() == 0 {
        crate::text::lit_chars("unknown")
    } else {
        match rfind_slash(&q) {
            Some(i) => {
                proof {
                    lemma_rfind_char(q@, '/');
                }
                let r = sub_vec(&q, i + 1, q.len());
                assert(r@ =~= q@.skip(i + 1));
                r
            },
            None => q,
        }
    }
}

} // verus!
