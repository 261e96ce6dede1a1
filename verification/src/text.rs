//! Character-level text utilities.
//!
//! All displayed text is handled as `Vec<char>`, so that budgets count
//! Unicode scalar values rather than bytes and every operation here can be
//! specified over `Seq<char>`.

use vstd::prelude::*;
use vstd::string::StrSliceExecFns;

verus! {

// ---------------------------------------------------------------------------
// Prefix, substring and search specifications
// ---------------------------------------------------------------------------

/// `p` is a prefix of `s`.
pub open spec fn starts_with(s: Seq<char>, p: Seq<char>) -> bool {
    s.len() >= p.len() && s.take(p.len() as int) == p
}

/// `p` occurs in `s` at position `i`.
pub open spec fn occurs_at(s: Seq<char>, p: Seq<char>, i: int) -> bool {
    0 <= i && i + p.len() <= s.len() && s.subrange(i, i + p.len() as int) == p
}

/// `p` occurs somewhere in `s`.
pub open spec fn contains_seq(s: Seq<char>, p: Seq<char>) -> bool {
    exists|i: int| occurs_at(s, p, i)
}

/// Position of the first occurrence of `p` in `s` at or after `from`.
pub open spec fn find_from(s: Seq<char>, p: Seq<char>, from: int) -> Option<int>
    decreases s.len() - from,
    via find_from_decreases
{
    if from < 0 || from + p.len() > s.len() {
        None
    } else if s.subrange(from, from + p.len() as int) =~= p {
        Some(from)
    } else {
        find_from(s, p, from + 1)
    }
}

#[via_fn]
proof fn find_from_decreases(s: Seq<char>, p: Seq<char>, from: int) {
    if !(from < 0 || from + p.len() > s.len()) && !(s.subrange(from, from + p.len() as int)
        =~= p) {
        assert(p.len() > 0);
    }
}

/// Position of the first occurrence of the character `c` at or after `from`.
pub open spec fn find_char_from(s: Seq<char>, c: char, from: int) -> Option<int>
    decreases s.len() - from,
{
    if from < 0 || from >= s.len() {
        None
    } else if s[from] == c {
        Some(from)
    } else {
        find_char_from(s, c, from + 1)
    }
}

/// Replacement of the first occurrence of `pat` in `s` by `sub`; `s` itself
/// when `pat` does not occur.
pub open spec fn replace_first(s: Seq<char>, pat: Seq<char>, sub: Seq<char>) -> Seq<char> {
    match find_from(s, pat, 0) {
        Some(i) => s.take(i) + sub + s.skip(i + pat.len() as int),
        None => s,
    }
}

/// `s` cut down to its first `n` characters; `s` itself when it is shorter.
pub open spec fn clip(s: Seq<char>, n: int) -> Seq<char> {
    if s.len() <= n {
        s
    } else {
        s.take(n)
    }
}

pub proof fn lemma_find_from(s: Seq<char>, p: Seq<char>, from: int)
    requires
        0 <= from,
    ensures
        match find_from(s, p, from) {
            Some(i) => occurs_at(s, p, i) && from <= i && (forall|j: int|
                from <= j < i ==> !occurs_at(s, p, j)),
            None => forall|j: int| from <= j ==> !occurs_at(s, p, j),
        },
    decreases s.len() - from,
{
    if from + p.len() > s.len() {
        assert forall|j: int| from <= j implies !occurs_at(s, p, j) by {}
    } else if s.subrange(from, from + p.len() as int) =~= p {
    } else {
        lemma_find_from(s, p, from + 1);
        assert(!occurs_at(s, p, from));
    }
}

pub proof fn lemma_find_char_from(s: Seq<char>, c: char, from: int)
    requires
        0 <= from,
    ensures
        match find_char_from(s, c, from) {
            Some(i) => from <= i < s.len() && s[i] == c && (forall|j: int|
                from <= j < i ==> s[j] != c),
            None => forall|j: int| from <= j < s.len() ==> s[j] != c,
        },
    decreases s.len() - from,
{
    if from >= s.len() {
    } else if s[from] == c {
    } else {
        lemma_find_char_from(s, c, from + 1);
    }
}

// ---------------------------------------------------------------------------
// Executable building blocks
// ---------------------------------------------------------------------------

/// The characters of a string slice, as a vector.
pub fn lit_chars(s: &str) -> (r: Vec<char>)
    ensures
        r@ == s@,
{
    let n = s.unicode_len();
    let mut r: Vec<char> = Vec::new();
    let mut i: usize = 0;
    while i < n
        invariant
            n == s@.len(),
            i <= n,
            r@ == s@.take(i as int),
        decreases n - i,
    {
        r.push(s.get_char(i));
        i = i + 1;
        assert(r@ =~= s@.take(i as int));
    }
    assert(r@ =~= s@);
    r
}

/// Append a copy of `src` to `dst`.
pub fn push_all(dst: &mut Vec<char>, src: &Vec<char>)
    ensures
        final(dst)@ == old(dst)@ + src@,
{
    let n = src.len();
    let mut i: usize = 0;
    while i < n
        invariant
            n == src@.len(),
            i <= n,
            dst@ == old(dst)@ + src@.take(i as int),
        decreases n - i,
    {
        dst.push(src[i]);
        i = i + 1;
        assert(dst@ =~= old(dst)@ + src@.take(i as int));
    }
    assert(dst@ =~= old(dst)@ + src@);
}

/// Append the characters of a string slice to `dst`.
pub fn push_lit(dst: &mut Vec<char>, s: &str)
    ensures
        final(dst)@ == old(dst)@ + s@,
{
    let chars = lit_chars(s);
    push_all(dst, &chars);
}

/// The characters of `s` from position `a` (inclusive) to `b` (exclusive).
pub fn sub_vec(s: &Vec<char>, a: usize, b: usize) -> (r: Vec<char>)
    requires
        a <= b <= s@.len(),
    ensures
        r@ == s@.subrange(a as int, b as int),
{
    let mut r: Vec<char> = Vec::new();
    let mut i: usize = a;
    while i < b
        invariant
            a <= i <= b <= s@.len(),
            r@ == s@.subrange(a as int, i as int),
        decreases b - i,
    {
        r.push(s[i]);
        i = i + 1;
        assert(r@ =~= s@.subrange(a as int, i as int));
    }
    r
}

/// Whether `s` and `p` hold the same characters.
pub fn eq_chars(s: &Vec<char>, p: &Vec<char>) -> (r: bool)
    ensures
        r == (s@ == p@),
{
    if s.len() != p.len() {
        return false;
    }
    let n = s.len();
    let mut i: usize = 0;
    while i < n
        invariant
            n == s@.len() == p@.len(),
            i <= n,
            forall|j: int| 0 <= j < i ==> s@[j] == p@[j],
        decreases n - i,
    {
        if s[i] != p[i] {
            return false;
        }
        i = i + 1;
    }
    assert(s@ =~= p@);
    true
}

/// Whether `s` holds exactly the characters of the string slice `p`.
pub fn eq_lit(s: &Vec<char>, p: &str) -> (r: bool)
    ensures
        r == (s@ == p@),
{
    let p_chars = lit_chars(p);
    eq_chars(s, &p_chars)
}

/// Whether `p` occurs in `s` at position `i`.
fn match_at(s: &Vec<char>, p: &Vec<char>, i: usize) -> (r: bool)
    requires
        i + p@.len() <= s@.len(),
    ensures
        r == (s@.subrange(i as int, i as int + p@.len() as int) == p@),
{
    let n = p.len();
    let sn = s.len();
    let mut j: usize = 0;
    while j < n
        invariant
            n == p@.len(),
            sn == s@.len(),
            i + n <= sn,
            j <= n,
            forall|k: int| 0 <= k < j ==> s@[i + k] == p@[k],
        decreases n - j,
    {
        if s[i + j] != p[j] {
            assert(s@.subrange(i as int, i as int + p@.len() as int)[j as int] != p@[j as int]);
            return false;
        }
        j = j + 1;
    }
    assert(s@.subrange(i as int, i as int + p@.len() as int) =~= p@);
    true
}

/// The first occurrence of `p` in `s`, if any.
pub fn find_first(s: &Vec<char>, p: &Vec<char>) -> (r: Option<usize>)
    ensures
        match r {
            Some(i) => find_from(s@, p@, 0) == Some(i as int),
            None => find_from(s@, p@, 0) is None,
        },
{
    if p.len() > s.len() {
        return None;
    }
    let bound = s.len() - p.len();
    let mut i: usize = 0;
    loop
        invariant
            p@.len() <= s@.len(),
            bound == s@.len() - p@.len(),
            i <= bound,
            find_from(s@, p@, 0) == find_from(s@, p@, i as int),
        decreases bound - i,
    {
        if match_at(s, p, i) {
            return Some(i);
        }
        if i == bound {
            assert(find_from(s@, p@, i + 1) is None);
            return None;
        }
        i = i + 1;
    }
}

/// The first position of character `c` in `s` at or after `from`, if any.
pub fn find_char(s: &Vec<char>, c: char, from: usize) -> (r: Option<usize>)
    ensures
        match r {
            Some(i) => find_char_from(s@, c, from as int) == Some(i as int),
            None => find_char_from(s@, c, from as int) is None,
        },
{
    let n = s.len();
    let mut i: usize = from;
    while i < n
        invariant
            n == s@.len(),
            from <= i,
            find_char_from(s@, c, from as int) == find_char_from(s@, c, i as int),
        decreases n - i,
    {
        if s[i] == c {
            return Some(i);
        }
        i = i + 1;
    }
    None
}

/// A copy of `s`.
pub fn clone_chars(s: &Vec<char>) -> (r: Vec<char>)
    ensures
        r@ == s@,
{
    let r = sub_vec(s, 0, s.len());
    assert(r@ =~= s@);
    r
}

/// Whether `p` is a prefix of `s`.
pub fn starts_with_chars(s: &Vec<char>, p: &Vec<char>) -> (r: bool)
    ensures
        r == starts_with(s@, p@),
{
    if p.len() > s.len() {
        return false;
    }
    match_at(s, p, 0)
}

/// Whether the string slice `p` is a prefix of `s`.
pub fn starts_with_lit(s: &Vec<char>, p: &str) -> (r: bool)
    ensures
        r == starts_with(s@, p@),
{
    let p_chars = lit_chars(p);
    if p_chars.len() > s.len() {
        return false;
    }
    match_at(s, &p_chars, 0)
}

/// Whether the string slice `p` occurs somewhere in `s`.
pub fn contains_lit(s: &Vec<char>, p: &str) -> (r: bool)
    ensures
        r == contains_seq(s@, p@),
{
    let p_chars = lit_chars(p);
    let r = find_first(s, &p_chars);
    proof {
        lemma_find_from(s@, p@, 0);
    }
    match r {
        Some(_) => true,
        None => false,
    }
}

/// First-occurrence substring replacement, as performed before a preview.
pub fn replace_first_chars(s: &Vec<char>, pat: &Vec<char>, sub: &Vec<char>) -> (r: Vec<char>)
    ensures
        r@ == replace_first(s@, pat@, sub@),
{
    let sl = s.len();
    match find_first(s, pat) {
        Some(i) => {
            proof {
                lemma_find_from(s@, pat@, 0);
            }
            let mut r = sub_vec(s, 0, i);
            push_all(&mut r, sub);
            let tail = sub_vec(s, i + pat.len(), sl);
            push_all(&mut r, &tail);
            proof {
                assert(s@.subrange(0, i as int) =~= s@.take(i as int));
                assert(s@.subrange(i + pat@.len() as int, s@.len() as int) =~= s@.skip(
                    i + pat@.len() as int));
            }
            r
        },
        None => sub_vec(s, 0, s.len()),
    }
}

/// A clipped text never exceeds its character budget, and clipping a text
/// that fits leaves it unchanged.
pub proof fn lemma_clip_bounded(s: Seq<char>, n: int)
    requires
        0 <= n,
    ensures
        clip(s, n).len() <= n,
        clip(s, n).len() <= s.len(),
        s.len() <= n ==> clip(s, n) == s,
{
}

/// `s` cut down to at most `n` characters, counting Unicode scalar values.
pub fn truncate_chars(s: &Vec<char>, n: usize) -> (r: Vec<char>)
    ensures
        r@ == clip(s@, n as int),
        r@.len() <= n,
{
    if s.len() <= n {
        let r = sub_vec(s, 0, s.len());
        assert(r@ =~= s@);
        r
    } else {
        sub_vec(s, 0, n)
    }
}

// ---------------------------------------------------------------------------
// Decimal rendering
// ---------------------------------------------------------------------------

/// The decimal digit character for `d`.
pub open spec fn spec_digit(d: nat) -> char {
    if d == 0 {
        '0'
    } else if d == 1 {
        '1'
    } else if d == 2 {
        '2'
    } else if d == 3 {
        '3'
    } else if d == 4 {
        '4'
    } else if d == 5 {
        '5'
    } else if d == 6 {
        '6'
    } else if d == 7 {
        '7'
    } else if d == 8 {
        '8'
    } else {
        '9'
    }
}

/// The decimal rendering of `n`, most significant digit first.
pub open spec fn spec_dec(n: nat) -> Seq<char>
    decreases n,
{
    if n < 10 {
        seq![spec_digit(n)]
    } else {
        spec_dec(n / 10) + seq![spec_digit(n % 10)]
    }
}

fn digit_char(d: u64) -> (r: char)
    requires
        d < 10,
    ensures
        r == spec_digit(d as nat),
{
    if d == 0 {
        '0'
    } else if d == 1 {
        '1'
    } else if d == 2 {
        '2'
    } else if d == 3 {
        '3'
    } else if d == 4 {
        '4'
    } else if d == 5 {
        '5'
    } else if d == 6 {
        '6'
    } else if d == 7 {
        '7'
    } else if d == 8 {
        '8'
    } else {
        '9'
    }
}

/// The decimal rendering of `n` as characters.
pub fn dec_chars(n: u64) -> (r: Vec<char>)
    ensures
        r@ == spec_dec(n as nat),
    decreases n,
{
    if n < 10 {
        let mut r: Vec<char> = Vec::new();
        r.push(digit_char(n));
        assert(r@ =~= spec_dec(n as nat));
        r
    } else {
        let mut r = dec_chars(n / 10);
        r.push(digit_char(n % 10));
        assert(r@ =~= spec_dec(n as nat));
        r
    }
}

// ---------------------------------------------------------------------------
// ASCII lower-casing (for discriminator normalization)
// ---------------------------------------------------------------------------

/// `c` with an ASCII capital letter folded to lower case.
pub open spec fn spec_lower_char(c: char) -> char {
    if c == 'A' {
        'a'
    } else if c == 'B' {
        'b'
    } else if c == 'C' {
        'c'
    } else if c == 'D' {
        'd'
    } else if c == 'E' {
        'e'
    } else if c == 'F' {
        'f'
    } else if c == 'G' {
        'g'
    } else if c == 'H' {
        'h'
    } else if c == 'I' {
        'i'
    } else if c == 'J' {
        'j'
    } else if c == 'K' {
        'k'
    } else if c == 'L' {
        'l'
    } else if c == 'M' {
        'm'
    } else if c == 'N' {
        'n'
    } else if c == 'O' {
        'o'
    } else if c == 'P' {
        'p'
    } else if c == 'Q' {
        'q'
    } else if c == 'R' {
        'r'
    } else if c == 'S' {
        's'
    } else if c == 'T' {
        't'
    } else if c == 'U' {
        'u'
    } else if c == 'V' {
        'v'
    } else if c == 'W' {
        'w'
    } else if c == 'X' {
        'x'
    } else if c == 'Y' {
        'y'
    } else if c == 'Z' {
        'z'
    } else {
        c
    }
}

/// `s` with every ASCII capital letter folded to lower case.
pub open spec fn spec_lower(s: Seq<char>) -> Seq<char> {
    s.map_values(|c: char| spec_lower_char(c))
}

fn lower_char(c: char) -> (r: char)
    ensures
        r == spec_lower_char(c),
{
    match c {
        'A' => 'a',
        'B' => 'b',
        'C' => 'c',
        'D' => 'd',
        'E' => 'e',
        'F' => 'f',
        'G' => 'g',
        'H' => 'h',
        'I' => 'i',
        'J' => 'j',
        'K' => 'k',
        'L' => 'l',
        'M' => 'm',
        'N' => 'n',
        'O' => 'o',
        'P' => 'p',
        'Q' => 'q',
        'R' => 'r',
        'S' => 's',
        'T' => 't',
        'U' => 'u',
        'V' => 'v',
        'W' => 'w',
        'X' => 'x',
        'Y' => 'y',
        'Z' => 'z',
        _ => c,
    }
}

/// `s` with every ASCII capital letter folded to lower case.
pub fn lower_chars(s: &Vec<char>) -> (r: Vec<char>)
    ensures
        r@ == spec_lower(s@),
{
    let n = s.len();
    let mut r: Vec<char> = Vec::new();
    let mut i: usize = 0;
    while i < n
        invariant
            n == s@.len(),
            i <= n,
            r@.len() == i,
            forall|j: int| 0 <= j < i ==> r@[j] == spec_lower_char(s@[j]),
        decreases n - i,
    {
        r.push(lower_char(s[i]));
        i = i + 1;
    }
    assert(r@ =~= spec_lower(s@));
    r
}

// ---------------------------------------------------------------------------
// Line splitting and joining
// ---------------------------------------------------------------------------

/// `line` with one trailing carriage return removed.
pub open spec fn strip_cr(line: Seq<char>) -> Seq<char> {
    if line.len() > 0 && line.last() == '\r' {
        line.drop_last()
    } else {
        line
    }
}

/// The lines of `s`: segments split at `'\n'`, each stripped of one trailing
/// `'\r'`; a final segment without a newline keeps its characters; text that
/// ends in a newline has no extra empty line.
pub open spec fn spec_lines(s: Seq<char>) -> Seq<Seq<char>>
    decreases s.len(),
    via spec_lines_decreases
{
    if s.len() == 0 {
        Seq::empty()
    } else {
        match find_char_from(s, '\n', 0) {
            Some(i) => seq![strip_cr(s.take(i))] + spec_lines(s.skip(i + 1)),
            None => seq![s],
        }
    }
}

#[via_fn]
proof fn spec_lines_decreases(s: Seq<char>) {
    if s.len() > 0 {
        lemma_find_char_from(s, '\n', 0);
    }
}

/// The first `n` of `parts` joined by `sep`.
pub open spec fn join_sep(parts: Seq<Seq<char>>, sep: Seq<char>) -> Seq<char>
    decreases parts.len(),
{
    if parts.len() == 0 {
        Seq::empty()
    } else if parts.len() == 1 {
        parts[0]
    } else {
        parts[0] + sep + join_sep(parts.drop_first(), sep)
    }
}

/// The lines of `s`, as vectors.
pub fn lines_of(s: &Vec<char>) -> (r: Vec<Vec<char>>)
    ensures
        r.deep_view() == spec_lines(s@),
{
    let n = s.len();
    let mut r: Vec<Vec<char>> = Vec::new();
    let mut pos: usize = 0;
    proof {
        assert(s@.skip(0) =~= s@);
        assert(r.deep_view() =~~= Seq::<Seq<char>>::empty());
        assert(r.deep_view() + spec_lines(s@.skip(0)) =~~= spec_lines(s@));
    }
    loop
        invariant
            n == s@.len(),
            pos <= n,
            spec_lines(s@) == r.deep_view() + spec_lines(s@.skip(pos as int)),
        decreases n - pos,
    {
        if pos >= n {
            assert(s@.skip(pos as int) =~= Seq::<char>::empty());
            assert(r.deep_view() =~~= spec_lines(s@));
            return r;
        }
        let ghost rest = s@.skip(pos as int);
        proof {
            lemma_find_char_skip(s@, '\n', pos as int);
        }
        match find_char(s, '\n', pos) {
            Some(i) => {
                proof {
                    lemma_find_char_from(s@, '\n', pos as int);
                }
                let ghost dv0 = r.deep_view();
                let mut line = sub_vec(s, pos, i);
                if line.len() > 0 && line[line.len() - 1] == '\r' {
                    line.pop();
                    assert(line@ =~= s@.subrange(pos as int, i as int).drop_last());
                }
                proof {
                    assert(rest.take((i - pos) as int) =~= s@.subrange(pos as int, i as int));
                    assert(line@ == strip_cr(rest.take((i - pos) as int)));
                    assert(rest.skip((i - pos) + 1) =~= s@.skip(i + 1));
                    assert(spec_lines(rest) == seq![strip_cr(rest.take((i - pos) as int))]
                        + spec_lines(rest.skip((i - pos) + 1)));
                }
                let ghost lv = line@;
                r.push(line);
                pos = i + 1;
                proof {
                    assert(r.deep_view() =~~= dv0 + seq![lv]);
                    assert(r.deep_view() + spec_lines(s@.skip(pos as int)) =~~= dv0 + spec_lines(
                        rest));
                }
            },
            None => {
                proof {
                    lemma_find_char_from(s@, '\n', pos as int);
                }
                let ghost dv0 = r.deep_view();
                let line = sub_vec(s, pos, n);
                proof {
                    assert(line@ =~= rest);
                }
                r.push(line);
                proof {
                    assert(find_char_from(rest, '\n', 0) is None);
                    assert(spec_lines(rest) == seq![rest]);
                    assert(r.deep_view() =~~= dv0 + seq![rest]);
                    assert(r.deep_view() =~~= spec_lines(s@));
                }
                return r;
            },
        }
    }
}

/// Searching a suffix is searching the whole from the cut, shifted back.
proof fn lemma_find_char_skip(s: Seq<char>, c: char, k: int)
    requires
        0 <= k <= s.len(),
    ensures
        match find_char_from(s, c, k) {
            Some(i) => find_char_from(s.skip(k), c, 0) == Some(i - k),
            None => find_char_from(s.skip(k), c, 0) is None,
        },
{
    lemma_find_char_from(s, c, k);
    lemma_find_char_from(s.skip(k), c, 0);
    match find_char_from(s, c, k) {
        Some(i) => {
            match find_char_from(s.skip(k), c, 0) {
                Some(j) => {
                    assert(s.skip(k)[i - k] == c);
                    assert(s[k + j] == c);
                },
                None => {
                    assert(s.skip(k)[i - k] == c);
                },
            }
        },
        None => {
            if find_char_from(s.skip(k), c, 0) is Some {
                let j = find_char_from(s.skip(k), c, 0)->0;
                assert(s[k + j] == c);
            }
        },
    }
}

/// The first two lines of `s`, joined by `" | "`.
pub fn first_two_lines_joined(s: &Vec<char>) -> (r: Vec<char>)
    ensures
        r@ == join_sep(spec_lines(s@).take(if spec_lines(s@).len() < 2 {
            spec_lines(s@).len() as int
        } else {
            2
        }), " | "@),
{
    let lines = lines_of(s);
    if lines.len() == 0 {
        let r: Vec<char> = Vec::new();
        proof {
            assert(spec_lines(s@).take(0) =~~= Seq::<Seq<char>>::empty());
            assert(r@ =~= Seq::<char>::empty());
        }
        r
    } else if lines.len() == 1 {
        let r = sub_vec(&lines[0], 0, lines[0].len());
        proof {
            assert(lines.deep_view()[0] == lines@[0].deep_view());
            assert(lines@[0].deep_view() =~= lines@[0]@);
            assert(r@ =~= lines@[0]@);
            let t = spec_lines(s@).take(1);
            assert(t.len() == 1);
            assert(t[0] == spec_lines(s@)[0]);
            assert(join_sep(t, " | "@) == t[0]);
        }
        r
    } else {
        let mut r = sub_vec(&lines[0], 0, lines[0].len());
        push_lit(&mut r, " | ");
        let second = sub_vec(&lines[1], 0, lines[1].len());
        push_all(&mut r, &second);
        proof {
            assert(lines.deep_view()[0] == lines@[0].deep_view());
            assert(lines.deep_view()[1] == lines@[1].deep_view());
            assert(lines@[0].deep_view() =~= lines@[0]@);
            assert(lines@[1].deep_view() =~= lines@[1]@);
            let t = spec_lines(s@).take(2);
            assert(t.len() == 2);
            assert(t[0] == spec_lines(s@)[0]);
            assert(t[1] == spec_lines(s@)[1]);
            assert(t.drop_first() =~~= seq![t[1]]);
            assert(join_sep(seq![t[1]], " | "@) == t[1]);
            assert(join_sep(t, " | "@) == t[0] + " | "@ + join_sep(t.drop_first(), " | "@));
            assert(r@ =~= t[0] + " | "@ + t[1]);
        }
        r
    }
}

} // verus!
