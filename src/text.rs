use vstd::prelude::*;
use vstd::string::StrSliceExecFns;
use vstd::string::StringExecFns;

verus! {

/// Separator characters: a line break when splitting into lines; when
/// splitting a line into words, a space, a tab, a carriage return or a line
/// break. The toolchain manager's listing separates its columns with these
/// only; other Unicode blanks are taken as part of a word.
pub open spec fn is_sep(c: char, lines: bool) -> bool {
    if lines {
        c == '\n'
    } else {
        c == ' ' || c == '\t' || c == '\r' || c == '\n'
    }
}

/// State after scanning the first `n` characters of `s`: the ranges of the
/// pieces completed so far and the start of the piece being read.
pub open spec fn scan(s: Seq<char>, lines: bool, n: int) -> (Seq<(int, int)>, int)
    decreases n,
{
    if n <= 0 {
        (Seq::empty(), 0)
    } else {
        let (done, start) = scan(s, lines, n - 1);
        if is_sep(s[n - 1], lines) {
            (if start < n - 1 { done.push((start, n - 1)) } else { done }, n)
        } else {
            (done, start)
        }
    }
}

/// The ranges `(from, to)` of the non-empty pieces of `s` between separators.
pub open spec fn pieces(s: Seq<char>, lines: bool) -> Seq<(int, int)> {
    let (done, start) = scan(s, lines, s.len() as int);
    if start < s.len() {
        done.push((start, s.len() as int))
    } else {
        done
    }
}

pub open spec fn opt_view(s: Option<&str>) -> Option<Seq<char>> {
    match s {
        Some(s) => Some(s@),
        None => None,
    }
}

pub open spec fn ranges_view(v: Seq<(usize, usize)>) -> Seq<(int, int)> {
    v.map_values(|p: (usize, usize)| (p.0 as int, p.1 as int))
}

/// `a` and `b` joined as path components. Unlike a join of std's paths, an
/// absolute `b` does not replace `a`: the callers here only join relative
/// parts.
pub open spec fn join_spec(a: Seq<char>, b: Seq<char>) -> Seq<char> {
    if a.len() == 0 {
        b
    } else if a.last() == '/' {
        a + b
    } else {
        a + "/"@ + b
    }
}

fn is_sep_exec(c: char, lines: bool) -> (r: bool)
    ensures
        r == is_sep(c, lines),
{
    if lines {
        c == '\n'
    } else {
        c == ' ' || c == '\t' || c == '\r' || c == '\n'
    }
}

/// The characters of `s`.
pub fn chars_of(s: &str) -> (r: Vec<char>)
    ensures
        r@ == s@,
{
    let n = s.unicode_len();
    let mut r: Vec<char> = Vec::new();
    let mut i: usize = 0;
    while i < n
        invariant
            n == s@.len(),
            i <= n,
            r@ == s@.subrange(0, i as int),
        decreases n - i,
    {
        r.push(s.get_char(i));
        i = i + 1;
    }
    assert(r@ =~= s@);
    r
}

/// The ranges, relative to `lo`, of the pieces of `v[lo..hi]`.
pub fn split_pieces(v: &Vec<char>, lo: usize, hi: usize, lines: bool) -> (r: Vec<(usize, usize)>)
    requires
        lo <= hi <= v@.len(),
    ensures
        ranges_view(r@) == pieces(v@.subrange(lo as int, hi as int), lines),
{
    let ghost s = v@.subrange(lo as int, hi as int);
    let n = hi - lo;
    let mut done: Vec<(usize, usize)> = Vec::new();
    let mut start: usize = 0;
    let mut i: usize = 0;
    while i < n
        invariant
            n == s.len(),
            lo <= hi <= v@.len(),
            n == hi - lo,
            s == v@.subrange(lo as int, hi as int),
            i <= n,
            start <= i,
            (ranges_view(done@), start as int) == scan(s, lines, i as int),
        decreases n - i,
    {
        let c = v[lo + i];
        assert(c == s[i as int]);
        if is_sep_exec(c, lines) {
            if start < i {
                done.push((start, i));
                assert(ranges_view(done@) =~= scan(s, lines, i as int).0.push((start as int, i as int)));
            }
            start = i + 1;
        }
        i = i + 1;
    }
    if start < n {
        done.push((start, n));
        assert(ranges_view(done@) =~= scan(s, lines, n as int).0.push((start as int, n as int)));
    }
    done
}

/// Whether `a[alo..ahi]` equals `b`.
pub fn chars_eq(a: &Vec<char>, alo: usize, ahi: usize, b: &Vec<char>) -> (r: bool)
    requires
        alo <= ahi <= a@.len(),
    ensures
        r == (a@.subrange(alo as int, ahi as int) == b@),
{
    if ahi - alo != b.len() {
        return false;
    }
    let mut i: usize = 0;
    while i < b.len()
        invariant
            alo <= ahi <= a@.len(),
            ahi - alo == b@.len(),
            i <= b@.len(),
            forall|k: int| 0 <= k < i ==> a@[alo + k] == b@[k],
        decreases b@.len() - i,
    {
        if a[alo + i] != b[i] {
            assert(a@.subrange(alo as int, ahi as int)[i as int] != b@[i as int]);
            return false;
        }
        i = i + 1;
    }
    assert(a@.subrange(alo as int, ahi as int) =~= b@);
    true
}

/// `a` and `b` joined as path components.
pub fn join_path(a: &str, b: &str) -> (r: String)
    ensures
        r@ == join_spec(a@, b@),
{
    let n = a.unicode_len();
    if n == 0 {
        String::from_str(b)
    } else if a.get_char(n - 1) == '/' {
        String::from_str(a).concat(b)
    } else {
        String::from_str(a).concat("/").concat(b)
    }
}

/// Every piece lies inside `s` and is non-empty.
pub proof fn lemma_pieces_bounds(s: Seq<char>, lines: bool)
    ensures
        forall|k: int|
            0 <= k < pieces(s, lines).len() ==> 0 <= #[trigger] pieces(s, lines)[k].0 < pieces(
                s,
                lines,
            )[k].1 <= s.len(),
{
    lemma_scan_bounds(s, lines, s.len() as int);
}

proof fn lemma_scan_bounds(s: Seq<char>, lines: bool, n: int)
    requires
        0 <= n <= s.len(),
    ensures
        0 <= scan(s, lines, n).1 <= n,
        forall|k: int|
            0 <= k < scan(s, lines, n).0.len() ==> 0 <= #[trigger] scan(s, lines, n).0[k].0 < scan(
                s,
                lines,
                n,
            ).0[k].1 <= n,
    decreases n,
{
    if n > 0 {
        lemma_scan_bounds(s, lines, n - 1);
    }
}

/// `s` without the path separators it ends with.
pub open spec fn trim_end_slashes(s: Seq<char>) -> Seq<char>
    decreases s.len(),
{
    if s.len() > 0 && s.last() == '/' {
        trim_end_slashes(s.drop_last())
    } else {
        s
    }
}

/// The index of the last path separator in `s`, or -1.
pub open spec fn last_slash(s: Seq<char>) -> int
    decreases s.len(),
{
    if s.len() == 0 {
        -1
    } else if s.last() == '/' {
        s.len() - 1
    } else {
        last_slash(s.drop_last())
    }
}

/// The parent of a path: what stands before its last component, `/` for
/// a component right under the root, empty for a single relative component,
/// and none for the root or an empty path. Unlike std's `Path::parent`, `.`
/// components are kept as ordinary components (the parent of `a/.` is `a`).
pub open spec fn parent_spec(p: Seq<char>) -> Option<Seq<char>> {
    let q = trim_end_slashes(p);
    if q.len() == 0 {
        None
    } else {
        let i = last_slash(q);
        if i < 0 {
            Some(Seq::empty())
        } else {
            let h = trim_end_slashes(q.subrange(0, i));
            if h.len() == 0 {
                Some("/"@)
            } else {
                Some(h)
            }
        }
    }
}

/// The length of `v[..n]` once its trailing separators are cut off.
fn trimmed_len(v: &Vec<char>, n: usize) -> (r: usize)
    requires
        n <= v@.len(),
    ensures
        r <= n,
        trim_end_slashes(v@.subrange(0, n as int)) == v@.subrange(0, r as int),
{
    let mut m: usize = n;
    while m > 0 && v[m - 1] == '/'
        invariant
            m <= n <= v@.len(),
            trim_end_slashes(v@.subrange(0, n as int)) == trim_end_slashes(v@.subrange(0, m as int)),
        decreases m,
    {
        assert(v@.subrange(0, m as int).drop_last() =~= v@.subrange(0, m - 1));
        m = m - 1;
    }
    m
}

/// The index of the last separator in `v[..n]`, if any.
fn last_slash_in(v: &Vec<char>, n: usize) -> (r: Option<usize>)
    requires
        n <= v@.len(),
    ensures
        match r {
            Some(i) => i < n && last_slash(v@.subrange(0, n as int)) == i,
            None => last_slash(v@.subrange(0, n as int)) == -1,
        },
{
    let mut j: usize = n;
    while j > 0 && v[j - 1] != '/'
        invariant
            j <= n <= v@.len(),
            last_slash(v@.subrange(0, n as int)) == last_slash(v@.subrange(0, j as int)),
        decreases j,
    {
        assert(v@.subrange(0, j as int).drop_last() =~= v@.subrange(0, j - 1));
        j = j - 1;
    }
    if j == 0 {
        None
    } else {
        Some(j - 1)
    }
}

/// The parent of the path `p`.
pub fn parent_path(p: &str) -> (r: Option<String>)
    ensures
        match parent_spec(p@) {
            Some(q) => r matches Some(s) && s@ == q,
            None => r is None,
        },
{
    let v = chars_of(p);
    assert(v@.subrange(0, v@.len() as int) =~= p@);
    let m = trimmed_len(&v, v.len());
    if m == 0 {
        return None;
    }
    let ghost q = v@.subrange(0, m as int);
    match last_slash_in(&v, m) {
        None => Some(String::new()),
        Some(i) => {
            assert(q.subrange(0, i as int) =~= v@.subrange(0, i as int));
            let h = trimmed_len(&v, i);
            if h == 0 {
                proof {
                    reveal_strlit("/");
                }
                Some(String::from_str("/"))
            } else {
                let s = p.substring_char(0, h);
                Some(String::from_str(s))
            }
        },
    }
}

} // verus!
