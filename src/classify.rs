use vstd::prelude::*;
use vstd::string::*;

verus! {

/// What a file found under the generator's output directory is used for.
#[derive(Clone, Copy, Debug, PartialEq, Eq, Structural)]
pub enum FileKind {
    /// A native source file (`.cpp`): compiled into the library.
    Source,
    /// A native header file (`.h`).
    Header,
    /// Anything else: ignored.
    Other,
}

/// Index of the last `.` or `/` among the first `k` characters of `p`, or -1.
pub open spec fn last_mark(p: Seq<char>, k: int) -> int
    decreases k,
{
    if k <= 0 {
        -1
    } else if p[k - 1] == '.' || p[k - 1] == '/' {
        k - 1
    } else {
        last_mark(p, k - 1)
    }
}

/// The extension of a path: what follows the last `.` of its final component,
/// where that `.` is not the component's first character.
pub open spec fn extension_of(p: Seq<char>) -> Option<Seq<char>> {
    let i = last_mark(p, p.len() as int);
    if i > 0 && p[i] == '.' && p[i - 1] != '/' {
        Some(p.subrange(i + 1, p.len() as int))
    } else {
        None
    }
}

/// The class of a path, decided by its extension alone.
pub open spec fn kind_of(p: Seq<char>) -> FileKind {
    match extension_of(p) {
        Some(e) => if e == seq!['c', 'p', 'p'] {
            FileKind::Source
        } else if e == seq!['h'] {
            FileKind::Header
        } else {
            FileKind::Other
        },
        None => FileKind::Other,
    }
}

/// The paths of `ps` of class `k`, in their order.
pub open spec fn select(ps: Seq<Seq<char>>, k: FileKind) -> Seq<Seq<char>>
    decreases ps.len(),
{
    if ps.len() == 0 {
        Seq::empty()
    } else {
        let rest = select(ps.drop_last(), k);
        if kind_of(ps.last()) == k {
            rest.push(ps.last())
        } else {
            rest
        }
    }
}

proof fn lemma_last_mark_bounds(p: Seq<char>, k: int)
    requires
        k <= p.len(),
    ensures
        -1 <= last_mark(p, k) < k || (k <= 0 && last_mark(p, k) == -1),
        last_mark(p, k) >= 0 ==> (p[last_mark(p, k)] == '.' || p[last_mark(p, k)] == '/'),
        forall|j: int| last_mark(p, k) < j < k ==> p[j] != '.' && p[j] != '/',
    decreases k,
{
    if k > 0 && !(p[k - 1] == '.' || p[k - 1] == '/') {
        lemma_last_mark_bounds(p, k - 1);
    }
}

/// Classifies a path by its extension: `.cpp` is a source, `.h` a header.
pub fn classify(path: &str) -> (r: FileKind)
    ensures
        r == kind_of(path@),
{
    let n = path.unicode_len();
    let mut k: usize = n;
    while k > 0
        invariant
            k <= n,
            n == path@.len(),
            last_mark(path@, n as int) == last_mark(path@, k as int),
        ensures
            k == 0 || path@[k - 1] == '.' || path@[k - 1] == '/',
        decreases k,
    {
        let c = path.get_char(k - 1);
        if c == '.' || c == '/' {
            break;
        }
        k = k - 1;
    }
    proof {
        lemma_last_mark_bounds(path@, n as int);
        assert(last_mark(path@, n as int) == k - 1);
    }
    if k < 2 {
        return FileKind::Other;
    }
    let i = k - 1;
    if path.get_char(i) != '.' || path.get_char(i - 1) == '/' {
        return FileKind::Other;
    }
    let ghost ext = path@.subrange(i + 1, n as int);
    let len = n - i - 1;
    if len == 3 && path.get_char(i + 1) == 'c' && path.get_char(i + 2) == 'p'
        && path.get_char(i + 3) == 'p' {
        assert(ext =~= seq!['c', 'p', 'p']);
        FileKind::Source
    } else if len == 1 && path.get_char(i + 1) == 'h' {
        assert(ext =~= seq!['h']);
        FileKind::Header
    } else {
        assert(ext.len() == len);
        assert(ext != seq!['c', 'p', 'p']) by {
            if ext == seq!['c', 'p', 'p'] {
                assert(seq!['c', 'p', 'p'].len() == 3);
                assert(ext[0] == path@[i + 1] && ext[1] == path@[i + 2] && ext[2] == path@[i + 3]);
            }
        }
        assert(ext != seq!['h']) by {
            if ext == seq!['h'] {
                assert(seq!['h'].len() == 1);
                assert(ext[0] == path@[i + 1]);
            }
        }
        FileKind::Other
    }
}

proof fn lemma_select_members(ps: Seq<Seq<char>>, k: FileKind, p: Seq<char>)
    requires
        select(ps, k).contains(p),
    ensures
        kind_of(p) == k,
        ps.contains(p),
    decreases ps.len(),
{
    let rest = select(ps.drop_last(), k);
    if kind_of(ps.last()) == k && p == ps.last() {
        assert(ps[ps.len() - 1] == p);
    } else {
        if kind_of(ps.last()) == k {
            let i = choose|i: int| 0 <= i < select(ps, k).len() && select(ps, k)[i] == p;
            assert(rest[i] == p);
        }
        lemma_select_members(ps.drop_last(), k, p);
        let j = choose|j: int| 0 <= j < ps.drop_last().len() && ps.drop_last()[j] == p;
        assert(ps[j] == p);
    }
}

/// Classification is a function of the extension alone: a path taken as a
/// source has the extension `cpp`, one taken as a header has `h`, no path is
/// taken as both, and a path with any other extension is taken as neither.
pub proof fn lemma_classification_disjoint(ps: Seq<Seq<char>>, p: Seq<char>)
    ensures
        select(ps, FileKind::Source).contains(p) ==> extension_of(p) == Some(seq!['c', 'p', 'p']),
        select(ps, FileKind::Header).contains(p) ==> extension_of(p) == Some(seq!['h']),
        !(select(ps, FileKind::Source).contains(p) && select(ps, FileKind::Header).contains(p)),
        extension_of(p) != Some(seq!['c', 'p', 'p']) && extension_of(p) != Some(seq!['h'])
            ==> !select(ps, FileKind::Source).contains(p) && !select(ps, FileKind::Header).contains(p),
        ps.contains(p) && kind_of(p) == FileKind::Source ==> select(ps, FileKind::Source).contains(p),
        ps.contains(p) && kind_of(p) == FileKind::Header ==> select(ps, FileKind::Header).contains(p),
{
    if select(ps, FileKind::Source).contains(p) {
        lemma_select_members(ps, FileKind::Source, p);
    }
    if select(ps, FileKind::Header).contains(p) {
        lemma_select_members(ps, FileKind::Header, p);
    }
    if ps.contains(p) && kind_of(p) != FileKind::Other {
        lemma_select_complete(ps, kind_of(p), p);
    }
}

proof fn lemma_select_complete(ps: Seq<Seq<char>>, k: FileKind, p: Seq<char>)
    requires
        ps.contains(p),
        kind_of(p) == k,
    ensures
        select(ps, k).contains(p),
    decreases ps.len(),
{
    let rest = select(ps.drop_last(), k);
    if ps.last() == p {
        assert(select(ps, k)[select(ps, k).len() - 1] == p);
    } else {
        let j = choose|j: int| 0 <= j < ps.len() && ps[j] == p;
        assert(j != ps.len() - 1);
        assert(ps.drop_last()[j] == p);
        lemma_select_complete(ps.drop_last(), k, p);
        let i = choose|i: int| 0 <= i < rest.len() && rest[i] == p;
        if kind_of(ps.last()) == k {
            assert(select(ps, k)[i] == p);
        }
    }
}

} // verus!
