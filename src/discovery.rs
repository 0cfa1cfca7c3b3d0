//! Selection of chart files from a recursive directory listing: only paths
//! with the chart extension are kept, in path order (component by component).

use vstd::prelude::*;
use vstd::string::*;
use core::cmp::Ordering;

verus! {

/// Whether `p` names a chart file: its file name (after the last `/`) ends
/// in `.ksh` and has something before that extension.
pub open spec fn is_chart_path(p: Seq<char>) -> bool {
    &&& p.len() >= 5
    &&& p.subrange(p.len() - 4, p.len() as int) == seq!['.', 'k', 's', 'h']
    &&& p[p.len() - 5] != '/'
}

/// Whether character `x` comes before `y` in path order: the separator `/`
/// comes before every other character, the rest go by code point.
pub open spec fn char_before(x: char, y: char) -> bool {
    x != y && (x == '/' || (y != '/' && x < y))
}

/// Path order: paths compare component by component, each component by code
/// point, and a component that is a prefix of another comes first. For paths
/// without empty components (no `//`, no trailing `/`) this is comparing
/// character by character with `/` ranked below every other character: where
/// one component is a prefix of the other, the shorter one ends at a `/` or
/// at the end of the path, and both come before any character.
pub open spec fn path_cmp(a: Seq<char>, b: Seq<char>) -> Ordering
    decreases a.len(),
{
    if a.len() == 0 {
        if b.len() == 0 {
            Ordering::Equal
        } else {
            Ordering::Less
        }
    } else if b.len() == 0 {
        Ordering::Greater
    } else if a[0] != b[0] {
        if char_before(a[0], b[0]) {
            Ordering::Less
        } else {
            Ordering::Greater
        }
    } else {
        path_cmp(a.drop_first(), b.drop_first())
    }
}

/// Whether `a` comes before `b`, or equals it, in path order.
pub open spec fn path_le(a: Seq<char>, b: Seq<char>) -> bool {
    path_cmp(a, b) != Ordering::Greater
}

/// Whether the paths are in path order.
pub open spec fn is_sorted_paths(s: Seq<String>) -> bool {
    forall|i: int, j: int| 0 <= i < j < s.len() ==> path_le(#[trigger] s[i]@, #[trigger] s[j]@)
}

proof fn lemma_path_cmp_flip(a: Seq<char>, b: Seq<char>)
    ensures
        (path_cmp(a, b) == Ordering::Equal) == (a == b),
        (path_cmp(a, b) == Ordering::Less) == (path_cmp(b, a) == Ordering::Greater),
    decreases a.len(),
{
    if a.len() > 0 && b.len() > 0 {
        if a[0] == b[0] {
            lemma_path_cmp_flip(a.drop_first(), b.drop_first());
            if a.drop_first() == b.drop_first() {
                assert(a =~= seq![a[0]] + a.drop_first());
                assert(b =~= seq![b[0]] + b.drop_first());
            }
        } else {
            assert(a != b);
        }
    } else if a.len() == 0 && b.len() == 0 {
        assert(a =~= b);
    }
}

proof fn lemma_path_le_trans(a: Seq<char>, b: Seq<char>, c: Seq<char>)
    requires
        path_le(a, b),
        path_le(b, c),
    ensures
        path_le(a, c),
    decreases a.len(),
{
    if a.len() > 0 && b.len() > 0 && c.len() > 0 && a[0] == b[0] && b[0] == c[0] {
        lemma_path_le_trans(a.drop_first(), b.drop_first(), c.drop_first());
    }
}

/// Path order is a total order: two paths compare equal exactly when they
/// are the same, swapping them swaps `Less` and `Greater`, and `path_le` is
/// transitive.
pub proof fn path_order_is_total(a: Seq<char>, b: Seq<char>, c: Seq<char>)
    ensures
        (path_cmp(a, b) == Ordering::Equal) == (a == b),
        (path_cmp(a, b) == Ordering::Less) == (path_cmp(b, a) == Ordering::Greater),
        path_le(a, b) && path_le(b, c) ==> path_le(a, c),
{
    lemma_path_cmp_flip(a, b);
    if path_le(a, b) && path_le(b, c) {
        lemma_path_le_trans(a, b, c);
    }
}

/// Compares two paths in path order.
pub fn compare_paths(a: &str, b: &str) -> (r: Ordering)
    ensures
        r == path_cmp(a@, b@),
{
    let n = a.unicode_len();
    let m = b.unicode_len();
    let mut i: usize = 0;
    assert(a@.subrange(0, n as int) =~= a@);
    assert(b@.subrange(0, m as int) =~= b@);
    loop
        invariant
            n == a@.len(),
            m == b@.len(),
            i <= n,
            i <= m,
            path_cmp(a@, b@) == path_cmp(a@.subrange(i as int, n as int), b@.subrange(i as int, m as int)),
        decreases n - i,
    {
        if i == n {
            if i == m {
                return Ordering::Equal;
            } else {
                return Ordering::Less;
            }
        }
        if i == m {
            return Ordering::Greater;
        }
        let x = a.get_char(i);
        let y = b.get_char(i);
        let ghost sa = a@.subrange(i as int, n as int);
        let ghost sb = b@.subrange(i as int, m as int);
        assert(sa[0] == x && sb[0] == y);
        if x != y {
            if x == '/' {
                return Ordering::Less;
            } else if y == '/' {
                return Ordering::Greater;
            } else if x < y {
                return Ordering::Less;
            } else {
                return Ordering::Greater;
            }
        }
        assert(sa.drop_first() =~= a@.subrange(i + 1, n as int));
        assert(sb.drop_first() =~= b@.subrange(i + 1, m as int));
        i = i + 1;
    }
}

/// The paths of `s` that name chart files, in their order.
pub open spec fn chart_paths(s: Seq<String>) -> Seq<String> {
    s.filter(|p: String| is_chart_path(p@))
}

/// Whether the path names a chart file.
pub fn is_chart_file(path: &str) -> (r: bool)
    ensures
        r == is_chart_path(path@),
{
    let n = path.unicode_len();
    if n < 5 {
        return false;
    }
    let r = path.get_char(n - 4) == '.' && path.get_char(n - 3) == 'k' && path.get_char(n - 2)
        == 's' && path.get_char(n - 1) == 'h' && path.get_char(n - 5) != '/';
    assert(r ==> path@.subrange(n - 4, n as int) =~= seq!['.', 'k', 's', 'h']);
    assert(path@.subrange(n - 4, n as int) == seq!['.', 'k', 's', 'h'] ==> {
        &&& path@[n - 4] == path@.subrange(n - 4, n as int)[0]
        &&& path@[n - 3] == path@.subrange(n - 4, n as int)[1]
        &&& path@[n - 2] == path@.subrange(n - 4, n as int)[2]
        &&& path@[n - 1] == path@.subrange(n - 4, n as int)[3]
    });
    r
}

/// Relies on `slice::sort_by` of std: the same strings afterwards, in
/// ascending order of the comparator, here `compare_paths`, a total order.
#[verifier::external_body]
fn sort_paths(paths: &mut Vec<String>)
    ensures
        final(paths)@.to_multiset() == old(paths)@.to_multiset(),
        is_sorted_paths(final(paths)@),
{
    paths.sort_by(|a, b| compare_paths(a.as_str(), b.as_str()));
}

/// The chart files among `paths`, each as often as it occurs there, in
/// path order.
pub fn select_chart_files(paths: &Vec<String>) -> (r: Vec<String>)
    ensures
        r@.to_multiset() == chart_paths(paths@).to_multiset(),
        is_sorted_paths(r@),
{
    let mut kept: Vec<String> = Vec::new();
    let n = paths.len();
    let mut i: usize = 0;
    while i < n
        invariant
            i <= n,
            n == paths@.len(),
            kept@ == chart_paths(paths@.subrange(0, i as int)),
        decreases n - i,
    {
        let p = &paths[i];
        let keep = is_chart_file(p.as_str());
        proof {
            let s = paths@.subrange(0, i + 1);
            assert(s.drop_last() =~= paths@.subrange(0, i as int));
            reveal_with_fuel(Seq::filter, 1);
        }
        if keep {
            kept.push(p.clone());
        }
        i = i + 1;
    }
    assert(paths@.subrange(0, n as int) =~= paths@);
    sort_paths(&mut kept);
    kept
}

} // verus!
