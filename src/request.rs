//! The parts of one upload request that follow from its inputs.

use vstd::prelude::*;
use vstd::string::*;

verus! {

/// The characters of `p` after its last `/` (all of `p` when it has none).
pub open spec fn base_name(p: Seq<char>) -> Seq<char>
    decreases p.len(),
{
    if p.len() == 0 || p.last() == '/' {
        Seq::empty()
    } else {
        base_name(p.drop_last()).push(p.last())
    }
}

/// The file name sent with the upload: the path's base name, or
/// `chart.ksh` when that is empty.
pub open spec fn upload_file_name_of(p: Seq<char>) -> Seq<char> {
    if base_name(p).len() == 0 {
        "chart.ksh"@
    } else {
        base_name(p)
    }
}

/// The file name sent with the upload of the file at `path`.
pub fn upload_file_name(path: &str) -> (r: String)
    ensures
        r@ == upload_file_name_of(path@),
{
    let n = path.unicode_len();
    let mut start: usize = n;
    assert(path@.subrange(n as int, n as int) =~= Seq::<char>::empty());
    assert(path@.subrange(0, n as int) =~= path@);
    assert(base_name(path@) + Seq::<char>::empty() =~= base_name(path@));
    loop
        invariant
            n == path@.len(),
            start <= n,
            base_name(path@) == base_name(path@.subrange(0, start as int)) + path@.subrange(
                start as int,
                n as int,
            ),
        ensures
            start <= n,
            base_name(path@) == path@.subrange(start as int, n as int),
        decreases start,
    {
        if start == 0 || path.get_char(start - 1) == '/' {
            assert(base_name(path@.subrange(0, start as int)) =~= Seq::<char>::empty());
            assert(Seq::<char>::empty() + path@.subrange(start as int, n as int)
                =~= path@.subrange(start as int, n as int));
            break;
        }
        let ghost pre = path@.subrange(0, start as int);
        assert(pre.drop_last() =~= path@.subrange(0, start - 1));
        assert(path@.subrange(start - 1, n as int) =~= seq![pre.last()] + path@.subrange(
            start as int,
            n as int,
        ));
        assert(base_name(pre) == base_name(path@.subrange(0, start - 1)).push(pre.last()));
        assert(base_name(path@.subrange(0, start - 1)).push(pre.last()) + path@.subrange(
            start as int,
            n as int,
        ) =~= base_name(path@.subrange(0, start - 1)) + path@.subrange(start - 1, n as int));
        start = start - 1;
    }
    if start == n {
        String::from_str("chart.ksh")
    } else {
        String::from_str(path.substring_char(start, n))
    }
}

/// The value of the `Authorization` header for a token.
pub open spec fn bearer_of(token: Seq<char>) -> Seq<char> {
    "Bearer "@ + token
}

/// The value of the `Authorization` header for `token`.
pub fn bearer_header(token: &str) -> (r: String)
    ensures
        r@ == bearer_of(token@),
{
    let s = String::from_str("Bearer ");
    s.concat(token)
}

} // verus!
