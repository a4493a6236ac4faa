//! Path names.

use vstd::prelude::*;
use vstd::slice::slice_subrange;
use vstd::slice::slice_to_vec;

verus! {

/// `path` without the slashes that end it.
pub open spec fn trim_slashes(path: Seq<u8>) -> Seq<u8>
    decreases path.len(),
{
    if path.len() > 0 && path.last() == 0x2f {
        trim_slashes(path.drop_last())
    } else {
        path
    }
}

/// What stands behind the last slash of `path`.
pub open spec fn last_component(path: Seq<u8>) -> Seq<u8>
    decreases path.len(),
{
    if path.len() == 0 || path.last() == 0x2f {
        Seq::empty()
    } else {
        last_component(path.drop_last()).push(path.last())
    }
}

/// The final component of `path`: `.` for the empty path, `/` for a path of
/// slashes only, and else what stands between the last slash and the
/// slashes that end the path.
pub open spec fn spec_basename(path: Seq<u8>) -> Seq<u8> {
    if path.len() == 0 {
        seq![0x2eu8]
    } else if trim_slashes(path).len() == 0 {
        seq![0x2fu8]
    } else {
        last_component(trim_slashes(path))
    }
}

/// The final component of `path`.
pub fn basename(path: &[u8]) -> (name: Vec<u8>)
    ensures
        name@ == spec_basename(path@),
{
    let mut name: Vec<u8> = Vec::new();
    if path.len() == 0 {
        name.push(0x2e);
        assert(name@ =~= seq![0x2eu8]);
        return name;
    }
    let mut end: usize = path.len();
    assert(path@.take(end as int) =~= path@);
    while end > 0 && path[end - 1] == 0x2f
        invariant
            end <= path@.len(),
            trim_slashes(path@) == trim_slashes(path@.take(end as int)),
        decreases end,
    {
        assert(path@.take(end as int).drop_last() =~= path@.take(end - 1));
        end -= 1;
    }
    let ghost trimmed = path@.take(end as int);
    assert(trim_slashes(trimmed) == trimmed);
    if end == 0 {
        name.push(0x2f);
        assert(name@ =~= seq![0x2fu8]);
        return name;
    }
    let mut begin: usize = end;
    proof {
        assert(trimmed.take(end as int) =~= trimmed);
        assert(last_component(trimmed) + trimmed.subrange(end as int, end as int)
            =~= last_component(trimmed));
    }
    while begin > 0 && path[begin - 1] != 0x2f
        invariant
            begin <= end <= path@.len(),
            trimmed == path@.take(end as int),
            last_component(trimmed) == last_component(trimmed.take(begin as int))
                + trimmed.subrange(begin as int, end as int),
        decreases begin,
    {
        proof {
            let head = trimmed.take(begin as int);
            assert(head.drop_last() =~= trimmed.take(begin - 1));
            assert(last_component(head) == last_component(head.drop_last()).push(head.last()));
            assert(last_component(head.drop_last()).push(head.last()) + trimmed.subrange(
                begin as int,
                end as int,
            ) =~= last_component(trimmed.take(begin - 1)) + trimmed.subrange(
                begin - 1,
                end as int,
            ));
        }
        begin -= 1;
    }
    proof {
        assert(trimmed.take(end as int) =~= trimmed);
        assert(last_component(trimmed.take(begin as int)) =~= Seq::<u8>::empty());
        assert(Seq::<u8>::empty() + trimmed.subrange(begin as int, end as int)
            =~= path@.subrange(begin as int, end as int));
    }
    slice_to_vec(slice_subrange(path, begin, end))
}

} // verus!
