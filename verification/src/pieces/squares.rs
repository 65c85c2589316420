use vstd::prelude::*;

verus! {

/// The absolute value of `x`.
pub open spec fn magnitude(x: int) -> int {
    if x < 0 {
        -x
    } else {
        x
    }
}

/// `after` starts with the whole of `before`, in the same order.
pub open spec fn keeps_prefix(before: Seq<(usize, usize)>, after: Seq<(usize, usize)>) -> bool {
    &&& before.len() <= after.len()
    &&& forall|i: int| 0 <= i < before.len() ==> after[i] == before[i]
}

/// Appends `pos` to a list that does not hold it yet.
pub fn push_new(out: &mut Vec<(usize, usize)>, pos: (usize, usize))
    requires
        old(out)@.no_duplicates(),
        !old(out)@.contains(pos),
    ensures
        final(out)@ == old(out)@.push(pos),
        final(out)@.no_duplicates(),
        forall|d: (usize, usize)| #[trigger]
            final(out)@.contains(d) <==> old(out)@.contains(d) || d == pos,
{
    out.push(pos);
    proof {
        let before = old(out)@;
        let after = out@;
        assert(after[before.len() as int] == pos);
        assert forall|d: (usize, usize)| #[trigger]
            after.contains(d) <==> before.contains(d) || d == pos by {
            if before.contains(d) {
                let i = choose|i: int| 0 <= i < before.len() && before[i] == d;
                assert(after[i] == d);
            }
        }
    }
}

/// Whether the list holds `pos`.
pub fn contains_square(list: &Vec<(usize, usize)>, pos: (usize, usize)) -> (found: bool)
    ensures
        found == list@.contains(pos),
{
    let mut i: usize = 0;
    while i < list.len()
        invariant
            i <= list.len(),
            forall|k: int| 0 <= k < i ==> list@[k] != pos,
        decreases list.len() - i,
    {
        let here = list[i];
        if here.0 == pos.0 && here.1 == pos.1 {
            return true;
        }
        i += 1;
    }
    false
}

} // verus!
