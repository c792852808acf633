//! How arrays that the framework bridge hands over are read: a reported
//! length, and items of which some may be missing.

use vstd::prelude::*;

verus! {

/// The items of `items` that are present, in order.
pub open spec fn present<T>(items: Seq<Option<T>>) -> Seq<T>
    decreases items.len(),
{
    if items.len() == 0 {
        Seq::empty()
    } else {
        let rest = present(items.drop_last());
        match items.last() {
            Some(x) => rest.push(x),
            None => rest,
        }
    }
}

/// The number of items a bridge array reports: a negative length counts as
/// an empty array.
pub fn array_length(raw: isize) -> (r: usize)
    ensures
        r == if raw < 0 { 0 } else { raw as int },
{
    if raw < 0 {
        0
    } else {
        raw as usize
    }
}

/// The items that are present, in order; missing ones are skipped.
pub fn present_items<T>(items: Vec<Option<T>>) -> (r: Vec<T>)
    ensures
        r@ == present(items@),
{
    let ghost all = items@;
    let total = items.len();
    let mut items = items;
    let mut out: Vec<T> = Vec::new();
    let mut taken: usize = 0;
    while items.len() > 0
        invariant
            taken + items@.len() == all.len(),
            all.len() == total,
            items@ == all.subrange(taken as int, all.len() as int),
            out@ == present(all.take(taken as int)),
        decreases items@.len(),
    {
        let item = items.remove(0);
        proof {
            assert(all.take(taken + 1).drop_last() =~= all.take(taken as int));
            assert(all.take(taken + 1).last() == item);
        }
        match item {
            Some(x) => out.push(x),
            None => {},
        }
        taken = taken + 1;
        assert(items@ =~= all.subrange(taken as int, all.len() as int));
    }
    assert(all.take(taken as int) =~= all);
    out
}

} // verus!
