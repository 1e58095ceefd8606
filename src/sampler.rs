use vstd::prelude::*;

verus! {

/// Produces `count` points in grid order: the point at position `i` is what
/// `point_at` gives for grid index `i`.
pub fn sample<T, F: Fn(usize) -> T>(count: usize, point_at: F) -> (r: Vec<T>)
    requires
        forall|i: usize| i < count ==> #[trigger] point_at.requires((i,)),
    ensures
        r.len() == count,
        forall|i: int| 0 <= i < count ==> point_at.ensures((i as usize,), #[trigger] r[i]),
{
    let mut r: Vec<T> = Vec::with_capacity(count);
    let mut i: usize = 0;
    while i < count
        invariant
            i <= count,
            r.len() == i,
            forall|i: usize| i < count ==> #[trigger] point_at.requires((i,)),
            forall|j: int| 0 <= j < i ==> point_at.ensures((j as usize,), #[trigger] r[j]),
        decreases count - i,
    {
        r.push(point_at(i));
        i = i + 1;
    }
    r
}

} // verus!
