use vstd::prelude::*;

verus! {

/// The value a slot holds after a commit: the new value when the attempt
/// produced one, the old value otherwise.
pub open spec fn committed<T>(current: T, attempt: Option<T>) -> T {
    match attempt {
        Some(v) => v,
        None => current,
    }
}

/// Replaces `*slot` with the attempted value if there is one and leaves it
/// untouched otherwise. Returns whether the slot was replaced.
pub fn commit_or_keep<T>(slot: &mut T, attempt: Option<T>) -> (replaced: bool)
    ensures
        replaced == attempt.is_some(),
        *final(slot) == committed(*old(slot), attempt),
{
    match attempt {
        Some(v) => {
            *slot = v;
            true
        },
        None => false,
    }
}

} // verus!
