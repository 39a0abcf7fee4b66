//! The list of addresses that a native call with several handles reads.

use smallvec::SmallVec;
use vstd::prelude::*;

verus! {

/// A `smallvec::SmallVec` of addresses, eight of them inline. Nothing of
/// its inside is known here: what it holds is `pointer_list`.
#[verifier::external_body]
pub struct PointerList {
    items: SmallVec<[usize; 8]>,
}

/// The addresses that a list holds, first pushed first.
pub uninterp spec fn pointer_list(list: PointerList) -> Seq<usize>;

/// The longest list that `push` is asked to extend: beyond it the list's
/// growth computes a capacity that no allocation can have.
pub open spec fn max_pointers() -> int {
    (usize::MAX / 32) as int
}

/// `SmallVec::new`: the claim is that a new list holds nothing.
#[verifier::external_body]
pub(crate) fn pointers_new() -> (list: PointerList)
    ensures
        pointer_list(list) == Seq::<usize>::empty(),
{
    PointerList { items: SmallVec::new() }
}

/// `SmallVec::push`: the claim is that the list afterwards holds what it
/// held, in the same order, and then `raw`. Growth doubles the capacity and
/// panics when that overflows, which the bound on the length rules out.
#[verifier::external_body]
pub(crate) fn pointers_push(list: &mut PointerList, raw: usize)
    requires
        pointer_list(*old(list)).len() < max_pointers(),
    ensures
        pointer_list(*final(list)) == pointer_list(*old(list)).push(raw),
{
    list.items.push(raw)
}

/// `SmallVec::into_vec`: the claim is that the vector holds the list's items
/// in the list's order.
#[verifier::external_body]
pub(crate) fn pointers_into_vec(list: PointerList) -> (items: Vec<usize>)
    ensures
        items@ == pointer_list(list),
{
    list.items.into_vec()
}

} // verus!
