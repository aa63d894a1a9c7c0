//! The bit vector of the `bit-vec` crate, as the parameter table and its
//! watcher use it: a fixed number of flags, set one at a time.

use bit_vec::BitVec;
use vstd::prelude::*;

verus! {

/// `bit_vec::BitVec`, of which only the flags are spoken of.
#[verifier::external_type_specification]
#[verifier::external_body]
#[verifier::reject_recursive_types(B)]
pub struct ExBitVec<B>(BitVec<B>);

/// The flags that a bit vector holds, by index.
pub uninterp spec fn flags(v: BitVec) -> Seq<bool>;

/// Every flag of `s` is set. True of no flags at all.
pub open spec fn all_set(s: Seq<bool>) -> bool {
    forall|i: int| 0 <= i < s.len() ==> s[i]
}

/// `BitVec::new`: a vector of no flags.
#[verifier::external_body]
pub(crate) fn flags_new() -> (v: BitVec)
    ensures
        flags(v) == Seq::<bool>::empty(),
{
    BitVec::new()
}

/// `BitVec::from_elem`: a vector of `len` flags, each equal to `bit`.
#[verifier::external_body]
pub(crate) fn flags_from_elem(len: usize, bit: bool) -> (v: BitVec)
    ensures
        flags(v) == Seq::new(len as nat, |i: int| bit),
{
    BitVec::from_elem(len, bit)
}

/// `BitVec::len`: the number of flags.
#[verifier::external_body]
pub(crate) fn flags_len(v: &BitVec) -> (n: usize)
    ensures
        n == flags(*v).len(),
{
    v.len()
}

/// `BitVec::set`: gives the flag at `i` the value `x` and leaves the others.
/// The crate panics on an index that is not below the length.
#[verifier::external_body]
pub(crate) fn flags_set(v: &mut BitVec, i: usize, x: bool)
    requires
        i < flags(*old(v)).len(),
    ensures
        flags(*final(v)) == flags(*old(v)).update(i as int, x),
{
    v.set(i, x)
}

/// `BitVec::all`: whether every flag is set.
#[verifier::external_body]
pub(crate) fn flags_all(v: &BitVec) -> (r: bool)
    ensures
        r == all_set(flags(*v)),
{
    v.all()
}

/// `BitVec::clone`: a vector of the same flags.
#[verifier::external_body]
pub(crate) fn flags_clone(v: &BitVec) -> (r: BitVec)
    ensures
        flags(r) == flags(*v),
{
    v.clone()
}

} // verus!
