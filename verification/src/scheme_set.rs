//! The set of allowed schemes, an `ahash::AHashSet` of strings, seen by its contents.

use vstd::prelude::*;

use ahash::AHashSet;

verus! {

#[verifier::external_type_specification]
#[verifier::external_body]
#[verifier::reject_recursive_types(T)]
#[verifier::reject_recursive_types(S)]
pub struct ExAHashSet<T, S>(AHashSet<T, S>);

#[verifier::external_type_specification]
#[verifier::external_body]
pub struct ExRandomState(ahash::RandomState);

/// The strings that an `AHashSet<String>` holds.
pub uninterp spec fn scheme_set_contents(set: AHashSet<String>) -> Set<Seq<char>>;

/// `AHashSet::new()`: an empty set.
#[verifier::external_body]
pub(crate) fn scheme_set_new() -> (r: AHashSet<String>)
    ensures
        scheme_set_contents(r) == Set::<Seq<char>>::empty(),
{
    AHashSet::new()
}

/// `HashSet::insert` through `AHashSet`'s `DerefMut`: the set then holds the item too.
#[verifier::external_body]
pub(crate) fn scheme_set_insert(set: &mut AHashSet<String>, item: String)
    ensures
        scheme_set_contents(*final(set)) == scheme_set_contents(*old(set)).insert(item@),
{
    set.insert(item);
}

/// `HashSet::contains` through `AHashSet`'s `Deref`: whether the set holds the string.
#[verifier::external_body]
pub(crate) fn scheme_set_contains(set: &AHashSet<String>, item: &str) -> (r: bool)
    ensures
        r == scheme_set_contents(*set).contains(item@),
{
    set.contains(item)
}

} // verus!
