//! Sets of strings with the FNV hasher, and what is taken on trust of them.

use fnv::FnvHashSet;
use vstd::prelude::*;

verus! {

/// The FNV-1a hasher of the `fnv` crate, carried opaquely as the hasher
/// parameter of the string sets below.
#[verifier::external_type_specification]
#[verifier::external_body]
pub struct ExFnvHasher(fnv::FnvHasher);

/// std's `BuildHasherDefault`, which builds the hasher of each set; it holds
/// no data.
#[verifier::external_type_specification]
#[verifier::external_body]
#[verifier::reject_recursive_types(H)]
pub struct ExBuildHasherDefault<H>(core::hash::BuildHasherDefault<H>);

/// The strings that a set holds, each by its characters.
pub uninterp spec fn set_contents(s: FnvHashSet<String>) -> Set<Seq<char>>;

/// `FnvHashSet::default`: a new set holds nothing.
#[verifier::external_body]
pub(crate) fn set_new() -> (s: FnvHashSet<String>)
    ensures
        set_contents(s) == Set::<Seq<char>>::empty(),
{
    FnvHashSet::default()
}

/// `HashSet::contains`: whether a string equal to `key` is in the set.
#[verifier::external_body]
pub(crate) fn set_contains(s: &FnvHashSet<String>, key: &str) -> (found: bool)
    ensures
        found == set_contents(*s).contains(key@),
{
    s.contains(key)
}

/// `HashSet::insert`: afterwards the set holds `key` besides what it held;
/// the result says whether `key` was new to it. The call does not unwind:
/// hashing and comparing strings cannot panic, and a failed allocation
/// aborts.
#[verifier::external_body]
pub(crate) fn set_insert(s: &mut FnvHashSet<String>, key: String) -> (fresh: bool)
    ensures
        set_contents(*final(s)) == set_contents(*old(s)).insert(key@),
        fresh == !set_contents(*old(s)).contains(key@),
    no_unwind
{
    s.insert(key)
}

/// `HashSet::remove`: afterwards the set holds what it held but `key`; the
/// result says whether `key` was in it. The call does not unwind: hashing
/// and comparing strings cannot panic.
#[verifier::external_body]
pub(crate) fn set_remove(s: &mut FnvHashSet<String>, key: &str) -> (present: bool)
    ensures
        set_contents(*final(s)) == set_contents(*old(s)).remove(key@),
        present == set_contents(*old(s)).contains(key@),
    no_unwind
{
    s.remove(key)
}

/// `HashSet::iter`, each string cloned: the strings of the set, each once, in
/// the order in which the set hands them out, of which nothing is known.
#[verifier::external_body]
pub(crate) fn set_listing(s: &FnvHashSet<String>) -> (keys: Vec<String>)
    ensures
        is_listing(keys.deep_view(), set_contents(*s)),
{
    s.iter().cloned().collect()
}

/// Whether `listing` names every member of `members`, and each of them once.
pub open spec fn is_listing(listing: Seq<Seq<char>>, members: Set<Seq<char>>) -> bool {
    &&& listing.no_duplicates()
    &&& listing.to_set() == members
}

/// Every finite set of content paths can be listed.
pub proof fn lemma_listing_exists(members: Set<Seq<char>>)
    requires
        members.finite(),
    ensures
        exists|listing: Seq<Seq<char>>| is_listing(listing, members),
    decreases members.len(),
{
    if members.len() == 0 {
        let none = Seq::<Seq<char>>::empty();
        assert(none.to_set() =~= members);
        assert(is_listing(none, members));
    } else {
        let first = members.choose();
        lemma_listing_exists(members.remove(first));
        let rest = choose|listing: Seq<Seq<char>>| is_listing(listing, members.remove(first));
        let all = rest.push(first);
        assert(!rest.to_set().contains(first));
        assert(all.to_set() =~= members) by {
            assert forall|k: Seq<char>| all.to_set().contains(k) <==> members.contains(k) by {
                if all.contains(k) {
                    let i = choose|i: int| 0 <= i < all.len() && all[i] == k;
                    if i < rest.len() {
                        assert(rest.contains(k));
                        assert(rest.to_set().contains(k));
                    }
                }
                if members.contains(k) {
                    if k == first {
                        assert(all[rest.len() as int] == k);
                    } else {
                        assert(rest.to_set().contains(k));
                        let i = choose|i: int| 0 <= i < rest.len() && rest[i] == k;
                        assert(all[i] == k);
                    }
                }
            }
        }
        assert(all.no_duplicates()) by {
            assert forall|i: int, j: int| 0 <= i < all.len() && 0 <= j < all.len() && i != j
                implies all[i] != all[j] by {
                if i < rest.len() && j < rest.len() {
                } else if i < rest.len() {
                    assert(rest.contains(rest[i]));
                } else {
                    assert(rest.contains(rest[j]));
                }
            }
        }
        assert(is_listing(all, members));
    }
}

} // verus!
