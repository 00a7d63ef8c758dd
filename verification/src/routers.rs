//! The set of router contracts whose transactions are classified.

use crate::ascii::{
    eq_ignore_ascii_case, lemma_same_ignoring_case_is_equivalence, same_ignoring_case,
};
use vstd::prelude::*;

verus! {

/// The address of the Uniswap V2 router.
pub const UNISWAP_V2_ROUTER: &'static str = "0x7a250d5630B4cF539739dF2C5dAcb4c659F2488D";

/// The address of the Uniswap V3 router.
pub const UNISWAP_V3_ROUTER: &'static str = "0xE592427A0AEce92De3Edee1F18E0157C05861564";

/// Whether one of `addresses` is `candidate`, letter case aside.
pub open spec fn lists_address(addresses: Seq<Seq<char>>, candidate: Seq<char>) -> bool {
    exists|i: int| 0 <= i < addresses.len() && same_ignoring_case(#[trigger] addresses[i], candidate)
}

/// Membership does not depend on letter case: of two texts that differ in
/// the case of their letters only, both are listed or neither is.
pub proof fn lemma_membership_ignores_case(addresses: Seq<Seq<char>>, a: Seq<char>, b: Seq<char>)
    requires
        same_ignoring_case(a, b),
    ensures
        lists_address(addresses, a) == lists_address(addresses, b),
{
    if lists_address(addresses, a) {
        let i = choose|i: int|
            0 <= i < addresses.len() && same_ignoring_case(#[trigger] addresses[i], a);
        lemma_same_ignoring_case_is_equivalence(addresses[i], a, b);
    }
    if lists_address(addresses, b) {
        let i = choose|i: int|
            0 <= i < addresses.len() && same_ignoring_case(#[trigger] addresses[i], b);
        lemma_same_ignoring_case_is_equivalence(a, b, a);
        lemma_same_ignoring_case_is_equivalence(addresses[i], b, a);
    }
}

/// A set of contract addresses.  Membership does not depend on the case of
/// the hexadecimal digits.
pub struct RouterAddressSet {
    addresses: Vec<String>,
}

impl View for RouterAddressSet {
    type V = Seq<Seq<char>>;

    /// The addresses, in the order in which they were added.
    closed spec fn view(&self) -> Seq<Seq<char>> {
        Seq::new(self.addresses@.len(), |i: int| self.addresses@[i]@)
    }
}

impl RouterAddressSet {
    /// Whether `candidate` is a member, letter case aside.
    pub open spec fn has(&self, candidate: Seq<char>) -> bool {
        lists_address(self@, candidate)
    }

    /// The set without members.
    pub fn new() -> (set: Self)
        ensures
            set@ == Seq::<Seq<char>>::empty(),
    {
        RouterAddressSet { addresses: Vec::new() }
    }

    /// Adds one address.
    pub fn insert(&mut self, address: &str)
        ensures
            final(self)@ == old(self)@.push(address@),
    {
        self.addresses.push(address.to_owned());
    }

    /// The two routers that are watched by default.
    pub fn standard() -> (set: Self)
        ensures
            set@ == seq![UNISWAP_V2_ROUTER@, UNISWAP_V3_ROUTER@],
    {
        let mut set = RouterAddressSet::new();
        set.insert(UNISWAP_V2_ROUTER);
        set.insert(UNISWAP_V3_ROUTER);
        set
    }

    /// The number of addresses that were added.
    pub fn len(&self) -> (n: usize)
        ensures
            n == self@.len(),
    {
        self.addresses.len()
    }

    /// Whether `candidate` is a member, letter case aside.
    pub fn contains(&self, candidate: &str) -> (found: bool)
        ensures
            found == self.has(candidate@),
    {
        let mut i: usize = 0;
        while i < self.addresses.len()
            invariant
                i <= self.addresses@.len(),
                forall|j: int| 0 <= j < i ==> !same_ignoring_case(#[trigger] self@[j], candidate@),
            decreases self.addresses@.len() - i,
        {
            if eq_ignore_ascii_case(self.addresses[i].as_str(), candidate) {
                assert(same_ignoring_case(self@[i as int], candidate@));
                return true;
            }
            i += 1;
        }
        false
    }
}

} // verus!
