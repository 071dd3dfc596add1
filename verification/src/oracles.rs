//! The oracles to watch: for each reserve of the lending protocol, the
//! aggregator contract that its price comes from.
//!
//! The registry is asked on chain, reserve by reserve. Some reserves have no
//! aggregator: the protocol's base currency has none, and a lookup may fail.
//! Such a reserve is left out and the others are kept.

use crate::primitives::Address;
use vstd::prelude::*;

verus! {

/// The oracle of one asset.
#[derive(Clone, Debug, PartialEq, Eq)]
pub struct Oracle {
    /// The symbol of the asset.
    pub asset: String,
    /// The address of the aggregator that writes its price.
    pub address: Address,
}

/// A reserve of the lending protocol and what the registry said of its
/// oracle.
#[derive(Clone, Debug, PartialEq, Eq)]
pub struct Reserve {
    /// The symbol of the reserve's token.
    pub symbol: String,
    /// The address of the reserve's token.
    pub token_address: Address,
    /// The aggregator behind the reserve's price, where one was found.
    pub aggregator: Option<Address>,
}

/// What the registry said of each reserve, in the order of its list.
#[derive(Clone, Debug, PartialEq, Eq)]
pub struct Oracles {
    /// The reserves.
    pub reserves: Vec<Reserve>,
}

/// The oracles among `reserves`: one for each reserve that has an
/// aggregator, in the order of the reserves.
pub open spec fn oracles_among(reserves: Seq<Reserve>) -> Seq<Oracle>
    decreases reserves.len(),
{
    if reserves.len() == 0 {
        Seq::empty()
    } else {
        let before = oracles_among(reserves.drop_last());
        match reserves.last().aggregator {
            Some(address) => before.push(Oracle { asset: reserves.last().symbol, address }),
            None => before,
        }
    }
}

impl Oracles {
    /// The registry's answers about `reserves`.
    pub fn new(reserves: Vec<Reserve>) -> (oracles: Oracles)
        ensures
            oracles.reserves == reserves,
    {
        Oracles { reserves }
    }

    /// The oracles of all reserves that have one, in the order of the
    /// reserves.
    pub fn find_all(&self) -> (oracles: Vec<Oracle>)
        ensures
            oracles@ == oracles_among(self.reserves@),
    {
        let mut oracles: Vec<Oracle> = Vec::new();
        let count = self.reserves.len();
        let mut index: usize = 0;
        while index < count
            invariant
                count == self.reserves@.len(),
                index <= count,
                oracles@ == oracles_among(self.reserves@.take(index as int)),
            decreases count - index,
        {
            let reserve = &self.reserves[index];
            proof {
                let upto = self.reserves@.take(index + 1);
                assert(upto.drop_last() == self.reserves@.take(index as int));
                assert(upto.last() == self.reserves@[index as int]);
            }
            match reserve.aggregator {
                Some(address) => {
                    oracles.push(Oracle { asset: reserve.symbol.clone(), address });
                },
                None => {},
            }
            index += 1;
        }
        assert(self.reserves@.take(count as int) == self.reserves@);
        oracles
    }
}

/// Every oracle that is found belongs to a reserve with that symbol and
/// that aggregator, and no more oracles are found than there are reserves.
pub proof fn lemma_oracles_come_from_reserves(reserves: Seq<Reserve>)
    ensures
        oracles_among(reserves).len() <= reserves.len(),
        forall|i: int|
            0 <= i < oracles_among(reserves).len() ==> exists|j: int|
                0 <= j < reserves.len() && reserves[j].symbol == (#[trigger] oracles_among(
                    reserves,
                )[i]).asset && reserves[j].aggregator == Some(oracles_among(reserves)[i].address),
    decreases reserves.len(),
{
    if reserves.len() > 0 {
        let init = reserves.drop_last();
        lemma_oracles_come_from_reserves(init);
        let found = oracles_among(reserves);
        assert forall|i: int| 0 <= i < found.len() implies exists|j: int|
            0 <= j < reserves.len() && reserves[j].symbol == (#[trigger] found[i]).asset
                && reserves[j].aggregator == Some(found[i].address) by {
            if i < oracles_among(init).len() {
                assert(found[i] == oracles_among(init)[i]);
                let j = choose|j: int|
                    0 <= j < init.len() && init[j].symbol == oracles_among(init)[i].asset
                        && init[j].aggregator == Some(oracles_among(init)[i].address);
                assert(reserves[j] == init[j]);
            } else {
                let j = reserves.len() - 1;
                assert(reserves[j] == reserves.last());
            }
        }
    }
}

/// Where every reserve has an aggregator, every reserve has an oracle.
pub proof fn lemma_all_resolved_all_found(reserves: Seq<Reserve>)
    requires
        forall|j: int| 0 <= j < reserves.len() ==> (#[trigger] reserves[j]).aggregator is Some,
    ensures
        oracles_among(reserves).len() == reserves.len(),
    decreases reserves.len(),
{
    if reserves.len() > 0 {
        let init = reserves.drop_last();
        assert forall|j: int| 0 <= j < init.len() implies (#[trigger] init[j]).aggregator
            is Some by {
            assert(init[j] == reserves[j]);
        }
        lemma_all_resolved_all_found(init);
    }
}

} // verus!
