use vstd::prelude::*;

use crate::market::{Configuration, Initialize, Market};
use crate::types::{ErrorCode, Key};

verus! {

/// All the markets, at most one per stablecoin.
pub struct Registry {
    pub markets: Vec<Market>,
}

impl Registry {
    pub open spec fn has_market(&self, mint: Key) -> bool {
        exists|i: int|
            0 <= i < self.markets@.len() && (#[trigger] self.markets@[i]).config.stablecoin_mint
                == mint
    }

    /// Every market is well formed, and no two share a stablecoin.
    pub open spec fn wf(&self) -> bool {
        &&& forall|i: int| 0 <= i < self.markets@.len() ==> (#[trigger] self.markets@[i]).wf()
        &&& forall|i: int, j: int|
            0 <= i < j < self.markets@.len() ==> (#[trigger] self.markets@[i]).config.stablecoin_mint
                != (#[trigger] self.markets@[j]).config.stablecoin_mint
    }

    pub fn new() -> (r: Registry)
        ensures
            r.wf(),
            r.markets@.len() == 0,
    {
        Registry { markets: Vec::new() }
    }

    /// Index of the market of stablecoin `mint`, if there is one.
    pub fn find_market(&self, mint: Key) -> (r: Option<usize>)
        ensures
            match r {
                Some(i) => i < self.markets@.len() && self.markets@[i as int].config.stablecoin_mint
                    == mint,
                None => !self.has_market(mint),
            },
    {
        let mut j: usize = 0;
        while j < self.markets.len()
            invariant
                j <= self.markets@.len(),
                forall|k: int| 0 <= k < j ==> (#[trigger] self.markets@[k]).config.stablecoin_mint != mint,
            decreases self.markets@.len() - j,
        {
            if self.markets[j].config.stablecoin_mint == mint {
                return Some(j);
            }
            j = j + 1;
        }
        None
    }

}

/// Creates the market of stablecoin `ctx.stablecoin_mint` with fee
/// `fee_pt` and returns its index.
pub fn initialize(registry: &mut Registry, ctx: &Initialize, fee_pt: u8) -> (r: Result<usize, ErrorCode>)
    requires
        old(registry).wf(),
    ensures
        final(registry).wf(),
        match r {
            Ok(i) => {
                &&& !old(registry).has_market(ctx.stablecoin_mint)
                &&& i == old(registry).markets@.len()
                &&& final(registry).markets@.len() == i + 1
                &&& forall|k: int|
                    0 <= k < i ==> #[trigger] final(registry).markets@[k] == old(registry).markets@[k]
                &&& final(registry).markets@[i as int].config == (Configuration {
                    stablecoin_mint: ctx.stablecoin_mint,
                    stablecoin_vault: ctx.stablecoin_vault,
                    order_id: 0,
                    total_additional_collateral: 0,
                    fee_pt,
                })
                &&& final(registry).markets@[i as int].orders@.len() == 0
            },
            Err(e) => {
                &&& old(registry).has_market(ctx.stablecoin_mint)
                &&& e == ErrorCode::AlreadyInitialized
                &&& *final(registry) == *old(registry)
            },
        },
{
    match registry.find_market(ctx.stablecoin_mint) {
        Some(_) => Err(ErrorCode::AlreadyInitialized),
        None => {
            let i = registry.markets.len();
            registry.markets.push(Market::new(ctx, fee_pt));
            proof {
                assert forall|k: int| 0 <= k < i implies registry.markets@[k].config.stablecoin_mint
                    != ctx.stablecoin_mint by {
                    assert(old(registry).markets@[k] == registry.markets@[k]);
                }
            }
            Ok(i)
        },
    }
}

} // verus!
