use vstd::prelude::*;

use crate::keys::Pubkey;
use crate::pool::PoolPrices;

verus! {

/// The exchange-rate basket of an entity, frozen at the moment the entity
/// last went inactive, keyed by (entity, generation).
///
/// Members withdrawing against a superseded generation are paid out of this
/// frozen basket rather than the live one, so they are not credited with
/// reward growth that accrued after their entity deactivated. The record is
/// created by the first member to start a withdrawal against the stale
/// generation, is read-only thereafter, and is never deleted.
#[derive(Debug)]
pub struct Generation {
    /// Set on creation.
    pub initialized: bool,
    /// The entity this snapshot belongs to.
    pub entity: Pubkey,
    /// The superseded generation this snapshot freezes.
    pub generation: u64,
    /// The basket in effect when the entity went inactive.
    pub last_active_prices: PoolPrices,
}

impl Generation {
    pub open spec fn well_formed(&self) -> bool {
        self.initialized && self.last_active_prices.well_formed()
    }

    pub fn new(entity: Pubkey, generation: u64, last_active_prices: PoolPrices) -> (g: Generation)
        requires
            last_active_prices.well_formed(),
        ensures
            g == (Generation { initialized: true, entity, generation, last_active_prices }),
            g.well_formed(),
    {
        Generation { initialized: true, entity, generation, last_active_prices }
    }
}

} // verus!
