use vstd::prelude::*;

use crate::error::RegistryError;

verus! {

// ---------------------------------------------------------------------------
// Wire vocabulary of the pool service.
//
// The pool service itself (its exchange-rate computation, its vaults) is an
// external collaborator; the registry only speaks this request vocabulary
// and consumes the baskets it returns.
// ---------------------------------------------------------------------------

/// The per-share quantity of each underlying asset, as priced by the pool.
/// One item per pool asset: the primary pool holds one asset, the mega pool
/// holds two.
#[derive(Debug)]
pub struct Basket {
    pub quantities: Vec<i64>,
}

/// A creation, redemption or swap against a pool.
#[derive(Debug)]
pub enum PoolAction {
    /// Create pool tokens by depositing assets into the pool.
    Create(u64),
    /// Redeem pool tokens by burning them and receiving assets back.
    Redeem(u64),
    /// Deposit assets into the pool and receive other assets from it.
    Swap(Vec<u64>),
}

/// Parameters for setting up a new pool instance.
#[derive(Debug)]
pub struct InitializePoolRequest {
    pub vault_signer_nonce: u8,
    pub assets_length: u8,
}

/// A request understood by the pool service.
#[derive(Debug)]
pub enum PoolRequest {
    /// Set up a new pool instance.
    Initialize(InitializePoolRequest),
    /// Ask for the creation, redemption or swap basket (read-only valuation).
    GetBasket(PoolAction),
    /// Perform a creation, redemption or swap.
    Transact(PoolAction),
    /// An administrative request; meaning depends on the pool implementation.
    AdminRequest,
    /// An opaque pool-specific request.
    CustomRequest(Vec<u8>),
}

// ---------------------------------------------------------------------------
// Prices: the immutable per-operation snapshot of both pools' baskets.
// ---------------------------------------------------------------------------

/// The exchange rate of both share classes for the duration of one
/// operation: the basket backing one share of the primary pool (one asset)
/// and one share of the mega pool (two assets).
#[derive(Debug)]
pub struct PoolPrices {
    pub basket: Basket,
    pub mega_basket: Basket,
}

/// Multiplies one per-share asset quantity by a share count, refusing the
/// result when it does not fit in a 64-bit balance.
fn scaled(q: i64, spt_amount: u64) -> (r: Option<u64>)
    requires
        0 <= q,
    ensures
        r is Some <==> q * spt_amount <= u64::MAX,
        r matches Some(v) ==> v == q * spt_amount,
{
    proof {
        vstd::arithmetic::mul::lemma_mul_upper_bound(
            q as int,
            u64::MAX as int,
            spt_amount as int,
            u64::MAX as int,
        );
    }
    let p: u128 = (q as u64 as u128) * (spt_amount as u128);
    if p > u64::MAX as u128 {
        None
    } else {
        Some(p as u64)
    }
}

/// The creation basket of a pool with no shares outstanding: to create
/// `spt_amount` shares one deposits exactly `spt_amount` units of the
/// pool's main asset — the last asset of the basket — and nothing else.
/// Pools hold one or two assets; any other shape is refused.
pub fn empty_pool_basket(assets_len: usize, spt_amount: u64) -> (r: Result<Basket, RegistryError>)
    requires
        spt_amount <= i64::MAX,
    ensures
        r is Ok <==> (assets_len == 1 || assets_len == 2),
        r matches Err(e) ==> e == RegistryError::InvalidState,
        r matches Ok(b) ==> if assets_len == 1 {
            b.quantities@.len() == 1 && b.quantities@[0] == spt_amount
        } else {
            b.quantities@.len() == 2 && b.quantities@[0] == 0 && b.quantities@[1] == spt_amount
        },
{
    if assets_len == 1 {
        let mut quantities: Vec<i64> = Vec::new();
        quantities.push(spt_amount as i64);
        Ok(Basket { quantities })
    } else if assets_len == 2 {
        let mut quantities: Vec<i64> = Vec::new();
        quantities.push(0i64);
        quantities.push(spt_amount as i64);
        Ok(Basket { quantities })
    } else {
        Err(RegistryError::InvalidState)
    }
}

/// Share worth is a product of nonnegative quantities and can never be
/// negative.
pub proof fn lemma_srm_equivalent_nonneg(prices: PoolPrices, spt_amount: u64, mega: bool)
    requires
        prices.well_formed(),
    ensures
        prices.spec_srm_equivalent(spt_amount, mega) >= 0,
{
    if mega {
        vstd::arithmetic::mul::lemma_mul_nonnegative(
            prices.mega_srm_per_spt() + prices.msrm_per_spt(),
            spt_amount as int,
        );
    } else {
        vstd::arithmetic::mul::lemma_mul_nonnegative(prices.srm_per_spt(), spt_amount as int);
    }
}

impl PoolPrices {
    /// Shape of a valid price snapshot: the primary basket prices a single
    /// asset, the mega basket prices two, and no quantity is negative.
    pub open spec fn well_formed(&self) -> bool {
        &&& self.basket.quantities@.len() == 1
        &&& self.mega_basket.quantities@.len() == 2
        &&& 0 <= self.basket.quantities@[0]
        &&& 0 <= self.mega_basket.quantities@[0]
        &&& 0 <= self.mega_basket.quantities@[1]
    }

    /// Primary asset units backing one primary pool share.
    pub open spec fn srm_per_spt(&self) -> int {
        self.basket.quantities@[0] as int
    }

    /// Primary asset units backing one mega pool share.
    pub open spec fn mega_srm_per_spt(&self) -> int {
        self.mega_basket.quantities@[0] as int
    }

    /// Mega asset units backing one mega pool share.
    pub open spec fn msrm_per_spt(&self) -> int {
        self.mega_basket.quantities@[1] as int
    }

    /// Whether every asset cost of `spt_amount` shares of the chosen class
    /// fits in a 64-bit balance.
    pub open spec fn basket_cost_ok(&self, spt_amount: u64, mega: bool) -> bool {
        if mega {
            self.mega_srm_per_spt() * spt_amount <= u64::MAX
                && self.msrm_per_spt() * spt_amount <= u64::MAX
        } else {
            self.srm_per_spt() * spt_amount <= u64::MAX
        }
    }

    /// The combined underlying-asset quantity backing `spt_amount` shares of
    /// the chosen class, in common units.
    pub open spec fn spec_srm_equivalent(&self, spt_amount: u64, mega: bool) -> int {
        if mega {
            (self.mega_srm_per_spt() + self.msrm_per_spt()) * spt_amount
        } else {
            self.srm_per_spt() * spt_amount
        }
    }

    /// Runtime test of `well_formed`, for callers that receive baskets from
    /// outside and must validate them before relying on them.
    pub fn check_well_formed(&self) -> (r: bool)
        ensures
            r == self.well_formed(),
    {
        self.basket.quantities.len() == 1 && self.mega_basket.quantities.len() == 2
            && self.basket.quantities[0] >= 0 && self.mega_basket.quantities[0] >= 0
            && self.mega_basket.quantities[1] >= 0
    }

    pub fn new(basket: Basket, mega_basket: Basket) -> (r: PoolPrices)
        requires
            basket.quantities@.len() == 1,
            mega_basket.quantities@.len() == 2,
            0 <= basket.quantities@[0],
            0 <= mega_basket.quantities@[0],
            0 <= mega_basket.quantities@[1],
        ensures
            r == (PoolPrices { basket, mega_basket }),
            r.well_formed(),
    {
        PoolPrices { basket, mega_basket }
    }

    /// The asset quantities one must pay for (or receives back from)
    /// `spt_amount` shares of the chosen class: one quantity for the primary
    /// class, two for the mega class. Fails only when a quantity does not
    /// fit in a 64-bit balance.
    pub fn basket_quantities(&self, spt_amount: u64, mega: bool) -> (r: Result<
        Vec<u64>,
        RegistryError,
    >)
        requires
            self.well_formed(),
        ensures
            r is Ok <==> self.basket_cost_ok(spt_amount, mega),
            r matches Err(e) ==> e == RegistryError::CheckedFailure,
            r matches Ok(q) ==> if mega {
                q@.len() == 2 && q@[0] == self.mega_srm_per_spt() * spt_amount && q@[1]
                    == self.msrm_per_spt() * spt_amount
            } else {
                q@.len() == 1 && q@[0] == self.srm_per_spt() * spt_amount
            },
    {
        if mega {
            let q0 = match scaled(self.mega_basket.quantities[0], spt_amount) {
                Some(v) => v,
                None => {
                    return Err(RegistryError::CheckedFailure);
                },
            };
            let q1 = match scaled(self.mega_basket.quantities[1], spt_amount) {
                Some(v) => v,
                None => {
                    return Err(RegistryError::CheckedFailure);
                },
            };
            let mut out: Vec<u64> = Vec::new();
            out.push(q0);
            out.push(q1);
            Ok(out)
        } else {
            let q0 = match scaled(self.basket.quantities[0], spt_amount) {
                Some(v) => v,
                None => {
                    return Err(RegistryError::CheckedFailure);
                },
            };
            let mut out: Vec<u64> = Vec::new();
            out.push(q0);
            Ok(out)
        }
    }

    /// Common-unit worth of `spt_amount` shares of the chosen class. Fails
    /// only when the worth does not fit in a 64-bit balance.
    pub fn srm_equivalent(&self, spt_amount: u64, mega: bool) -> (r: Result<u64, RegistryError>)
        requires
            self.well_formed(),
        ensures
            r is Ok <==> self.spec_srm_equivalent(spt_amount, mega) <= u64::MAX,
            r matches Ok(v) ==> v == self.spec_srm_equivalent(spt_amount, mega),
            r matches Err(e) ==> e == RegistryError::CheckedFailure,
    {
        if mega {
            proof {
                vstd::arithmetic::mul::lemma_mul_upper_bound(
                    self.mega_srm_per_spt(),
                    u64::MAX as int,
                    spt_amount as int,
                    u64::MAX as int,
                );
                vstd::arithmetic::mul::lemma_mul_upper_bound(
                    self.msrm_per_spt(),
                    u64::MAX as int,
                    spt_amount as int,
                    u64::MAX as int,
                );
                vstd::arithmetic::mul::lemma_mul_is_distributive_add_other_way(
                    spt_amount as int,
                    self.mega_srm_per_spt(),
                    self.msrm_per_spt(),
                );
            }
            let p0: u128 = (self.mega_basket.quantities[0] as u64 as u128) * (spt_amount as u128);
            let p1: u128 = (self.mega_basket.quantities[1] as u64 as u128) * (spt_amount as u128);
            if p0 > u64::MAX as u128 {
                Err(RegistryError::CheckedFailure)
            } else if p1 > u64::MAX as u128 - p0 {
                Err(RegistryError::CheckedFailure)
            } else {
                Ok((p0 + p1) as u64)
            }
        } else {
            proof {
                vstd::arithmetic::mul::lemma_mul_upper_bound(
                    self.srm_per_spt(),
                    u64::MAX as int,
                    spt_amount as int,
                    u64::MAX as int,
                );
            }
            let p0: u128 = (self.basket.quantities[0] as u64 as u128) * (spt_amount as u128);
            if p0 > u64::MAX as u128 {
                Err(RegistryError::CheckedFailure)
            } else {
                Ok(p0 as u64)
            }
        }
    }
}

} // verus!
