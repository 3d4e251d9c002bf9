use vstd::prelude::*;

use crate::error::RegistryError;
use crate::keys::Pubkey;
use crate::pool::PoolPrices;

verus! {

/// Cost basis of one sub-ledger: the amount deposited into the member, per
/// share class, before any rewards. Funds up to this amount must always
/// remain recoverable by the sub-ledger's owner.
#[derive(Clone, Copy, Debug, PartialEq, Eq, Structural)]
pub struct Balances {
    pub deposit: u64,
    pub mega_deposit: u64,
}

impl Balances {
    pub fn is_empty(&self) -> (r: bool)
        ensures
            r == (self.deposit == 0 && self.mega_deposit == 0),
    {
        self.deposit == 0 && self.mega_deposit == 0
    }
}

/// One sub-ledger of a member: who owns it and its cost basis.
#[derive(Clone, Copy, Debug, PartialEq, Eq, Structural)]
pub struct Book {
    pub owner: Pubkey,
    pub balances: Balances,
}

/// The balance subaccounts partitioning a member's stake:
/// unstaked balances pending staking, issued pool-share counts, and the
/// beneficiary-owned (`main`) and custodian-owned (`delegate`) sub-ledgers.
#[derive(Clone, Copy, Debug, PartialEq, Eq, Structural)]
pub struct MemberBooks {
    /// Issued shares of the primary pool.
    pub spt_amount: u64,
    /// Issued shares of the mega pool.
    pub spt_mega_amount: u64,
    /// Primary asset units awaiting staking.
    pub stake_intent: u64,
    /// Mega asset units awaiting staking.
    pub mega_stake_intent: u64,
    /// The beneficiary's own sub-ledger.
    pub main: Book,
    /// Sub-ledger owned by an external custodian (e.g. a vesting program).
    /// Operations on it must be approved by both the custodian and the
    /// beneficiary; its cost basis must always remain fully recoverable.
    pub delegate: Book,
}

impl MemberBooks {
    pub open spec fn spec_new(beneficiary: Pubkey, delegate: Pubkey) -> MemberBooks {
        MemberBooks {
            spt_amount: 0,
            spt_mega_amount: 0,
            stake_intent: 0,
            mega_stake_intent: 0,
            main: Book { owner: beneficiary, balances: Balances { deposit: 0, mega_deposit: 0 } },
            delegate: Book {
                owner: delegate,
                balances: Balances { deposit: 0, mega_deposit: 0 },
            },
        }
    }

    pub fn new(beneficiary: Pubkey, delegate: Pubkey) -> (r: MemberBooks)
        ensures
            r == MemberBooks::spec_new(beneficiary, delegate),
    {
        MemberBooks {
            spt_amount: 0,
            spt_mega_amount: 0,
            stake_intent: 0,
            mega_stake_intent: 0,
            main: Book { owner: beneficiary, balances: Balances { deposit: 0, mega_deposit: 0 } },
            delegate: Book {
                owner: delegate,
                balances: Balances { deposit: 0, mega_deposit: 0 },
            },
        }
    }

    pub fn delegate(&self) -> (r: &Book)
        ensures
            *r == self.delegate,
    {
        &self.delegate
    }

    pub fn main(&self) -> (r: &Book)
        ensures
            *r == self.main,
    {
        &self.main
    }
}

/// A participant's staking account within one registry: its keys, the
/// entity generation its stake belongs to, and its books.
#[derive(Clone, Copy, Debug, PartialEq, Eq, Structural)]
pub struct Member {
    /// Set on creation.
    pub initialized: bool,
    /// Registrar the member belongs to.
    pub registrar: Pubkey,
    /// Entity account providing membership.
    pub entity: Pubkey,
    /// The key allowed to redeem assets from the staking pool.
    pub beneficiary: Pubkey,
    /// The entity's activation counter to which the current stake belongs.
    pub generation: u64,
    /// The balance subaccounts partitioning the member's stake.
    pub books: MemberBooks,
}

impl Member {
    pub open spec fn spec_new(
        registrar: Pubkey,
        entity: Pubkey,
        beneficiary: Pubkey,
        delegate: Pubkey,
    ) -> Member {
        Member {
            initialized: true,
            registrar,
            entity,
            beneficiary,
            generation: 0,
            books: MemberBooks::spec_new(beneficiary, delegate),
        }
    }

    /// A freshly joined member: generation zero and empty books.
    pub fn new(registrar: Pubkey, entity: Pubkey, beneficiary: Pubkey, delegate: Pubkey) -> (m:
        Member)
        ensures
            m == Member::spec_new(registrar, entity, beneficiary, delegate),
    {
        Member {
            initialized: true,
            registrar,
            entity,
            beneficiary,
            generation: 0,
            books: MemberBooks::new(beneficiary, delegate),
        }
    }

    /// Current primary-asset value reachable by this member: the worth of
    /// all issued shares in primary units plus the unstaked primary balance.
    pub open spec fn srm_holdings(&self, prices: PoolPrices) -> int {
        prices.srm_per_spt() * self.books.spt_amount + prices.mega_srm_per_spt()
            * self.books.spt_mega_amount + self.books.stake_intent
    }

    /// Current mega-asset value reachable by this member.
    pub open spec fn msrm_holdings(&self, prices: PoolPrices) -> int {
        prices.msrm_per_spt() * self.books.spt_mega_amount + self.books.mega_stake_intent
    }

    /// What `can_afford` returns: the exact asset cost of `spt_amount`
    /// shares must be covered by the unstaked balances.
    pub open spec fn spec_can_afford(
        &self,
        prices: PoolPrices,
        spt_amount: u64,
        mega: bool,
    ) -> Result<bool, RegistryError> {
        if !prices.basket_cost_ok(spt_amount, mega) {
            Err(RegistryError::CheckedFailure)
        } else if mega {
            if self.books.stake_intent < prices.mega_srm_per_spt() * spt_amount {
                Err(RegistryError::InsufficientStakeIntentBalance)
            } else if self.books.mega_stake_intent < prices.msrm_per_spt() * spt_amount {
                Err(RegistryError::InsufficientStakeIntentBalance)
            } else {
                Ok(true)
            }
        } else {
            if self.books.stake_intent < prices.srm_per_spt() * spt_amount {
                Err(RegistryError::InsufficientStakeIntentBalance)
            } else {
                Ok(true)
            }
        }
    }

    /// Whether the member can pay for `spt_amount` pool shares of the chosen
    /// class out of its unstaked balances, at the given prices. Never
    /// returns `Ok(false)`: refusal is always an error.
    pub fn can_afford(&self, prices: &PoolPrices, spt_amount: u64, mega: bool) -> (r: Result<
        bool,
        RegistryError,
    >)
        requires
            prices.well_formed(),
        ensures
            r == self.spec_can_afford(*prices, spt_amount, mega),
    {
        let purchase_price = match prices.basket_quantities(spt_amount, mega) {
            Ok(q) => q,
            Err(e) => {
                return Err(e);
            },
        };
        if self.books.stake_intent < purchase_price[0] {
            return Err(RegistryError::InsufficientStakeIntentBalance);
        }
        if mega {
            if self.books.mega_stake_intent < purchase_price[1] {
                return Err(RegistryError::InsufficientStakeIntentBalance);
            }
        }
        Ok(true)
    }

    /// What `can_withdraw` returns: the withdrawal must be covered by the
    /// unstaked balance of its class, and — unless the requester is the
    /// delegate — the value remaining afterwards must still cover the
    /// delegate's cost basis.
    pub open spec fn spec_can_withdraw(
        &self,
        prices: PoolPrices,
        amount: u64,
        mega: bool,
        owner: Pubkey,
    ) -> Result<bool, RegistryError> {
        if !prices.basket_cost_ok(self.books.spt_amount, false) || !prices.basket_cost_ok(
            self.books.spt_mega_amount,
            true,
        ) {
            Err(RegistryError::CheckedFailure)
        } else {
            let is_delegate = owner == self.books.delegate.owner;
            if mega {
                if amount > self.books.mega_stake_intent {
                    Err(RegistryError::InsufficientStakeIntentBalance)
                } else if !is_delegate && self.msrm_holdings(prices) - amount
                    < self.books.delegate.balances.mega_deposit {
                    Err(RegistryError::InsufficientBalance)
                } else {
                    Ok(true)
                }
            } else {
                if amount > self.books.stake_intent {
                    Err(RegistryError::InsufficientStakeIntentBalance)
                } else if !is_delegate && self.srm_holdings(prices) - amount
                    < self.books.delegate.balances.deposit {
                    Err(RegistryError::InsufficientBalance)
                } else {
                    Ok(true)
                }
            }
        }
    }

    /// Whether `amount` of the chosen class can be withdrawn to a token
    /// account owned by `owner`, at the given prices. All value placed by
    /// the delegate must eventually be able to flow back to it, so a
    /// non-delegate withdrawal may not eat into the delegate's cost basis;
    /// the delegate itself is not constrained by its own basis.
    pub fn can_withdraw(&self, prices: &PoolPrices, amount: u64, mega: bool, owner: Pubkey) -> (r:
        Result<bool, RegistryError>)
        requires
            prices.well_formed(),
        ensures
            r == self.spec_can_withdraw(*prices, amount, mega, owner),
    {
        let is_delegate = self.books.delegate.owner == owner;

        // Current valuation of the issued shares, priced per asset.
        let basket = match prices.basket_quantities(self.books.spt_amount, false) {
            Ok(q) => q,
            Err(e) => {
                return Err(e);
            },
        };
        let mega_basket = match prices.basket_quantities(self.books.spt_mega_amount, true) {
            Ok(q) => q,
            Err(e) => {
                return Err(e);
            },
        };

        if mega {
            if amount > self.books.mega_stake_intent {
                return Err(RegistryError::InsufficientStakeIntentBalance);
            }
            if !is_delegate {
                let remaining_msrm: u128 = mega_basket[1] as u128
                    + (self.books.mega_stake_intent - amount) as u128;
                if remaining_msrm < self.books.delegate.balances.mega_deposit as u128 {
                    return Err(RegistryError::InsufficientBalance);
                }
            }
        } else {
            if amount > self.books.stake_intent {
                return Err(RegistryError::InsufficientStakeIntentBalance);
            }
            if !is_delegate {
                let remaining_srm: u128 = basket[0] as u128 + mega_basket[0] as u128
                    + (self.books.stake_intent - amount) as u128;
                if remaining_srm < self.books.delegate.balances.deposit as u128 {
                    return Err(RegistryError::InsufficientBalance);
                }
            }
        }

        Ok(true)
    }

    pub fn stake_is_empty(&self) -> (r: bool)
        ensures
            r == (self.books.spt_amount == 0 && self.books.spt_mega_amount == 0),
    {
        self.books.spt_amount == 0 && self.books.spt_mega_amount == 0
    }

    /// Replaces the delegate. Only allowed while the outgoing delegate has
    /// no funds booked, so no cost basis can be orphaned.
    pub fn set_delegate(&mut self, delegate: Pubkey)
        requires
            old(self).books.delegate.balances.deposit == 0,
            old(self).books.delegate.balances.mega_deposit == 0,
        ensures
            *final(self) == (Member {
                books: MemberBooks {
                    delegate: Book {
                        owner: delegate,
                        balances: Balances { deposit: 0, mega_deposit: 0 },
                    },
                    ..old(self).books
                },
                ..*old(self)
            }),
    {
        self.books.delegate = Book {
            owner: delegate,
            balances: Balances { deposit: 0, mega_deposit: 0 },
        };
    }

    /// Whether a deposit of `amount` stays within 64-bit balances.
    pub open spec fn deposit_fits(self, amount: u64, mega: bool, owner: Pubkey) -> bool {
        let b = self.books;
        let is_delegate = owner == b.delegate.owner;
        &&& if mega {
            b.mega_stake_intent + amount <= u64::MAX
        } else {
            b.stake_intent + amount <= u64::MAX
        }
        &&& if is_delegate {
            if mega {
                b.delegate.balances.mega_deposit + amount <= u64::MAX
            } else {
                b.delegate.balances.deposit + amount <= u64::MAX
            }
        } else {
            if mega {
                b.main.balances.mega_deposit + amount <= u64::MAX
            } else {
                b.main.balances.deposit + amount <= u64::MAX
            }
        }
    }

    /// The member after a deposit: the unstaked balance of the class grows
    /// by `amount`, attributed to the delegate's book when `owner` is the
    /// delegate and to the main book otherwise.
    pub open spec fn spec_did_deposit(self, amount: u64, mega: bool, owner: Pubkey) -> Member {
        let b = self.books;
        let is_delegate = owner == b.delegate.owner;
        let b1 = if mega {
            MemberBooks { mega_stake_intent: (b.mega_stake_intent + amount) as u64, ..b }
        } else {
            MemberBooks { stake_intent: (b.stake_intent + amount) as u64, ..b }
        };
        let b2 = if is_delegate {
            MemberBooks {
                delegate: Book {
                    owner: b1.delegate.owner,
                    balances: if mega {
                        Balances {
                            mega_deposit: (b1.delegate.balances.mega_deposit + amount) as u64,
                            ..b1.delegate.balances
                        }
                    } else {
                        Balances {
                            deposit: (b1.delegate.balances.deposit + amount) as u64,
                            ..b1.delegate.balances
                        }
                    },
                },
                ..b1
            }
        } else {
            MemberBooks {
                main: Book {
                    owner: b1.main.owner,
                    balances: if mega {
                        Balances {
                            mega_deposit: (b1.main.balances.mega_deposit + amount) as u64,
                            ..b1.main.balances
                        }
                    } else {
                        Balances {
                            deposit: (b1.main.balances.deposit + amount) as u64,
                            ..b1.main.balances
                        }
                    },
                },
                ..b1
            }
        };
        Member { books: b2, ..self }
    }

    /// Records a deposit of `amount` of the chosen class from `owner`.
    pub fn did_deposit(&mut self, amount: u64, mega: bool, owner: Pubkey)
        requires
            old(self).deposit_fits(amount, mega, owner),
        ensures
            *final(self) == old(self).spec_did_deposit(amount, mega, owner),
    {
        if mega {
            self.books.mega_stake_intent = self.books.mega_stake_intent + amount;
        } else {
            self.books.stake_intent = self.books.stake_intent + amount;
        }

        let is_delegate = owner == self.books.delegate.owner;
        if is_delegate {
            if mega {
                self.books.delegate.balances.mega_deposit = self.books.delegate.balances.mega_deposit
                    + amount;
            } else {
                self.books.delegate.balances.deposit = self.books.delegate.balances.deposit
                    + amount;
            }
        } else {
            if mega {
                self.books.main.balances.mega_deposit = self.books.main.balances.mega_deposit
                    + amount;
            } else {
                self.books.main.balances.deposit = self.books.main.balances.deposit + amount;
            }
        }
    }

    /// Whether a withdrawal of `amount` stays within the balances it debits.
    pub open spec fn withdraw_fits(self, amount: u64, mega: bool, owner: Pubkey) -> bool {
        let b = self.books;
        let is_delegate = owner == b.delegate.owner;
        &&& if mega {
            amount <= b.mega_stake_intent
        } else {
            amount <= b.stake_intent
        }
        &&& if is_delegate {
            if mega {
                amount <= b.delegate.balances.mega_deposit
            } else {
                amount <= b.delegate.balances.deposit
            }
        } else {
            if mega {
                amount <= b.main.balances.mega_deposit
            } else {
                amount <= b.main.balances.deposit
            }
        }
    }

    /// The member after a withdrawal: the mirror image of a deposit.
    pub open spec fn spec_did_withdraw(self, amount: u64, mega: bool, owner: Pubkey) -> Member {
        let b = self.books;
        let is_delegate = owner == b.delegate.owner;
        let b1 = if mega {
            MemberBooks { mega_stake_intent: (b.mega_stake_intent - amount) as u64, ..b }
        } else {
            MemberBooks { stake_intent: (b.stake_intent - amount) as u64, ..b }
        };
        let b2 = if is_delegate {
            MemberBooks {
                delegate: Book {
                    owner: b1.delegate.owner,
                    balances: if mega {
                        Balances {
                            mega_deposit: (b1.delegate.balances.mega_deposit - amount) as u64,
                            ..b1.delegate.balances
                        }
                    } else {
                        Balances {
                            deposit: (b1.delegate.balances.deposit - amount) as u64,
                            ..b1.delegate.balances
                        }
                    },
                },
                ..b1
            }
        } else {
            MemberBooks {
                main: Book {
                    owner: b1.main.owner,
                    balances: if mega {
                        Balances {
                            mega_deposit: (b1.main.balances.mega_deposit - amount) as u64,
                            ..b1.main.balances
                        }
                    } else {
                        Balances {
                            deposit: (b1.main.balances.deposit - amount) as u64,
                            ..b1.main.balances
                        }
                    },
                },
                ..b1
            }
        };
        Member { books: b2, ..self }
    }

    /// Records a withdrawal of `amount` of the chosen class to `owner`.
    pub fn did_withdraw(&mut self, amount: u64, mega: bool, owner: Pubkey)
        requires
            old(self).withdraw_fits(amount, mega, owner),
        ensures
            *final(self) == old(self).spec_did_withdraw(amount, mega, owner),
    {
        if mega {
            self.books.mega_stake_intent = self.books.mega_stake_intent - amount;
        } else {
            self.books.stake_intent = self.books.stake_intent - amount;
        }

        let is_delegate = owner == self.books.delegate.owner;
        if is_delegate {
            if mega {
                self.books.delegate.balances.mega_deposit = self.books.delegate.balances.mega_deposit
                    - amount;
            } else {
                self.books.delegate.balances.deposit = self.books.delegate.balances.deposit
                    - amount;
            }
        } else {
            if mega {
                self.books.main.balances.mega_deposit = self.books.main.balances.mega_deposit
                    - amount;
            } else {
                self.books.main.balances.deposit = self.books.main.balances.deposit - amount;
            }
        }
    }

    /// Whether buying `amount` shares stays within 64-bit balances: the new
    /// share count fits and the unstaked balances cover the basket cost.
    pub open spec fn stake_fits(self, prices: PoolPrices, amount: u64, mega: bool) -> bool {
        let b = self.books;
        if mega {
            &&& b.spt_mega_amount + amount <= u64::MAX
            &&& prices.mega_srm_per_spt() * amount <= b.stake_intent
            &&& prices.msrm_per_spt() * amount <= b.mega_stake_intent
        } else {
            &&& b.spt_amount + amount <= u64::MAX
            &&& prices.srm_per_spt() * amount <= b.stake_intent
        }
    }

    /// The member after a successful share purchase: the issued-share count
    /// of the class grows by `amount` and the unstaked balances shrink by
    /// the exact basket cost.
    pub open spec fn spec_spt_did_create(
        self,
        prices: PoolPrices,
        amount: u64,
        mega: bool,
    ) -> Member {
        let b = self.books;
        if mega {
            Member {
                books: MemberBooks {
                    spt_mega_amount: (b.spt_mega_amount + amount) as u64,
                    stake_intent: (b.stake_intent - prices.mega_srm_per_spt() * amount) as u64,
                    mega_stake_intent: (b.mega_stake_intent - prices.msrm_per_spt()
                        * amount) as u64,
                    ..b
                },
                ..self
            }
        } else {
            Member {
                books: MemberBooks {
                    spt_amount: (b.spt_amount + amount) as u64,
                    stake_intent: (b.stake_intent - prices.srm_per_spt() * amount) as u64,
                    ..b
                },
                ..self
            }
        }
    }

    /// Records a successful pool-share creation: shares are credited and the
    /// basket cost is debited from the unstaked balances. Nothing is changed
    /// when the basket cost overflows — the whole operation aborts.
    pub fn spt_did_create(&mut self, prices: &PoolPrices, amount: u64, mega: bool) -> (r: Result<
        (),
        RegistryError,
    >)
        requires
            prices.well_formed(),
            prices.basket_cost_ok(amount, mega) ==> old(self).stake_fits(*prices, amount, mega),
        ensures
            r is Ok <==> prices.basket_cost_ok(amount, mega),
            r is Ok ==> *final(self) == old(self).spec_spt_did_create(*prices, amount, mega),
            r matches Err(e) ==> *final(self) == *old(self) && e == RegistryError::CheckedFailure,
    {
        let basket = match prices.basket_quantities(amount, mega) {
            Ok(q) => q,
            Err(e) => {
                return Err(e);
            },
        };
        if mega {
            self.books.spt_mega_amount = self.books.spt_mega_amount + amount;
            self.books.stake_intent = self.books.stake_intent - basket[0];
            self.books.mega_stake_intent = self.books.mega_stake_intent - basket[1];
        } else {
            self.books.spt_amount = self.books.spt_amount + amount;
            self.books.stake_intent = self.books.stake_intent - basket[0];
        }
        Ok(())
    }

    /// The member after shares of the chosen class are burned.
    pub open spec fn spec_spt_burned(self, spt_amount: u64, mega: bool) -> Member {
        let b = self.books;
        if mega {
            Member {
                books: MemberBooks { spt_mega_amount: (b.spt_mega_amount - spt_amount) as u64, ..b },
                ..self
            }
        } else {
            Member {
                books: MemberBooks { spt_amount: (b.spt_amount - spt_amount) as u64, ..b },
                ..self
            }
        }
    }

    /// Burns shares at the start of a withdrawal, so that they can no longer
    /// back further staking while the timelock runs.
    pub fn spt_did_redeem_start(&mut self, spt_amount: u64, mega: bool)
        requires
            if mega {
                spt_amount <= old(self).books.spt_mega_amount
            } else {
                spt_amount <= old(self).books.spt_amount
            },
        ensures
            *final(self) == old(self).spec_spt_burned(spt_amount, mega),
    {
        if mega {
            self.books.spt_mega_amount = self.books.spt_mega_amount - spt_amount;
        } else {
            self.books.spt_amount = self.books.spt_amount - spt_amount;
        }
    }

    /// The member after a settled payout is credited back to its unstaked
    /// balances.
    pub open spec fn spec_spt_did_redeem_end(
        self,
        asset_amount: u64,
        mega_asset_amount: u64,
    ) -> Member {
        Member {
            books: MemberBooks {
                stake_intent: (self.books.stake_intent + asset_amount) as u64,
                mega_stake_intent: (self.books.mega_stake_intent + mega_asset_amount) as u64,
                ..self.books
            },
            ..self
        }
    }

    /// Credits the settled payout of a finished withdrawal back to the
    /// unstaked balances.
    pub fn spt_did_redeem_end(&mut self, asset_amount: u64, mega_asset_amount: u64)
        requires
            old(self).books.stake_intent + asset_amount <= u64::MAX,
            old(self).books.mega_stake_intent + mega_asset_amount <= u64::MAX,
        ensures
            *final(self) == old(self).spec_spt_did_redeem_end(asset_amount, mega_asset_amount),
    {
        self.books.stake_intent = self.books.stake_intent + asset_amount;
        self.books.mega_stake_intent = self.books.mega_stake_intent + mega_asset_amount;
    }

    /// Law: the delegate's cost basis is protected. A withdrawal by a
    /// non-delegate that would leave the remaining redeemable value of the
    /// class below the delegate's cost basis always fails with the
    /// balance error — whatever that basis is, in particular whenever it is
    /// positive — while the delegate itself may always draw up to the
    /// unstaked balance of the class.
    pub proof fn lemma_delegate_protection(
        m: Member,
        prices: PoolPrices,
        amount: u64,
        mega: bool,
        owner: Pubkey,
    )
        requires
            prices.basket_cost_ok(m.books.spt_amount, false),
            prices.basket_cost_ok(m.books.spt_mega_amount, true),
        ensures
            (owner != m.books.delegate.owner && mega && amount <= m.books.mega_stake_intent
                && m.msrm_holdings(prices) - amount < m.books.delegate.balances.mega_deposit)
                ==> m.spec_can_withdraw(prices, amount, mega, owner) == Err::<
                bool,
                RegistryError,
            >(RegistryError::InsufficientBalance),
            (owner != m.books.delegate.owner && !mega && amount <= m.books.stake_intent
                && m.srm_holdings(prices) - amount < m.books.delegate.balances.deposit)
                ==> m.spec_can_withdraw(prices, amount, mega, owner) == Err::<
                bool,
                RegistryError,
            >(RegistryError::InsufficientBalance),
            (owner == m.books.delegate.owner && (if mega {
                amount <= m.books.mega_stake_intent
            } else {
                amount <= m.books.stake_intent
            })) ==> m.spec_can_withdraw(prices, amount, mega, owner) == Ok::<
                bool,
                RegistryError,
            >(true),
    {
    }

    /// Removes shares without any payout, as a penalty.
    pub fn slash(&mut self, spt_amount: u64, mega: bool)
        requires
            if mega {
                spt_amount <= old(self).books.spt_mega_amount
            } else {
                spt_amount <= old(self).books.spt_amount
            },
        ensures
            *final(self) == old(self).spec_spt_burned(spt_amount, mega),
    {
        if mega {
            self.books.spt_mega_amount = self.books.spt_mega_amount - spt_amount;
        } else {
            self.books.spt_amount = self.books.spt_amount - spt_amount;
        }
    }
}

/// What a member update checks: the beneficiary must approve, and the
/// delegate may only be replaced while the outgoing delegate's book is
/// empty, so no cost basis can be orphaned.
pub open spec fn spec_update_member(
    member: Member,
    requester: Pubkey,
    requester_signed: bool,
    delegate: Option<Pubkey>,
) -> Result<(), RegistryError> {
    if !(requester_signed && requester == member.beneficiary) {
        Err(RegistryError::Unauthorized)
    } else if delegate is Some && !(member.books.delegate.balances.deposit == 0
        && member.books.delegate.balances.mega_deposit == 0) {
        Err(RegistryError::DelegateInUse)
    } else {
        Ok(())
    }
}

/// Applies a beneficiary-gated member update. A refused update changes
/// nothing.
pub fn update_member(
    member: &mut Member,
    requester: Pubkey,
    requester_signed: bool,
    delegate: Option<Pubkey>,
) -> (r: Result<(), RegistryError>)
    ensures
        r == spec_update_member(*old(member), requester, requester_signed, delegate),
        r is Err ==> *final(member) == *old(member),
        r is Ok ==> (delegate matches Some(d) ==> *final(member) == (Member {
            books: MemberBooks {
                delegate: Book {
                    owner: d,
                    balances: Balances { deposit: 0, mega_deposit: 0 },
                },
                ..old(member).books
            },
            ..*old(member)
        })),
        r is Ok && delegate is None ==> *final(member) == *old(member),
{
    if !requester_signed {
        return Err(RegistryError::Unauthorized);
    }
    if !(requester == member.beneficiary) {
        return Err(RegistryError::Unauthorized);
    }
    if let Some(d) = delegate {
        if !member.books.delegate.balances.is_empty() {
            return Err(RegistryError::DelegateInUse);
        }
        member.set_delegate(d);
    }
    Ok(())
}

/// One book-affecting operation on a member: a deposit from, or a
/// withdrawal to, a token account owned by `owner`.
pub enum BookOp {
    Deposit { amount: u64, mega: bool, owner: Pubkey },
    Withdraw { amount: u64, mega: bool, owner: Pubkey },
}

/// The member after one book operation.
pub open spec fn apply_book_op(m: Member, op: BookOp) -> Member {
    match op {
        BookOp::Deposit { amount, mega, owner } => m.spec_did_deposit(amount, mega, owner),
        BookOp::Withdraw { amount, mega, owner } => m.spec_did_withdraw(amount, mega, owner),
    }
}

/// Whether one book operation stays within 64-bit balances on `m`.
pub open spec fn book_op_fits(m: Member, op: BookOp) -> bool {
    match op {
        BookOp::Deposit { amount, mega, owner } => m.deposit_fits(amount, mega, owner),
        BookOp::Withdraw { amount, mega, owner } => m.withdraw_fits(amount, mega, owner),
    }
}

/// The member after a whole sequence of book operations.
pub open spec fn apply_book_ops(m: Member, ops: Seq<BookOp>) -> Member
    decreases ops.len(),
{
    if ops.len() == 0 {
        m
    } else {
        apply_book_ops(apply_book_op(m, ops[0]), ops.skip(1))
    }
}

/// Whether every operation of the sequence, applied in order, stays within
/// 64-bit balances.
pub open spec fn book_ops_fit(m: Member, ops: Seq<BookOp>) -> bool
    decreases ops.len(),
{
    ops.len() == 0 || (book_op_fits(m, ops[0]) && book_ops_fit(
        apply_book_op(m, ops[0]),
        ops.skip(1),
    ))
}

/// Signed flow of one operation into the book selected by `to_delegate`,
/// for the share class selected by `mega`, with `delegate_owner` as the
/// attribution key: deposits count positive, withdrawals negative,
/// everything aimed at another book or class counts zero.
pub open spec fn book_op_flow(
    op: BookOp,
    delegate_owner: Pubkey,
    to_delegate: bool,
    mega: bool,
) -> int {
    match op {
        BookOp::Deposit { amount, mega: m, owner } => if (owner == delegate_owner) == to_delegate
            && m == mega {
            amount as int
        } else {
            0
        },
        BookOp::Withdraw { amount, mega: m, owner } => if (owner == delegate_owner) == to_delegate
            && m == mega {
            -(amount as int)
        } else {
            0
        },
    }
}

/// Net flow of a whole sequence into one book and class.
pub open spec fn net_flow(
    ops: Seq<BookOp>,
    delegate_owner: Pubkey,
    to_delegate: bool,
    mega: bool,
) -> int
    decreases ops.len(),
{
    if ops.len() == 0 {
        0
    } else {
        book_op_flow(ops[0], delegate_owner, to_delegate, mega) + net_flow(
            ops.skip(1),
            delegate_owner,
            to_delegate,
            mega,
        )
    }
}

/// Law: cost-basis conservation. Over any sequence of deposits and
/// withdrawals that stays within 64-bit balances, each book's deposit
/// equals its starting value plus the net flow attributed to its owner,
/// per share class — in particular `main.deposit + delegate.deposit`
/// always equals the starting total plus the cumulative net deposits into
/// the member, independent of how the operations interleave. The
/// attribution key (the delegate's owner) never changes under these
/// operations.
pub proof fn lemma_deposit_conservation(m: Member, ops: Seq<BookOp>)
    requires
        book_ops_fit(m, ops),
    ensures
        ({
            let r = apply_book_ops(m, ops);
            let d = m.books.delegate.owner;
            &&& r.books.delegate.owner == d
            &&& r.books.main.balances.deposit == m.books.main.balances.deposit + net_flow(
                ops,
                d,
                false,
                false,
            )
            &&& r.books.main.balances.mega_deposit == m.books.main.balances.mega_deposit + net_flow(
                ops,
                d,
                false,
                true,
            )
            &&& r.books.delegate.balances.deposit == m.books.delegate.balances.deposit + net_flow(
                ops,
                d,
                true,
                false,
            )
            &&& r.books.delegate.balances.mega_deposit == m.books.delegate.balances.mega_deposit
                + net_flow(ops, d, true, true)
        }),
    decreases ops.len(),
{
    if ops.len() == 0 {
    } else {
        let m1 = apply_book_op(m, ops[0]);
        match ops[0] {
            BookOp::Deposit { amount, mega, owner } => {},
            BookOp::Withdraw { amount, mega, owner } => {},
        }
        lemma_deposit_conservation(m1, ops.skip(1));
    }
}

/// Law, continued: the books depend only on the net flows. Two operation
/// histories with the same net flow per book and class — in particular any
/// two interleavings of the same deposits and withdrawals — leave every
/// cost basis equal.
pub proof fn lemma_books_depend_only_on_net_flows(m: Member, ops1: Seq<BookOp>, ops2: Seq<BookOp>)
    requires
        book_ops_fit(m, ops1),
        book_ops_fit(m, ops2),
        ({
            let d = m.books.delegate.owner;
            &&& net_flow(ops1, d, false, false) == net_flow(ops2, d, false, false)
            &&& net_flow(ops1, d, false, true) == net_flow(ops2, d, false, true)
            &&& net_flow(ops1, d, true, false) == net_flow(ops2, d, true, false)
            &&& net_flow(ops1, d, true, true) == net_flow(ops2, d, true, true)
        }),
    ensures
        ({
            let r1 = apply_book_ops(m, ops1);
            let r2 = apply_book_ops(m, ops2);
            &&& r1.books.main.balances == r2.books.main.balances
            &&& r1.books.delegate.balances == r2.books.delegate.balances
        }),
{
    lemma_deposit_conservation(m, ops1);
    lemma_deposit_conservation(m, ops2);
}

} // verus!
