use vstd::prelude::*;

use crate::error::RegistryError;
use crate::member::Balances;
use crate::member::Book;
use crate::member::Member;
use crate::member::MemberBooks;

verus! {

/// What reconciling a custody relay yields: the measured vault delta when
/// it stays within the approved ceiling, and the over-transfer error when
/// the relay target moved more than it was approved for.
pub open spec fn spec_relay_transferred(
    ceiling: u64,
    vault_before: u64,
    vault_after: u64,
) -> Result<u64, RegistryError> {
    if vault_before - vault_after > ceiling {
        Err(RegistryError::InsufficientAmount)
    } else {
        Ok((vault_before - vault_after) as u64)
    }
}

/// Reconciles a delegated custody relay: the vault balance is read before
/// and after the opaque external call, and the whole operation fails when
/// the measured outflow exceeds the approved ceiling. The check runs after
/// the call — the abuse is detected late, not prevented — but a failure
/// aborts the host transaction, so no ledger update survives it.
pub fn relay_reconcile(ceiling: u64, vault_before: u64, vault_after: u64) -> (r: Result<
    u64,
    RegistryError,
>)
    requires
        vault_after <= vault_before,
    ensures
        r == spec_relay_transferred(ceiling, vault_before, vault_after),
{
    let transferred = vault_before - vault_after;
    if transferred > ceiling {
        Err(RegistryError::InsufficientAmount)
    } else {
        Ok(transferred)
    }
}

/// The member after its delegate book is credited with `amount`.
pub open spec fn spec_delegate_credited(m: Member, amount: u64, mega: bool) -> Member {
    Member {
        books: MemberBooks {
            delegate: Book {
                owner: m.books.delegate.owner,
                balances: if mega {
                    Balances {
                        mega_deposit: (m.books.delegate.balances.mega_deposit + amount) as u64,
                        ..m.books.delegate.balances
                    }
                } else {
                    Balances {
                        deposit: (m.books.delegate.balances.deposit + amount) as u64,
                        ..m.books.delegate.balances
                    }
                },
            },
            ..m.books
        },
        ..m
    }
}

/// Completes a delegated custody relay against a member: reconciles the
/// vault delta against the ceiling and, on success, credits the delegate
/// book with what was actually moved — the custodian's cost basis follows
/// real vault movement, never the requested amount. A refused relay leaves
/// the member untouched.
pub fn relay_completed(
    member: &mut Member,
    ceiling: u64,
    vault_before: u64,
    vault_after: u64,
    mega: bool,
) -> (r: Result<u64, RegistryError>)
    requires
        vault_after <= vault_before,
        (if mega {
            old(member).books.delegate.balances.mega_deposit
        } else {
            old(member).books.delegate.balances.deposit
        }) + (vault_before - vault_after) <= u64::MAX,
    ensures
        r == spec_relay_transferred(ceiling, vault_before, vault_after),
        r is Err ==> *final(member) == *old(member),
        r matches Ok(t) ==> *final(member) == spec_delegate_credited(*old(member), t, mega),
{
    let transferred = match relay_reconcile(ceiling, vault_before, vault_after) {
        Ok(t) => t,
        Err(e) => {
            return Err(e);
        },
    };
    if mega {
        member.books.delegate.balances.mega_deposit = member.books.delegate.balances.mega_deposit
            + transferred;
    } else {
        member.books.delegate.balances.deposit = member.books.delegate.balances.deposit
            + transferred;
    }
    Ok(transferred)
}

} // verus!
