//! The life of a vault: creation at its derived address, and the withdrawal
//! of what it holds above its reserve floor.

use crate::accounts::{
    check_creation, creation_rejection, surplus, Signer, VaultAccount, VaultSlot,
};
use crate::address::{
    derived_view, found_program_address, found_view, program_address, vault_address,
    find_vault_address, vault_seeds, with_bump, Address,
};
use crate::error::{BurnerError, LedgerError, Rejection};
use vstd::prelude::*;

verus! {

/// What `create_vault` works on: the user who signs and pays, and the place
/// where the vault is to stand.
#[derive(Clone, Copy, Debug, PartialEq, Eq)]
pub struct CreateVault {
    pub program_id: Address,
    pub user: Signer,
    pub vault: VaultSlot,
}

/// What `withdraw_vault` works on: the user who signs, and the vault.
#[derive(Clone, Copy, Debug, PartialEq, Eq)]
pub struct WithdrawVault {
    pub program_id: Address,
    pub user: Signer,
    pub vault: VaultSlot,
}

/// Why `create_vault` rejects `ctx`, if it does.
pub open spec fn create_vault_rejection(
    ctx: CreateVault,
    reserve: u64,
    found: Option<(Seq<u8>, u8)>,
) -> Option<Rejection> {
    creation_rejection(
        ctx.vault.key@,
        ctx.vault.data is Some,
        ctx.vault.lamports,
        ctx.user.lamports,
        reserve,
        found,
    )
}

/// `ctx` after a vault has been created in it under `bump`: the user has
/// paid what the place was short of `reserve`, and the place holds a fresh
/// record owned by the user.
pub open spec fn vault_created(ctx: CreateVault, reserve: u64, bump: u8) -> CreateVault {
    CreateVault {
        program_id: ctx.program_id,
        user: Signer {
            key: ctx.user.key,
            lamports: (ctx.user.lamports - surplus(reserve, ctx.vault.lamports)) as u64,
        },
        vault: VaultSlot {
            key: ctx.vault.key,
            lamports: (ctx.vault.lamports + surplus(reserve, ctx.vault.lamports)) as u64,
            data: Some(VaultAccount { owner: ctx.user.key, bump, lamports_collected: 0 }),
        },
    }
}

/// The context and the result that `create_vault` leaves, given what the
/// search for the vault's address gave.
pub open spec fn create_vault_outcome(
    ctx: CreateVault,
    reserve: u64,
    found: Option<(Seq<u8>, u8)>,
) -> (CreateVault, Result<(), Rejection>) {
    match create_vault_rejection(ctx, reserve, found) {
        Some(e) => (ctx, Err(e)),
        None => (vault_created(ctx, reserve, (found->0).1), Ok(())),
    }
}

/// Creates the user's vault, given the address and bump that were found
/// for it. `reserve` is the reserve floor of a vault record.
pub fn create_vault_at(ctx: &mut CreateVault, reserve: u64, found: Option<(Address, u8)>) -> (r:
    Result<(), Rejection>)
    ensures
        (*final(ctx), r) == create_vault_outcome(*old(ctx), reserve, found_view(found)),
        r is Ok ==> final(ctx).vault.data == Some(
            VaultAccount { owner: old(ctx).user.key, bump: (found->0).1, lamports_collected: 0 },
        ),
        r is Ok ==> final(ctx).vault.lamports >= reserve,
        r is Err ==> *final(ctx) == *old(ctx),
{
    let (bump, owed) = match check_creation(
        &ctx.vault.key,
        ctx.vault.data.is_some(),
        ctx.vault.lamports,
        ctx.user.lamports,
        reserve,
        found,
    ) {
        Ok(pair) => pair,
        Err(e) => {
            return Err(e);
        },
    };
    ctx.user.lamports = ctx.user.lamports - owed;
    ctx.vault.lamports = ctx.vault.lamports + owed;
    ctx.vault.data = Some(VaultAccount { owner: ctx.user.key, bump, lamports_collected: 0 });
    Ok(())
}

/// Creates the user's vault at the address derived from the label `vault`
/// and the user's address. `reserve` is the reserve floor of a vault record.
/// A vault that has been created stands for its user: the later operations
/// find it at the address recomputed from the bump that it stores.
pub fn create_vault(ctx: &mut CreateVault, reserve: u64) -> (r: Result<(), Rejection>)
    ensures
        (*final(ctx), r) == create_vault_outcome(
            *old(ctx),
            reserve,
            found_program_address(vault_seeds(old(ctx).user.key@), old(ctx).program_id@),
        ),
        r is Ok ==> program_address(
            with_bump(vault_seeds(old(ctx).user.key@), final(ctx).vault.data->0.bump),
            old(ctx).program_id@,
        ) == Some(final(ctx).vault.key@),
        r is Ok ==> final(ctx).vault.lamports >= reserve,
        r is Ok ==> vault_rejection(
            old(ctx).user.key,
            final(ctx).vault,
            vault_derivation(old(ctx).program_id, old(ctx).user.key, final(ctx).vault),
        ) is None,
        r is Err ==> *final(ctx) == *old(ctx),
{
    let found = find_vault_address(&ctx.program_id, &ctx.user.key);
    create_vault_at(ctx, reserve, found)
}

/// Why a vault does not stand for `user`, if it does not: it holds no
/// record; it is not at the address derived for the user under its stored
/// bump; or its recorded owner is not the user.
pub open spec fn vault_rejection(user: Address, vault: VaultSlot, derived: Option<Seq<u8>>) -> Option<
    Rejection,
> {
    if vault.data is None {
        Some(Rejection::Ledger(LedgerError::AccountMissing))
    } else if derived != Some(vault.key@) {
        Some(Rejection::Ledger(LedgerError::AddressMismatch))
    } else if vault.data->0.owner@ != user@ {
        Some(Rejection::Program(BurnerError::InvalidOwner))
    } else {
        None
    }
}

/// The address derived for the vault of `user` under the vault's stored
/// bump, where the vault holds a record.
pub open spec fn vault_derivation(program_id: Address, user: Address, vault: VaultSlot) -> Option<
    Seq<u8>,
> {
    match vault.data {
        Some(record) => program_address(with_bump(vault_seeds(user@), record.bump), program_id@),
        None => None,
    }
}

/// Checks that the vault stands for `user`, given the address derived for
/// the user under the vault's stored bump.
pub fn check_vault(user: &Address, vault: &VaultSlot, derived: Option<Address>) -> (r: Option<
    Rejection,
>)
    ensures
        r == vault_rejection(*user, *vault, derived_view(derived)),
{
    let record = match vault.data {
        Some(record) => record,
        None => {
            return Some(Rejection::Ledger(LedgerError::AccountMissing));
        },
    };
    match derived {
        Some(address) => {
            if vault.key != address {
                return Some(Rejection::Ledger(LedgerError::AddressMismatch));
            }
        },
        None => {
            return Some(Rejection::Ledger(LedgerError::AddressMismatch));
        },
    }
    if record.owner != *user {
        return Some(Rejection::Program(BurnerError::InvalidOwner));
    }
    None
}

/// Recomputes the address of the vault of `user` from the bump that the
/// vault stores.
pub fn derive_for_vault(program_id: &Address, user: &Address, vault: &VaultSlot) -> (r: Option<
    Address,
>)
    ensures
        derived_view(r) == vault_derivation(*program_id, *user, *vault),
{
    match vault.data {
        Some(record) => vault_address(program_id, user, record.bump),
        None => None,
    }
}

/// Why `withdraw_vault` rejects `ctx`, if it does: the vault does not
/// stand for the user, or the user's balance cannot hold what the vault
/// holds above `floor`.
pub open spec fn withdraw_vault_rejection(
    ctx: WithdrawVault,
    floor: u64,
    derived: Option<Seq<u8>>,
) -> Option<Rejection> {
    if vault_rejection(ctx.user.key, ctx.vault, derived) is Some {
        vault_rejection(ctx.user.key, ctx.vault, derived)
    } else if ctx.user.lamports + surplus(ctx.vault.lamports, floor) > u64::MAX {
        Some(Rejection::Ledger(LedgerError::BalanceOverflow))
    } else {
        None
    }
}

/// `ctx` after the vault's balance above `floor` has moved to the user.
pub open spec fn vault_withdrawn(ctx: WithdrawVault, floor: u64) -> WithdrawVault {
    WithdrawVault {
        program_id: ctx.program_id,
        user: Signer {
            key: ctx.user.key,
            lamports: (ctx.user.lamports + surplus(ctx.vault.lamports, floor)) as u64,
        },
        vault: VaultSlot {
            key: ctx.vault.key,
            lamports: (ctx.vault.lamports - surplus(ctx.vault.lamports, floor)) as u64,
            data: ctx.vault.data,
        },
    }
}

/// The context and the result that `withdraw_vault` leaves, given the
/// address derived for the vault: on success the result is the amount moved.
pub open spec fn withdraw_vault_outcome(ctx: WithdrawVault, floor: u64, derived: Option<Seq<u8>>) -> (
    WithdrawVault,
    Result<u64, Rejection>,
) {
    match withdraw_vault_rejection(ctx, floor, derived) {
        Some(e) => (ctx, Err(e)),
        None => (vault_withdrawn(ctx, floor), Ok(surplus(ctx.vault.lamports, floor))),
    }
}

/// Moves what the vault holds above `floor` to the user, given the address
/// derived for the vault, and returns the amount moved.
pub fn withdraw_vault_at(ctx: &mut WithdrawVault, floor: u64, derived: Option<Address>) -> (r:
    Result<u64, Rejection>)
    ensures
        (*final(ctx), r) == withdraw_vault_outcome(*old(ctx), floor, derived_view(derived)),
        r matches Ok(moved) ==> {
            &&& moved == surplus(old(ctx).vault.lamports, floor)
            &&& final(ctx).vault.lamports == old(ctx).vault.lamports - moved
            &&& final(ctx).user.lamports == old(ctx).user.lamports + moved
            &&& old(ctx).vault.lamports >= floor ==> final(ctx).vault.lamports == floor
        },
        r is Err ==> *final(ctx) == *old(ctx),
{
    match check_vault(&ctx.user.key, &ctx.vault, derived) {
        Some(e) => {
            return Err(e);
        },
        None => {},
    }
    let withdrawable: u64 = ctx.vault.lamports.saturating_sub(floor);
    if withdrawable > u64::MAX - ctx.user.lamports {
        return Err(Rejection::Ledger(LedgerError::BalanceOverflow));
    }
    if withdrawable > 0 {
        ctx.vault.lamports = ctx.vault.lamports - withdrawable;
        ctx.user.lamports = ctx.user.lamports + withdrawable;
    }
    Ok(withdrawable)
}

/// Moves what the vault holds above `floor`, its reserve floor, to the user
/// who owns it, and returns the amount moved.
pub fn withdraw_vault(ctx: &mut WithdrawVault, floor: u64) -> (r: Result<u64, Rejection>)
    ensures
        (*final(ctx), r) == withdraw_vault_outcome(
            *old(ctx),
            floor,
            vault_derivation(old(ctx).program_id, old(ctx).user.key, old(ctx).vault),
        ),
        r matches Ok(moved) ==> {
            &&& moved == surplus(old(ctx).vault.lamports, floor)
            &&& final(ctx).vault.lamports == old(ctx).vault.lamports - moved
            &&& final(ctx).user.lamports == old(ctx).user.lamports + moved
            &&& old(ctx).vault.lamports >= floor ==> final(ctx).vault.lamports == floor
        },
        r is Err ==> *final(ctx) == *old(ctx),
{
    let derived = derive_for_vault(&ctx.program_id, &ctx.user.key, &ctx.vault);
    withdraw_vault_at(ctx, floor, derived)
}

/// A vault is created exactly once for a user. On a free place at the
/// address found for the user, with a user who can pay what the place is
/// short of the reserve, `create_vault` succeeds; after that it is rejected
/// for the same user at that place, whatever the user's balance and the
/// reserve have become, because the address is in use.
pub proof fn create_vault_only_once(
    ctx: CreateVault,
    reserve: u64,
    next: CreateVault,
    next_reserve: u64,
)
    requires
        found_program_address(vault_seeds(ctx.user.key@), ctx.program_id@) matches Some(found)
            && found.0 == ctx.vault.key@,
        ctx.vault.data is None,
        ctx.user.lamports >= surplus(reserve, ctx.vault.lamports),
        next.program_id@ == ctx.program_id@,
        next.user.key@ == ctx.user.key@,
        next.vault == create_vault_outcome(
            ctx,
            reserve,
            found_program_address(vault_seeds(ctx.user.key@), ctx.program_id@),
        ).0.vault,
    ensures
        create_vault_outcome(
            ctx,
            reserve,
            found_program_address(vault_seeds(ctx.user.key@), ctx.program_id@),
        ).1 is Ok,
        create_vault_outcome(
            next,
            next_reserve,
            found_program_address(vault_seeds(next.user.key@), next.program_id@),
        ) == (next, Err::<(), Rejection>(Rejection::Ledger(LedgerError::AddressInUse))),
{
}

/// A withdrawal moves what the vault holds above its floor, to the owner
/// and nowhere else. Where it succeeds, the user is the vault's recorded
/// owner and the vault stands at the address derived for the user; the
/// amount moved is the balance less the floor where that is positive and
/// zero where it is not; the user receives exactly what the vault gives;
/// the record in the vault is untouched; and a vault that held its floor
/// before holds exactly its floor after.
pub proof fn withdraw_vault_leaves_floor(ctx: WithdrawVault, floor: u64, derived: Option<Seq<u8>>)
    requires
        withdraw_vault_outcome(ctx, floor, derived).1 is Ok,
    ensures
        ({
            let after = withdraw_vault_outcome(ctx, floor, derived).0;
            let moved = withdraw_vault_outcome(ctx, floor, derived).1->Ok_0;
            &&& ctx.vault.data is Some
            &&& ctx.vault.data->0.owner@ == ctx.user.key@
            &&& derived == Some(ctx.vault.key@)
            &&& moved == (if ctx.vault.lamports > floor {
                ctx.vault.lamports - floor
            } else {
                0
            })
            &&& after.vault.lamports == ctx.vault.lamports - moved
            &&& after.user.lamports == ctx.user.lamports + moved
            &&& after.vault.data == ctx.vault.data
            &&& ctx.vault.lamports >= floor ==> after.vault.lamports == floor
            &&& ctx.vault.lamports < floor ==> after.vault.lamports == ctx.vault.lamports
        }),
{
}

/// Withdrawing is idempotent: on the context that a successful
/// `withdraw_vault` leaves, `withdraw_vault` succeeds again, moves nothing
/// and changes nothing.
pub proof fn withdraw_vault_twice(ctx: WithdrawVault, floor: u64)
    requires
        withdraw_vault_outcome(
            ctx,
            floor,
            vault_derivation(ctx.program_id, ctx.user.key, ctx.vault),
        ).1 is Ok,
    ensures
        ({
            let after = withdraw_vault_outcome(
                ctx,
                floor,
                vault_derivation(ctx.program_id, ctx.user.key, ctx.vault),
            ).0;
            withdraw_vault_outcome(
                after,
                floor,
                vault_derivation(after.program_id, after.user.key, after.vault),
            ) == (after, Ok::<u64, Rejection>(0u64))
        }),
{
}

} // verus!
