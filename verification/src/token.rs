//! Token records: inspection, closing an empty record, and burning what a
//! record holds before closing it. The token ledger owns the records; the
//! handlers decide which requests go to it and account for their effect.

use crate::accounts::{tally_after, Mint, Signer, TokenAccount, TokenSlot, VaultAccount, VaultSlot};
use crate::address::{derived_view, Address};
use crate::error::{BurnerError, LedgerError, Rejection};
use crate::vault::{check_vault, derive_for_vault, vault_derivation, vault_rejection};
use vstd::prelude::*;

verus! {

/// What `validate_token_account` works on.
#[derive(Clone, Copy, Debug, PartialEq, Eq)]
pub struct ValidateTokenAccount {
    pub user: Signer,
    pub token_account: TokenSlot,
}

/// What `close_token_account` works on: the user who signs, the record to
/// close, and the user's vault, which receives the record's balance.
#[derive(Clone, Copy, Debug, PartialEq, Eq)]
pub struct CloseTokenAccount {
    pub program_id: Address,
    pub user: Signer,
    pub token_account: TokenSlot,
    pub vault: VaultSlot,
}

/// What `burn_and_close_token_account` works on: the user who signs, the
/// record to empty and close, its mint, and the user's vault.
#[derive(Clone, Copy, Debug, PartialEq, Eq)]
pub struct BurnAndCloseTokenAccount {
    pub program_id: Address,
    pub user: Signer,
    pub token_account: TokenSlot,
    pub mint: Mint,
    pub vault: VaultSlot,
}

/// What an inspection of a token record reports.
#[derive(Clone, Copy, Debug, PartialEq, Eq)]
pub struct TokenReport {
    pub mint: Address,
    pub amount: u64,
    pub owner: Address,
    /// Whether the record holds no tokens, so that a plain close would do.
    pub is_empty: bool,
}

/// A request that a handler delegates to the token ledger.
#[derive(Clone, Copy, Debug, PartialEq, Eq)]
pub enum LedgerCall {
    /// Remove `amount` from the record `from` and from the supply of `mint`.
    Burn { mint: Address, from: Address, authority: Address, amount: u64 },
    /// Destroy the record `account` and move its balance to `destination`.
    CloseAccount { account: Address, destination: Address, authority: Address },
}

/// Why a token record does not stand for `user`, if it does not: it does
/// not exist, or its recorded owner is not the user.
pub open spec fn token_rejection(user: Address, token_account: TokenSlot) -> Option<Rejection> {
    if token_account.data is None {
        Some(Rejection::Ledger(LedgerError::AccountMissing))
    } else if token_account.data->0.owner@ != user@ {
        Some(Rejection::Program(BurnerError::UnauthorizedAccount))
    } else {
        None
    }
}

/// What the inspection of a record reports.
pub open spec fn report_of(record: TokenAccount) -> TokenReport {
    TokenReport {
        mint: record.mint,
        amount: record.amount,
        owner: record.owner,
        is_empty: record.amount == 0,
    }
}

/// The result of `validate_token_account`.
pub open spec fn validate_token_account_outcome(ctx: ValidateTokenAccount) -> Result<
    TokenReport,
    Rejection,
> {
    match token_rejection(ctx.user.key, ctx.token_account) {
        Some(e) => Err(e),
        None => Ok(report_of(ctx.token_account.data->0)),
    }
}

/// Checks that the record belongs to the user and reports what it holds.
/// Nothing is changed.
pub fn validate_token_account(ctx: &ValidateTokenAccount) -> (r: Result<TokenReport, Rejection>)
    ensures
        r == validate_token_account_outcome(*ctx),
        r is Ok <==> ctx.token_account.data is Some && ctx.token_account.data->0.owner@
            == ctx.user.key@,
{
    let record = match ctx.token_account.data {
        Some(record) => record,
        None => {
            return Err(Rejection::Ledger(LedgerError::AccountMissing));
        },
    };
    if record.owner != ctx.user.key {
        return Err(Rejection::Program(BurnerError::UnauthorizedAccount));
    }
    Ok(
        TokenReport {
            mint: record.mint,
            amount: record.amount,
            owner: record.owner,
            is_empty: record.amount == 0,
        },
    )
}

/// The request to destroy the record and move its balance to the vault.
pub open spec fn close_call(user: Address, token_account: TokenSlot, vault: VaultSlot) -> LedgerCall {
    LedgerCall::CloseAccount {
        account: token_account.key,
        destination: vault.key,
        authority: user,
    }
}

/// The request to burn `amount` from the record.
pub open spec fn burn_call(user: Address, token_account: TokenSlot, mint: Mint, amount: u64) -> LedgerCall {
    LedgerCall::Burn { mint: mint.key, from: token_account.key, authority: user, amount }
}

/// The place of a record after the record has been destroyed.
pub open spec fn slot_closed(token_account: TokenSlot) -> TokenSlot {
    TokenSlot { key: token_account.key, lamports: 0, data: None }
}

/// The vault after it has received the balance of a closed record and
/// counted `reserve` in its tally.
pub open spec fn vault_credited(vault: VaultSlot, reclaimed: u64, reserve: u64) -> VaultSlot {
    VaultSlot {
        key: vault.key,
        lamports: (vault.lamports + reclaimed) as u64,
        data: Some(
            VaultAccount {
                owner: vault.data->0.owner,
                bump: vault.data->0.bump,
                lamports_collected: tally_after(vault.data->0.lamports_collected, reserve),
            },
        ),
    }
}

/// Why `close_token_account` rejects `ctx`, if it does. In order: the
/// record does not exist; the vault does not stand for the user; the
/// record is not the user's; the record is not empty; the vault cannot
/// hold the record's balance, which the token ledger refuses.
pub open spec fn close_token_account_rejection(
    ctx: CloseTokenAccount,
    derived: Option<Seq<u8>>,
) -> Option<Rejection> {
    if ctx.token_account.data is None {
        Some(Rejection::Ledger(LedgerError::AccountMissing))
    } else if vault_rejection(ctx.user.key, ctx.vault, derived) is Some {
        vault_rejection(ctx.user.key, ctx.vault, derived)
    } else if ctx.token_account.data->0.owner@ != ctx.user.key@ {
        Some(Rejection::Program(BurnerError::UnauthorizedAccount))
    } else if ctx.token_account.data->0.amount != 0 {
        Some(Rejection::Program(BurnerError::AccountNotEmpty))
    } else if ctx.vault.lamports + ctx.token_account.lamports > u64::MAX {
        Some(Rejection::Ledger(LedgerError::DelegatedCallFailed))
    } else {
        None
    }
}

/// `ctx` after the record has been closed into the vault.
pub open spec fn token_account_closed(ctx: CloseTokenAccount, reserve: u64) -> CloseTokenAccount {
    CloseTokenAccount {
        program_id: ctx.program_id,
        user: ctx.user,
        token_account: slot_closed(ctx.token_account),
        vault: vault_credited(ctx.vault, ctx.token_account.lamports, reserve),
    }
}

/// The context that `close_token_account` leaves and its result, given the
/// address derived for the vault: on success the result is the requests
/// delegated to the token ledger, in order.
pub open spec fn close_token_account_outcome(
    ctx: CloseTokenAccount,
    reserve: u64,
    derived: Option<Seq<u8>>,
) -> (CloseTokenAccount, Result<Seq<LedgerCall>, Rejection>) {
    match close_token_account_rejection(ctx, derived) {
        Some(e) => (ctx, Err(e)),
        None => (
            token_account_closed(ctx, reserve),
            Ok(seq![close_call(ctx.user.key, ctx.token_account, ctx.vault)]),
        ),
    }
}

/// A result with the requests taken by view.
pub open spec fn calls_view(r: Result<Vec<LedgerCall>, Rejection>) -> Result<
    Seq<LedgerCall>,
    Rejection,
> {
    match r {
        Ok(calls) => Ok(calls@),
        Err(e) => Err(e),
    }
}

/// Credits the vault with the balance of a closed record and counts
/// `reserve` in its tally.
fn credit_vault(vault: &mut VaultSlot, reclaimed: u64, reserve: u64)
    requires
        old(vault).data is Some,
        old(vault).lamports + reclaimed <= u64::MAX,
    ensures
        *final(vault) == vault_credited(*old(vault), reclaimed, reserve),
{
    let record = match vault.data {
        Some(record) => record,
        None => {
            return ;
        },
    };
    vault.lamports = vault.lamports + reclaimed;
    vault.data = Some(
        VaultAccount {
            owner: record.owner,
            bump: record.bump,
            lamports_collected: record.lamports_collected.saturating_add(reserve),
        },
    );
}

/// Closes an empty record of the user into the user's vault, given the
/// address derived for the vault. `reserve` is the reserve floor of a token
/// record, which the vault's tally counts.
pub fn close_token_account_at(
    ctx: &mut CloseTokenAccount,
    reserve: u64,
    derived: Option<Address>,
) -> (r: Result<Vec<LedgerCall>, Rejection>)
    ensures
        (*final(ctx), calls_view(r)) == close_token_account_outcome(
            *old(ctx),
            reserve,
            derived_view(derived),
        ),
        r is Ok ==> {
            &&& final(ctx).token_account.data is None
            &&& final(ctx).vault.lamports == old(ctx).vault.lamports + old(
                ctx,
            ).token_account.lamports
            &&& final(ctx).vault.data->0.lamports_collected == tally_after(
                old(ctx).vault.data->0.lamports_collected,
                reserve,
            )
        },
        r is Err ==> *final(ctx) == *old(ctx),
{
    let record = match ctx.token_account.data {
        Some(record) => record,
        None => {
            return Err(Rejection::Ledger(LedgerError::AccountMissing));
        },
    };
    match check_vault(&ctx.user.key, &ctx.vault, derived) {
        Some(e) => {
            return Err(e);
        },
        None => {},
    }
    if record.owner != ctx.user.key {
        return Err(Rejection::Program(BurnerError::UnauthorizedAccount));
    }
    if record.amount != 0 {
        return Err(Rejection::Program(BurnerError::AccountNotEmpty));
    }
    if ctx.token_account.lamports > u64::MAX - ctx.vault.lamports {
        return Err(Rejection::Ledger(LedgerError::DelegatedCallFailed));
    }
    let close = LedgerCall::CloseAccount {
        account: ctx.token_account.key,
        destination: ctx.vault.key,
        authority: ctx.user.key,
    };
    let reclaimed: u64 = ctx.token_account.lamports;
    ctx.token_account.lamports = 0;
    ctx.token_account.data = None;
    credit_vault(&mut ctx.vault, reclaimed, reserve);
    let calls: Vec<LedgerCall> = vec![close];
    assert(calls@ =~= seq![close]);
    Ok(calls)
}

/// Closes an empty record of the user and routes its balance to the user's
/// vault. `reserve` is the reserve floor of a token record, which the
/// vault's tally counts.
pub fn close_token_account(ctx: &mut CloseTokenAccount, reserve: u64) -> (r: Result<
    Vec<LedgerCall>,
    Rejection,
>)
    ensures
        (*final(ctx), calls_view(r)) == close_token_account_outcome(
            *old(ctx),
            reserve,
            vault_derivation(old(ctx).program_id, old(ctx).user.key, old(ctx).vault),
        ),
        r is Ok ==> {
            &&& final(ctx).token_account.data is None
            &&& final(ctx).vault.lamports == old(ctx).vault.lamports + old(
                ctx,
            ).token_account.lamports
            &&& final(ctx).vault.data->0.lamports_collected == tally_after(
                old(ctx).vault.data->0.lamports_collected,
                reserve,
            )
        },
        r is Err ==> *final(ctx) == *old(ctx),
{
    let derived = derive_for_vault(&ctx.program_id, &ctx.user.key, &ctx.vault);
    close_token_account_at(ctx, reserve, derived)
}

/// Whether the token ledger carries out a burn of the whole record: the
/// record is of the mint that is named, and the mint's supply covers it.
pub open spec fn burn_accepted(record: TokenAccount, mint: Mint) -> bool {
    record.mint@ == mint.key@ && record.amount <= mint.supply
}

/// Why `burn_and_close_token_account` rejects `ctx`, if it does. In order:
/// the record does not exist; the vault does not stand for the user; the
/// record is not the user's; there are tokens to burn and the token ledger
/// refuses the burn; the vault cannot hold the record's balance, which the
/// token ledger refuses.
pub open spec fn burn_and_close_rejection(
    ctx: BurnAndCloseTokenAccount,
    derived: Option<Seq<u8>>,
) -> Option<Rejection> {
    if ctx.token_account.data is None {
        Some(Rejection::Ledger(LedgerError::AccountMissing))
    } else if vault_rejection(ctx.user.key, ctx.vault, derived) is Some {
        vault_rejection(ctx.user.key, ctx.vault, derived)
    } else if ctx.token_account.data->0.owner@ != ctx.user.key@ {
        Some(Rejection::Program(BurnerError::UnauthorizedAccount))
    } else if ctx.token_account.data->0.amount > 0 && !burn_accepted(
        ctx.token_account.data->0,
        ctx.mint,
    ) {
        Some(Rejection::Ledger(LedgerError::DelegatedCallFailed))
    } else if ctx.vault.lamports + ctx.token_account.lamports > u64::MAX {
        Some(Rejection::Ledger(LedgerError::DelegatedCallFailed))
    } else {
        None
    }
}

/// `ctx` after the record's tokens have been burned and the record closed
/// into the vault.
pub open spec fn token_account_burned_and_closed(
    ctx: BurnAndCloseTokenAccount,
    reserve: u64,
) -> BurnAndCloseTokenAccount {
    BurnAndCloseTokenAccount {
        program_id: ctx.program_id,
        user: ctx.user,
        token_account: slot_closed(ctx.token_account),
        mint: Mint {
            key: ctx.mint.key,
            supply: (ctx.mint.supply - ctx.token_account.data->0.amount) as u64,
        },
        vault: vault_credited(ctx.vault, ctx.token_account.lamports, reserve),
    }
}

/// The requests that `burn_and_close_token_account` delegates: a burn of
/// the whole amount where there is one, then the close.
pub open spec fn burn_and_close_calls(ctx: BurnAndCloseTokenAccount) -> Seq<LedgerCall> {
    if ctx.token_account.data->0.amount > 0 {
        seq![
            burn_call(ctx.user.key, ctx.token_account, ctx.mint, ctx.token_account.data->0.amount),
            close_call(ctx.user.key, ctx.token_account, ctx.vault),
        ]
    } else {
        seq![close_call(ctx.user.key, ctx.token_account, ctx.vault)]
    }
}

/// The context that `burn_and_close_token_account` leaves and its result,
/// given the address derived for the vault: on success the result is the
/// requests delegated to the token ledger, in order.
pub open spec fn burn_and_close_outcome(
    ctx: BurnAndCloseTokenAccount,
    reserve: u64,
    derived: Option<Seq<u8>>,
) -> (BurnAndCloseTokenAccount, Result<Seq<LedgerCall>, Rejection>) {
    match burn_and_close_rejection(ctx, derived) {
        Some(e) => (ctx, Err(e)),
        None => (token_account_burned_and_closed(ctx, reserve), Ok(burn_and_close_calls(ctx))),
    }
}

/// Burns what a record of the user holds and closes it into the user's
/// vault, given the address derived for the vault. `reserve` is the reserve
/// floor of a token record, which the vault's tally counts.
pub fn burn_and_close_token_account_at(
    ctx: &mut BurnAndCloseTokenAccount,
    reserve: u64,
    derived: Option<Address>,
) -> (r: Result<Vec<LedgerCall>, Rejection>)
    ensures
        (*final(ctx), calls_view(r)) == burn_and_close_outcome(
            *old(ctx),
            reserve,
            derived_view(derived),
        ),
        r is Ok ==> {
            &&& final(ctx).token_account.data is None
            &&& final(ctx).mint.supply == old(ctx).mint.supply - old(
                ctx,
            ).token_account.data->0.amount
            &&& final(ctx).vault.lamports == old(ctx).vault.lamports + old(
                ctx,
            ).token_account.lamports
            &&& final(ctx).vault.data->0.lamports_collected == tally_after(
                old(ctx).vault.data->0.lamports_collected,
                reserve,
            )
        },
        r is Err ==> *final(ctx) == *old(ctx),
{
    let record = match ctx.token_account.data {
        Some(record) => record,
        None => {
            return Err(Rejection::Ledger(LedgerError::AccountMissing));
        },
    };
    match check_vault(&ctx.user.key, &ctx.vault, derived) {
        Some(e) => {
            return Err(e);
        },
        None => {},
    }
    if record.owner != ctx.user.key {
        return Err(Rejection::Program(BurnerError::UnauthorizedAccount));
    }
    let token_amount: u64 = record.amount;
    if token_amount > 0 && (record.mint != ctx.mint.key || token_amount > ctx.mint.supply) {
        return Err(Rejection::Ledger(LedgerError::DelegatedCallFailed));
    }
    if ctx.token_account.lamports > u64::MAX - ctx.vault.lamports {
        return Err(Rejection::Ledger(LedgerError::DelegatedCallFailed));
    }
    let mut calls: Vec<LedgerCall> = Vec::new();
    if token_amount > 0 {
        calls.push(
            LedgerCall::Burn {
                mint: ctx.mint.key,
                from: ctx.token_account.key,
                authority: ctx.user.key,
                amount: token_amount,
            },
        );
        ctx.mint.supply = ctx.mint.supply - token_amount;
    }
    calls.push(
        LedgerCall::CloseAccount {
            account: ctx.token_account.key,
            destination: ctx.vault.key,
            authority: ctx.user.key,
        },
    );
    let reclaimed: u64 = ctx.token_account.lamports;
    ctx.token_account.lamports = 0;
    ctx.token_account.data = None;
    credit_vault(&mut ctx.vault, reclaimed, reserve);
    assert(calls@ =~= burn_and_close_calls(*old(ctx)));
    Ok(calls)
}

/// Burns what a record of the user holds, so that the tokens leave the
/// mint's supply, then closes the record and routes its balance to the
/// user's vault. `reserve` is the reserve floor of a token record, which
/// the vault's tally counts.
pub fn burn_and_close_token_account(ctx: &mut BurnAndCloseTokenAccount, reserve: u64) -> (r:
    Result<Vec<LedgerCall>, Rejection>)
    ensures
        (*final(ctx), calls_view(r)) == burn_and_close_outcome(
            *old(ctx),
            reserve,
            vault_derivation(old(ctx).program_id, old(ctx).user.key, old(ctx).vault),
        ),
        r is Ok ==> {
            &&& final(ctx).token_account.data is None
            &&& final(ctx).mint.supply == old(ctx).mint.supply - old(
                ctx,
            ).token_account.data->0.amount
            &&& final(ctx).vault.lamports == old(ctx).vault.lamports + old(
                ctx,
            ).token_account.lamports
            &&& final(ctx).vault.data->0.lamports_collected == tally_after(
                old(ctx).vault.data->0.lamports_collected,
                reserve,
            )
        },
        r is Err ==> *final(ctx) == *old(ctx),
{
    let derived = derive_for_vault(&ctx.program_id, &ctx.user.key, &ctx.vault);
    burn_and_close_token_account_at(ctx, reserve, derived)
}

/// Where the record exists, the vault stands for the user and can hold the
/// record's balance, `close_token_account` succeeds if and only if the
/// record is the user's and empty. A record of another owner is rejected as
/// unauthorized, and a record of the user that holds tokens as not empty.
pub proof fn close_token_account_succeeds_iff(
    ctx: CloseTokenAccount,
    reserve: u64,
    derived: Option<Seq<u8>>,
)
    requires
        ctx.token_account.data is Some,
        vault_rejection(ctx.user.key, ctx.vault, derived) is None,
        ctx.vault.lamports + ctx.token_account.lamports <= u64::MAX,
    ensures
        close_token_account_outcome(ctx, reserve, derived).1 is Ok <==> ctx.token_account.data->0.amount
            == 0 && ctx.token_account.data->0.owner@ == ctx.user.key@,
        ctx.token_account.data->0.owner@ != ctx.user.key@ ==> close_token_account_outcome(
            ctx,
            reserve,
            derived,
        ) == (
            ctx,
            Err::<Seq<LedgerCall>, Rejection>(Rejection::Program(BurnerError::UnauthorizedAccount)),
        ),
        ctx.token_account.data->0.owner@ == ctx.user.key@ && ctx.token_account.data->0.amount != 0
            ==> close_token_account_outcome(ctx, reserve, derived) == (
            ctx,
            Err::<Seq<LedgerCall>, Rejection>(Rejection::Program(BurnerError::AccountNotEmpty)),
        ),
{
}

/// Where `burn_and_close_token_account` succeeds on a record that holds
/// `n > 0` tokens, a burn of exactly `n` and then the close are delegated,
/// the mint's supply is less by exactly `n`, the record no longer exists,
/// and the vault's tally has grown by the reserve (as far as it can grow).
pub proof fn burn_and_close_removes_supply(
    ctx: BurnAndCloseTokenAccount,
    reserve: u64,
    derived: Option<Seq<u8>>,
)
    requires
        burn_and_close_outcome(ctx, reserve, derived).1 is Ok,
        ctx.token_account.data->0.amount > 0,
    ensures
        ({
            let n = ctx.token_account.data->0.amount;
            let after = burn_and_close_outcome(ctx, reserve, derived).0;
            let calls = burn_and_close_outcome(ctx, reserve, derived).1->Ok_0;
            &&& calls == seq![
                burn_call(ctx.user.key, ctx.token_account, ctx.mint, n),
                close_call(ctx.user.key, ctx.token_account, ctx.vault),
            ]
            &&& after.mint.supply == ctx.mint.supply - n
            &&& after.token_account.data is None
            &&& after.vault.lamports == ctx.vault.lamports + ctx.token_account.lamports
            &&& after.vault.data is Some
            &&& after.vault.data->0.lamports_collected == tally_after(
                ctx.vault.data->0.lamports_collected,
                reserve,
            )
            &&& ctx.vault.data->0.lamports_collected + reserve <= u64::MAX
                ==> after.vault.data->0.lamports_collected == ctx.vault.data->0.lamports_collected
                + reserve
        }),
{
}

/// A closed record stays closed: after a successful `close_token_account`
/// or `burn_and_close_token_account` the record's place holds no record,
/// and each of the three token operations rejects such a place as missing.
pub proof fn closed_is_terminal(
    closing: CloseTokenAccount,
    burning: BurnAndCloseTokenAccount,
    reserve: u64,
    derived: Option<Seq<u8>>,
    later_validate: ValidateTokenAccount,
    later_close: CloseTokenAccount,
    later_burn: BurnAndCloseTokenAccount,
)
    requires
        later_validate.token_account.data is None,
        later_close.token_account.data is None,
        later_burn.token_account.data is None,
    ensures
        close_token_account_outcome(closing, reserve, derived).1 is Ok
            ==> close_token_account_outcome(closing, reserve, derived).0.token_account.data is None,
        burn_and_close_outcome(burning, reserve, derived).1 is Ok ==> burn_and_close_outcome(
            burning,
            reserve,
            derived,
        ).0.token_account.data is None,
        validate_token_account_outcome(later_validate) == Err::<TokenReport, Rejection>(
            Rejection::Ledger(LedgerError::AccountMissing),
        ),
        close_token_account_outcome(later_close, reserve, derived).1 == Err::<
            Seq<LedgerCall>,
            Rejection,
        >(Rejection::Ledger(LedgerError::AccountMissing)),
        burn_and_close_outcome(later_burn, reserve, derived).1 == Err::<Seq<LedgerCall>, Rejection>(
            Rejection::Ledger(LedgerError::AccountMissing),
        ),
{
}

/// The record of a vault that receives a closed token record keeps its
/// owner and its bump, and its tally does not shrink; the balance that the
/// record's place held is the balance that the vault gains.
pub proof fn vault_record_only_grows(
    closing: CloseTokenAccount,
    burning: BurnAndCloseTokenAccount,
    reserve: u64,
    derived: Option<Seq<u8>>,
)
    ensures
        close_token_account_outcome(closing, reserve, derived).1 is Ok ==> ({
            let after = close_token_account_outcome(closing, reserve, derived).0;
            &&& closing.vault.data is Some && after.vault.data is Some
            &&& after.vault.data->0.owner == closing.vault.data->0.owner
            &&& after.vault.data->0.bump == closing.vault.data->0.bump
            &&& after.vault.data->0.lamports_collected >= closing.vault.data->0.lamports_collected
            &&& after.token_account.lamports == 0
            &&& after.vault.lamports == closing.vault.lamports + closing.token_account.lamports
            &&& after.user == closing.user
        }),
        burn_and_close_outcome(burning, reserve, derived).1 is Ok ==> ({
            let after = burn_and_close_outcome(burning, reserve, derived).0;
            &&& burning.vault.data is Some && after.vault.data is Some
            &&& after.vault.data->0.owner == burning.vault.data->0.owner
            &&& after.vault.data->0.bump == burning.vault.data->0.bump
            &&& after.vault.data->0.lamports_collected >= burning.vault.data->0.lamports_collected
            &&& after.token_account.lamports == 0
            &&& after.vault.lamports == burning.vault.lamports + burning.token_account.lamports
            &&& after.user == burning.user
        }),
{
}

} // verus!
