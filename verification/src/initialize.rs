//! The one-time creation of the program state.

use crate::accounts::{
    check_creation, creation_rejection, surplus, BurnerState, Signer, StateSlot,
};
use crate::address::{
    find_state_address, found_program_address, found_view, state_seeds, Address,
};
use crate::error::{LedgerError, Rejection};
use vstd::prelude::*;

verus! {

/// What `initialize` works on: the authority, who signs and pays, and the
/// place where the program state is to stand.
#[derive(Clone, Copy, Debug, PartialEq, Eq)]
pub struct Initialize {
    pub program_id: Address,
    pub authority: Signer,
    pub state: StateSlot,
}

/// Why `initialize` rejects `ctx`, if it does.
pub open spec fn initialize_rejection(
    ctx: Initialize,
    reserve: u64,
    found: Option<(Seq<u8>, u8)>,
) -> Option<Rejection> {
    creation_rejection(
        ctx.state.key@,
        ctx.state.data is Some,
        ctx.state.lamports,
        ctx.authority.lamports,
        reserve,
        found,
    )
}

/// `ctx` after the program state has been created in it at time `now`: the
/// authority has paid what the place was short of `reserve`, and the place
/// holds the state with the authority's address, marked initialized.
pub open spec fn state_created(ctx: Initialize, reserve: u64, now: i64) -> Initialize {
    Initialize {
        program_id: ctx.program_id,
        authority: Signer {
            key: ctx.authority.key,
            lamports: (ctx.authority.lamports - surplus(reserve, ctx.state.lamports)) as u64,
        },
        state: StateSlot {
            key: ctx.state.key,
            lamports: (ctx.state.lamports + surplus(reserve, ctx.state.lamports)) as u64,
            data: Some(
                BurnerState { authority: ctx.authority.key, is_initialized: true, created_at: now },
            ),
        },
    }
}

/// The context and the result that `initialize` leaves, given what the
/// search for the state's address gave.
pub open spec fn initialize_outcome(
    ctx: Initialize,
    reserve: u64,
    now: i64,
    found: Option<(Seq<u8>, u8)>,
) -> (Initialize, Result<(), Rejection>) {
    match initialize_rejection(ctx, reserve, found) {
        Some(e) => (ctx, Err(e)),
        None => (state_created(ctx, reserve, now), Ok(())),
    }
}

/// Creates the program state, given the address and bump that were found
/// for it. `reserve` is the reserve floor of a state record, `now` the
/// current time.
pub fn initialize_at(
    ctx: &mut Initialize,
    reserve: u64,
    now: i64,
    found: Option<(Address, u8)>,
) -> (r: Result<(), Rejection>)
    ensures
        (*final(ctx), r) == initialize_outcome(*old(ctx), reserve, now, found_view(found)),
        r is Ok ==> final(ctx).state.data == Some(
            BurnerState { authority: old(ctx).authority.key, is_initialized: true, created_at: now },
        ),
        r is Err ==> *final(ctx) == *old(ctx),
{
    let owed = match check_creation(
        &ctx.state.key,
        ctx.state.data.is_some(),
        ctx.state.lamports,
        ctx.authority.lamports,
        reserve,
        found,
    ) {
        Ok(pair) => pair.1,
        Err(e) => {
            return Err(e);
        },
    };
    ctx.authority.lamports = ctx.authority.lamports - owed;
    ctx.state.lamports = ctx.state.lamports + owed;
    ctx.state.data = Some(
        BurnerState { authority: ctx.authority.key, is_initialized: true, created_at: now },
    );
    Ok(())
}

/// Creates the program state at the address derived from the label `state`.
/// `reserve` is the reserve floor of a state record, `now` the current time.
pub fn initialize(ctx: &mut Initialize, reserve: u64, now: i64) -> (r: Result<(), Rejection>)
    ensures
        (*final(ctx), r) == initialize_outcome(
            *old(ctx),
            reserve,
            now,
            found_program_address(state_seeds(), old(ctx).program_id@),
        ),
        r is Ok ==> final(ctx).state.data == Some(
            BurnerState { authority: old(ctx).authority.key, is_initialized: true, created_at: now },
        ),
        r is Err ==> *final(ctx) == *old(ctx),
{
    let found = find_state_address(&ctx.program_id);
    initialize_at(ctx, reserve, now, found)
}

/// The program state is created exactly once. On a free place at the
/// address found for the state, with an authority who can pay what the
/// place is short of the reserve, `initialize` succeeds; after that it is
/// rejected at that place, whoever calls and whatever the reserve and the
/// time, because the address is in use.
pub proof fn initialize_only_once(
    ctx: Initialize,
    reserve: u64,
    now: i64,
    next: Initialize,
    next_reserve: u64,
    later: i64,
)
    requires
        found_program_address(state_seeds(), ctx.program_id@) matches Some(found) && found.0
            == ctx.state.key@,
        ctx.state.data is None,
        ctx.authority.lamports >= surplus(reserve, ctx.state.lamports),
        next.program_id@ == ctx.program_id@,
        next.state == initialize_outcome(
            ctx,
            reserve,
            now,
            found_program_address(state_seeds(), ctx.program_id@),
        ).0.state,
    ensures
        initialize_outcome(
            ctx,
            reserve,
            now,
            found_program_address(state_seeds(), ctx.program_id@),
        ).1 is Ok,
        initialize_outcome(
            next,
            next_reserve,
            later,
            found_program_address(state_seeds(), next.program_id@),
        ) == (next, Err::<(), Rejection>(Rejection::Ledger(LedgerError::AddressInUse))),
{
}

} // verus!
