//! The three deal operations: make, take and refund.
use crate::address::{
    escrow_address, escrow_address_of, key_view, same_key, vault_authority, vault_authority_of,
    Address,
};
use crate::error::EscrowError;
use crate::state::{EscrowRecord, TokenAccount};
use vstd::prelude::*;

verus! {

/// The accounts of a make: the maker's paying account, and the slots at the record's
/// address and at the holding where the deal is created.
#[derive(Clone, Copy, Debug)]
pub struct Make {
    pub program_id: Address,
    /// The signer.
    pub maker: Address,
    /// The asset the maker wants in return.
    pub mint_b: Address,
    /// The maker's account of the offered asset.
    pub maker_ata_a: TokenAccount,
    /// The address the caller supplies for the record.
    pub escrow_key: Address,
    /// The derivation tag the caller supplies for that address.
    pub bump: u8,
    pub escrow: Option<EscrowRecord>,
    pub vault: Option<TokenAccount>,
}

/// Why a make with these accounts and arguments fails, or the holding's controlling
/// address when it succeeds. The checks come in this order.
pub open spec fn make_check(ctx: Make, seed: u64, amount: u64, receive: u64) -> Result<Seq<u8>, EscrowError> {
    if amount == 0 || receive == 0 {
        Err(EscrowError::ZeroAmount)
    } else if ctx.maker_ata_a.owner@ != ctx.maker@ {
        Err(EscrowError::Unauthorized)
    } else if escrow_address_of(ctx.program_id@, ctx.maker@, seed, ctx.bump) != Some(ctx.escrow_key@) {
        Err(EscrowError::AddressMismatch)
    } else if ctx.escrow is Some || ctx.vault is Some {
        Err(EscrowError::AlreadyExists)
    } else if ctx.maker_ata_a.amount < amount {
        Err(EscrowError::InsufficientFunds)
    } else {
        match vault_authority_of(ctx.program_id@, ctx.escrow_key@) {
            Some(a) => Ok(a),
            None => Err(EscrowError::AddressMismatch),
        }
    }
}

/// What a make with these accounts and arguments returns.
pub open spec fn make_outcome(ctx: Make, seed: u64, amount: u64, receive: u64) -> Result<(), EscrowError> {
    match make_check(ctx, seed, amount, receive) {
        Ok(_) => Ok(()),
        Err(e) => Err(e),
    }
}

/// `post` is `pre` after a successful make: the record holds the terms verbatim, the
/// holding holds `amount` of the offered asset under the derived address, and the
/// maker's account holds `amount` less.
pub open spec fn made(pre: Make, post: Make, seed: u64, amount: u64, receive: u64) -> bool {
    &&& post.program_id == pre.program_id
    &&& post.maker == pre.maker
    &&& post.mint_b == pre.mint_b
    &&& post.escrow_key == pre.escrow_key
    &&& post.bump == pre.bump
    &&& post.maker_ata_a == (TokenAccount { amount: (pre.maker_ata_a.amount - amount) as u64, ..pre.maker_ata_a })
    &&& post.escrow == Some(EscrowRecord {
        owner: pre.maker,
        seed,
        asset_offered: pre.maker_ata_a.mint,
        asset_wanted: pre.mint_b,
        amount_wanted: receive,
        derivation_tag: pre.bump,
    })
    &&& post.vault matches Some(v) && make_check(pre, seed, amount, receive) == Ok::<Seq<u8>, EscrowError>(v.owner@)
        && v.mint == pre.maker_ata_a.mint && v.amount == amount
}

/// Opens a deal: records the terms at the record's derived address and moves `amount`
/// of the offered asset from the maker into a holding controlled by an address derived
/// from the record's. All checks come before any change.
pub fn initialize(ctx: &mut Make, seed: u64, amount: u64, receive: u64) -> (r: Result<(), EscrowError>)
    ensures
        r == make_outcome(*old(ctx), seed, amount, receive),
        r is Ok ==> made(*old(ctx), *final(ctx), seed, amount, receive),
        r is Err ==> *final(ctx) == *old(ctx),
{
    if amount == 0 || receive == 0 {
        return Err(EscrowError::ZeroAmount);
    }
    if !same_key(&ctx.maker_ata_a.owner, &ctx.maker) {
        return Err(EscrowError::Unauthorized);
    }
    match escrow_address(&ctx.program_id, &ctx.maker, seed, ctx.bump) {
        Some(k) => {
            if !same_key(&k, &ctx.escrow_key) {
                return Err(EscrowError::AddressMismatch);
            }
        },
        None => {
            return Err(EscrowError::AddressMismatch);
        },
    }
    if ctx.escrow.is_some() || ctx.vault.is_some() {
        return Err(EscrowError::AlreadyExists);
    }
    if ctx.maker_ata_a.amount < amount {
        return Err(EscrowError::InsufficientFunds);
    }
    let authority = match vault_authority(&ctx.program_id, &ctx.escrow_key) {
        Some(a) => a,
        None => {
            return Err(EscrowError::AddressMismatch);
        },
    };
    ctx.escrow = Some(
        EscrowRecord {
            owner: ctx.maker,
            seed,
            asset_offered: ctx.maker_ata_a.mint,
            asset_wanted: ctx.mint_b,
            amount_wanted: receive,
            derivation_tag: ctx.bump,
        },
    );
    ctx.vault = Some(TokenAccount { owner: authority, mint: ctx.maker_ata_a.mint, amount });
    ctx.maker_ata_a.amount = ctx.maker_ata_a.amount - amount;
    Ok(())
}

/// The accounts of a take: the deal's record and holding, and the three token accounts
/// that the exchange moves funds between.
#[derive(Clone, Copy, Debug)]
pub struct Take {
    pub program_id: Address,
    /// The signer.
    pub taker: Address,
    /// The address of the record.
    pub escrow_key: Address,
    pub escrow: Option<EscrowRecord>,
    pub vault: Option<TokenAccount>,
    /// The taker's account of the wanted asset, which pays.
    pub taker_ata_b: TokenAccount,
    /// The maker's account of the wanted asset, which is paid.
    pub maker_ata_b: TokenAccount,
    /// The taker's account of the offered asset, which receives the holding.
    pub taker_ata_a: TokenAccount,
}

/// Whether `vault` is the holding bound to the record at `escrow_key`.
pub open spec fn bound_holding(program: Seq<u8>, escrow_key: Seq<u8>, rec: EscrowRecord, vault: TokenAccount) -> bool {
    vault_authority_of(program, escrow_key) == Some(vault.owner@) && vault.mint@ == rec.asset_offered@
}

/// Why a take with these accounts fails; the checks come in this order.
pub open spec fn take_outcome(ctx: Take) -> Result<(), EscrowError> {
    match (ctx.escrow, ctx.vault) {
        (Some(rec), Some(v)) => {
            if escrow_address_of(ctx.program_id@, rec.owner@, rec.seed, rec.derivation_tag) != Some(ctx.escrow_key@) {
                Err(EscrowError::AddressMismatch)
            } else if !bound_holding(ctx.program_id@, ctx.escrow_key@, rec, v) {
                Err(EscrowError::VaultMismatch)
            } else if ctx.taker_ata_b.owner@ != ctx.taker@ {
                Err(EscrowError::Unauthorized)
            } else if ctx.taker_ata_b.mint@ != rec.asset_wanted@
                || ctx.maker_ata_b.owner@ != rec.owner@
                || ctx.maker_ata_b.mint@ != rec.asset_wanted@
                || ctx.taker_ata_a.owner@ != ctx.taker@
                || ctx.taker_ata_a.mint@ != rec.asset_offered@ {
                Err(EscrowError::AccountMismatch)
            } else if ctx.taker_ata_b.amount < rec.amount_wanted {
                Err(EscrowError::InsufficientFunds)
            } else if ctx.maker_ata_b.amount + rec.amount_wanted > u64::MAX
                || ctx.taker_ata_a.amount + v.amount > u64::MAX {
                Err(EscrowError::Overflow)
            } else {
                Ok(())
            }
        },
        _ => Err(EscrowError::RecordNotFound),
    }
}

/// `pre` after a successful take: `amount_wanted` has gone from the taker to the maker,
/// the whole holding to the taker, and the record and holding are gone.
pub open spec fn taken(pre: Take) -> Take {
    let rec = pre.escrow->Some_0;
    let v = pre.vault->Some_0;
    Take {
        escrow: None,
        vault: None,
        taker_ata_b: TokenAccount {
            amount: (pre.taker_ata_b.amount - rec.amount_wanted) as u64,
            ..pre.taker_ata_b
        },
        maker_ata_b: TokenAccount {
            amount: (pre.maker_ata_b.amount + rec.amount_wanted) as u64,
            ..pre.maker_ata_b
        },
        taker_ata_a: TokenAccount { amount: (pre.taker_ata_a.amount + v.amount) as u64, ..pre.taker_ata_a },
        ..pre
    }
}

/// Settles a deal: the taker pays the wanted amount to the maker, receives the whole
/// holding, and the holding and the record are closed. All checks come before any
/// change.
pub fn take(ctx: &mut Take) -> (r: Result<(), EscrowError>)
    ensures
        r == take_outcome(*old(ctx)),
        r is Ok ==> *final(ctx) == taken(*old(ctx)),
        r is Err ==> *final(ctx) == *old(ctx),
{
    let (rec, v) = match (ctx.escrow, ctx.vault) {
        (Some(rec), Some(v)) => (rec, v),
        _ => {
            return Err(EscrowError::RecordNotFound);
        },
    };
    check_record_address(&ctx.program_id, &ctx.escrow_key, &rec)?;
    if !holding_is_bound(&ctx.program_id, &ctx.escrow_key, &rec, &v) {
        return Err(EscrowError::VaultMismatch);
    }
    if !same_key(&ctx.taker_ata_b.owner, &ctx.taker) {
        return Err(EscrowError::Unauthorized);
    }
    if !same_key(&ctx.taker_ata_b.mint, &rec.asset_wanted) || !same_key(&ctx.maker_ata_b.owner, &rec.owner)
        || !same_key(&ctx.maker_ata_b.mint, &rec.asset_wanted) || !same_key(&ctx.taker_ata_a.owner, &ctx.taker)
        || !same_key(&ctx.taker_ata_a.mint, &rec.asset_offered) {
        return Err(EscrowError::AccountMismatch);
    }
    if ctx.taker_ata_b.amount < rec.amount_wanted {
        return Err(EscrowError::InsufficientFunds);
    }
    if ctx.maker_ata_b.amount > u64::MAX - rec.amount_wanted || ctx.taker_ata_a.amount > u64::MAX - v.amount {
        return Err(EscrowError::Overflow);
    }
    ctx.taker_ata_b.amount = ctx.taker_ata_b.amount - rec.amount_wanted;
    ctx.maker_ata_b.amount = ctx.maker_ata_b.amount + rec.amount_wanted;
    ctx.taker_ata_a.amount = ctx.taker_ata_a.amount + v.amount;
    ctx.vault = None;
    ctx.escrow = None;
    Ok(())
}

/// Fails with `AddressMismatch` unless the record's owner, seed and derivation tag
/// derive `escrow_key`.
fn check_record_address(program_id: &Address, escrow_key: &Address, rec: &EscrowRecord) -> (r: Result<(), EscrowError>)
    ensures
        r is Ok <==> escrow_address_of(program_id@, rec.owner@, rec.seed, rec.derivation_tag) == Some(escrow_key@),
        r is Err ==> r == Err::<(), EscrowError>(EscrowError::AddressMismatch),
{
    match escrow_address(program_id, &rec.owner, rec.seed, rec.derivation_tag) {
        Some(k) => {
            if same_key(&k, escrow_key) {
                Ok(())
            } else {
                Err(EscrowError::AddressMismatch)
            }
        },
        None => Err(EscrowError::AddressMismatch),
    }
}

/// Whether `vault` is the holding bound to the record at `escrow_key`.
pub fn holding_is_bound(program_id: &Address, escrow_key: &Address, rec: &EscrowRecord, vault: &TokenAccount) -> (r: bool)
    ensures
        r == bound_holding(program_id@, escrow_key@, *rec, *vault),
{
    match vault_authority(program_id, escrow_key) {
        Some(a) => same_key(&a, &vault.owner) && same_key(&vault.mint, &rec.asset_offered),
        None => false,
    }
}

/// The accounts of a refund: the deal's record and holding, and the maker's account of
/// the offered asset that gets the holding back.
#[derive(Clone, Copy, Debug)]
pub struct Refund {
    pub program_id: Address,
    /// The signer.
    pub maker: Address,
    /// The address of the record.
    pub escrow_key: Address,
    pub escrow: Option<EscrowRecord>,
    pub vault: Option<TokenAccount>,
    /// The maker's account of the offered asset.
    pub maker_ata_a: TokenAccount,
}

/// Why a refund with these accounts fails; the checks come in this order.
pub open spec fn refund_outcome(ctx: Refund) -> Result<(), EscrowError> {
    match (ctx.escrow, ctx.vault) {
        (Some(rec), Some(v)) => {
            if ctx.maker@ != rec.owner@ {
                Err(EscrowError::Unauthorized)
            } else if escrow_address_of(ctx.program_id@, rec.owner@, rec.seed, rec.derivation_tag) != Some(ctx.escrow_key@) {
                Err(EscrowError::AddressMismatch)
            } else if !bound_holding(ctx.program_id@, ctx.escrow_key@, rec, v) {
                Err(EscrowError::VaultMismatch)
            } else if ctx.maker_ata_a.owner@ != ctx.maker@ || ctx.maker_ata_a.mint@ != rec.asset_offered@ {
                Err(EscrowError::AccountMismatch)
            } else if ctx.maker_ata_a.amount + v.amount > u64::MAX {
                Err(EscrowError::Overflow)
            } else {
                Ok(())
            }
        },
        _ => Err(EscrowError::RecordNotFound),
    }
}

/// `pre` after a successful refund: the whole holding is back in the maker's account,
/// and the record and holding are gone.
pub open spec fn refunded(pre: Refund) -> Refund {
    let v = pre.vault->Some_0;
    Refund {
        escrow: None,
        vault: None,
        maker_ata_a: TokenAccount { amount: (pre.maker_ata_a.amount + v.amount) as u64, ..pre.maker_ata_a },
        ..pre
    }
}

/// Cancels a deal: the whole holding goes back to the maker, and the holding and the
/// record are closed. Only the record's owner may do it. All checks come before any
/// change.
pub fn refund(ctx: &mut Refund) -> (r: Result<(), EscrowError>)
    ensures
        r == refund_outcome(*old(ctx)),
        r is Ok ==> *final(ctx) == refunded(*old(ctx)),
        r is Err ==> *final(ctx) == *old(ctx),
{
    let (rec, v) = match (ctx.escrow, ctx.vault) {
        (Some(rec), Some(v)) => (rec, v),
        _ => {
            return Err(EscrowError::RecordNotFound);
        },
    };
    if !same_key(&ctx.maker, &rec.owner) {
        return Err(EscrowError::Unauthorized);
    }
    check_record_address(&ctx.program_id, &ctx.escrow_key, &rec)?;
    if !holding_is_bound(&ctx.program_id, &ctx.escrow_key, &rec, &v) {
        return Err(EscrowError::VaultMismatch);
    }
    if !same_key(&ctx.maker_ata_a.owner, &ctx.maker) || !same_key(&ctx.maker_ata_a.mint, &rec.asset_offered) {
        return Err(EscrowError::AccountMismatch);
    }
    if ctx.maker_ata_a.amount > u64::MAX - v.amount {
        return Err(EscrowError::Overflow);
    }
    ctx.maker_ata_a.amount = ctx.maker_ata_a.amount + v.amount;
    ctx.vault = None;
    ctx.escrow = None;
    Ok(())
}

} // verus!
