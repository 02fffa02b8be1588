//! Properties of deals that span several operations.
use crate::error::EscrowError;
use crate::instructions::{
    made, make_outcome, refund_outcome, refunded, take_outcome, taken, Make, Refund, Take,
};
use vstd::prelude::*;

verus! {

/// A successful make leaves exactly `amount` in the holding and records `receive` as
/// the amount wanted.
pub proof fn lemma_make_records_terms(pre: Make, post: Make, seed: u64, amount: u64, receive: u64)
    requires
        make_outcome(pre, seed, amount, receive) is Ok,
        made(pre, post, seed, amount, receive),
    ensures
        post.vault matches Some(v) && v.amount == amount,
        post.escrow matches Some(e) && e.amount_wanted == receive && e.owner == pre.maker,
        post.maker_ata_a.amount + amount == pre.maker_ata_a.amount,
{
}

/// A take of a deal just made pays the maker exactly `receive` of the wanted asset and
/// hands the taker exactly the `amount` the maker deposited.
pub proof fn lemma_take_pays_in_full(
    pre: Make,
    post: Make,
    seed: u64,
    amount: u64,
    receive: u64,
    t: Take,
)
    requires
        make_outcome(pre, seed, amount, receive) is Ok,
        made(pre, post, seed, amount, receive),
        t.escrow == post.escrow,
        t.vault == post.vault,
        take_outcome(t) is Ok,
    ensures
        taken(t).taker_ata_a.amount == t.taker_ata_a.amount + amount,
        taken(t).maker_ata_b.amount == t.maker_ata_b.amount + receive,
        taken(t).taker_ata_b.amount + receive == t.taker_ata_b.amount,
{
}

/// After a successful take the record and the holding are gone, and any later take or
/// refund of the same deal fails with `RecordNotFound`.
pub proof fn lemma_taken_deal_is_gone(t: Take, again: Take, cancel: Refund)
    requires
        take_outcome(t) is Ok,
        again.escrow == taken(t).escrow,
        again.vault == taken(t).vault,
        cancel.escrow == taken(t).escrow,
        cancel.vault == taken(t).vault,
    ensures
        taken(t).escrow is None,
        taken(t).vault is None,
        take_outcome(again) == Err::<(), EscrowError>(EscrowError::RecordNotFound),
        refund_outcome(cancel) == Err::<(), EscrowError>(EscrowError::RecordNotFound),
{
}

/// After a successful refund the record and the holding are gone, and any later take or
/// refund of the same deal fails with `RecordNotFound`.
pub proof fn lemma_refunded_deal_is_gone(r: Refund, again: Refund, late: Take)
    requires
        refund_outcome(r) is Ok,
        again.escrow == refunded(r).escrow,
        again.vault == refunded(r).vault,
        late.escrow == refunded(r).escrow,
        late.vault == refunded(r).vault,
    ensures
        refunded(r).escrow is None,
        refunded(r).vault is None,
        refund_outcome(again) == Err::<(), EscrowError>(EscrowError::RecordNotFound),
        take_outcome(late) == Err::<(), EscrowError>(EscrowError::RecordNotFound),
{
}

/// A refund pays the whole holding into an account of the record's owner, and a
/// refund signed by anyone else fails with `Unauthorized`.
pub proof fn lemma_refund_only_to_owner(r: Refund)
    requires
        r.escrow is Some,
        r.vault is Some,
    ensures
        refund_outcome(r) is Ok ==> r.maker_ata_a.owner@ == r.escrow->Some_0.owner@
            && refunded(r).maker_ata_a.amount == r.maker_ata_a.amount + r.vault->Some_0.amount,
        r.maker@ != r.escrow->Some_0.owner@ ==> refund_outcome(r) == Err::<(), EscrowError>(
            EscrowError::Unauthorized,
        ),
{
}

/// A make followed at once by the maker's refund succeeds and gives the maker's account
/// back its balance from before the make.
pub proof fn lemma_make_then_refund(pre: Make, post: Make, seed: u64, amount: u64, receive: u64, r: Refund)
    requires
        make_outcome(pre, seed, amount, receive) is Ok,
        made(pre, post, seed, amount, receive),
        r.program_id == pre.program_id,
        r.maker == pre.maker,
        r.escrow_key == pre.escrow_key,
        r.escrow == post.escrow,
        r.vault == post.vault,
        r.maker_ata_a == post.maker_ata_a,
    ensures
        refund_outcome(r) is Ok,
        refunded(r).maker_ata_a == pre.maker_ata_a,
{
}

} // verus!
