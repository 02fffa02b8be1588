use anchor_lang::prelude::Pubkey;
use escrow::address::{escrow_address, same_key, vault_authority, Address};
use escrow::error::EscrowError;
use escrow::instructions::{initialize, refund, take, Make, Refund, Take};
use escrow::state::TokenAccount;
use std::str::FromStr;

const MAKER: Address = [1u8; 32];
const TAKER: Address = [2u8; 32];
const STRANGER: Address = [3u8; 32];
const MINT_A: Address = [10u8; 32];
const MINT_B: Address = [11u8; 32];

fn program() -> Address {
    Pubkey::from_str("6ynKAn3rXKKXAqoAP5ik8TqV91swMSjsQqHVd1vER9oV").unwrap().to_bytes()
}

fn found(maker: &Address, seed: u64) -> (Address, u8) {
    let (k, b) = Pubkey::find_program_address(
        &[b"escrow", maker.as_ref(), &seed.to_le_bytes()],
        &Pubkey::new_from_array(program()),
    );
    (k.to_bytes(), b)
}

fn account(owner: Address, mint: Address, amount: u64) -> TokenAccount {
    TokenAccount { owner, mint, amount }
}

fn make_ctx(seed: u64, balance: u64) -> Make {
    let (escrow_key, bump) = found(&MAKER, seed);
    Make {
        program_id: program(),
        maker: MAKER,
        mint_b: MINT_B,
        maker_ata_a: account(MAKER, MINT_A, balance),
        escrow_key,
        bump,
        escrow: None,
        vault: None,
    }
}

fn take_ctx(m: &Make, taker_b: u64) -> Take {
    Take {
        program_id: m.program_id,
        taker: TAKER,
        escrow_key: m.escrow_key,
        escrow: m.escrow,
        vault: m.vault,
        taker_ata_b: account(TAKER, MINT_B, taker_b),
        maker_ata_b: account(MAKER, MINT_B, 0),
        taker_ata_a: account(TAKER, MINT_A, 0),
    }
}

fn refund_ctx(m: &Make, signer: Address) -> Refund {
    Refund {
        program_id: m.program_id,
        maker: signer,
        escrow_key: m.escrow_key,
        escrow: m.escrow,
        vault: m.vault,
        maker_ata_a: m.maker_ata_a,
    }
}

#[test]
fn make_then_take_exchanges_both_sides() {
    let mut m = make_ctx(7, 100);
    assert_eq!(initialize(&mut m, 7, 100, 50), Ok(()));
    let rec = m.escrow.unwrap();
    assert_eq!(rec.owner, MAKER);
    assert_eq!(rec.seed, 7);
    assert_eq!(rec.asset_offered, MINT_A);
    assert_eq!(rec.asset_wanted, MINT_B);
    assert_eq!(rec.amount_wanted, 50);
    assert_eq!(rec.derivation_tag, m.bump);
    assert_eq!(m.vault.unwrap().amount, 100);
    assert_eq!(m.maker_ata_a.amount, 0);

    let mut t = take_ctx(&m, 50);
    assert_eq!(take(&mut t), Ok(()));
    assert_eq!(t.taker_ata_b.amount, 0);
    assert_eq!(t.maker_ata_b.amount, 50);
    assert_eq!(t.taker_ata_a.amount, 100);
    assert!(t.escrow.is_none());
    assert!(t.vault.is_none());
}

#[test]
fn make_then_refund_returns_deposit() {
    let mut m = make_ctx(7, 100);
    assert_eq!(initialize(&mut m, 7, 100, 50), Ok(()));
    let mut r = refund_ctx(&m, MAKER);
    assert_eq!(refund(&mut r), Ok(()));
    assert_eq!(r.maker_ata_a.amount, 100);
    assert!(r.escrow.is_none());
    assert!(r.vault.is_none());

    let mut late = take_ctx(&m, 50);
    late.escrow = r.escrow;
    late.vault = r.vault;
    assert_eq!(take(&mut late), Err(EscrowError::RecordNotFound));
    assert_eq!(late.taker_ata_b.amount, 50);
}

#[test]
fn make_then_refund_restores_balance() {
    let mut m = make_ctx(42, 1_000);
    assert_eq!(initialize(&mut m, 42, 250, 9), Ok(()));
    assert_eq!(m.maker_ata_a.amount, 750);
    let mut r = refund_ctx(&m, MAKER);
    assert_eq!(refund(&mut r), Ok(()));
    assert_eq!(r.maker_ata_a.amount, 1_000);
}

#[test]
fn settled_deal_cannot_be_taken_or_refunded_again() {
    let mut m = make_ctx(3, 80);
    assert_eq!(initialize(&mut m, 3, 80, 20), Ok(()));
    let mut t = take_ctx(&m, 20);
    assert_eq!(take(&mut t), Ok(()));
    let mut again = take_ctx(&m, 20);
    again.escrow = t.escrow;
    again.vault = t.vault;
    assert_eq!(take(&mut again), Err(EscrowError::RecordNotFound));
    let mut r = refund_ctx(&m, MAKER);
    r.escrow = t.escrow;
    r.vault = t.vault;
    assert_eq!(refund(&mut r), Err(EscrowError::RecordNotFound));
    assert_eq!(r.maker_ata_a.amount, 0);
}

#[test]
fn refund_by_stranger_is_unauthorized_and_changes_nothing() {
    let mut m = make_ctx(7, 100);
    assert_eq!(initialize(&mut m, 7, 100, 50), Ok(()));
    let mut r = refund_ctx(&m, STRANGER);
    r.maker_ata_a = account(STRANGER, MINT_A, 5);
    assert_eq!(refund(&mut r), Err(EscrowError::Unauthorized));
    assert_eq!(r.maker_ata_a.amount, 5);
    assert_eq!(r.vault.unwrap().amount, 100);
    assert!(r.escrow.is_some());
}

#[test]
fn make_rejects_zero_amounts() {
    let mut m = make_ctx(7, 100);
    assert_eq!(initialize(&mut m, 7, 0, 50), Err(EscrowError::ZeroAmount));
    assert_eq!(initialize(&mut m, 7, 10, 0), Err(EscrowError::ZeroAmount));
    assert!(m.escrow.is_none());
    assert_eq!(m.maker_ata_a.amount, 100);
}

#[test]
fn make_rejects_account_of_another_owner() {
    let mut m = make_ctx(7, 100);
    m.maker_ata_a.owner = STRANGER;
    assert_eq!(initialize(&mut m, 7, 10, 5), Err(EscrowError::Unauthorized));
}

#[test]
fn make_rejects_wrong_derivation_tag() {
    let mut m = make_ctx(7, 100);
    m.bump = m.bump.wrapping_sub(1);
    assert_eq!(initialize(&mut m, 7, 10, 5), Err(EscrowError::AddressMismatch));
    let mut other = make_ctx(7, 100);
    assert_eq!(initialize(&mut other, 8, 10, 5), Err(EscrowError::AddressMismatch));
    assert!(other.escrow.is_none());
    assert!(other.vault.is_none());
}

#[test]
fn make_rejects_existing_deal() {
    let mut m = make_ctx(7, 100);
    assert_eq!(initialize(&mut m, 7, 10, 5), Ok(()));
    assert_eq!(initialize(&mut m, 7, 10, 5), Err(EscrowError::AlreadyExists));
    assert_eq!(m.maker_ata_a.amount, 90);
    assert_eq!(m.vault.unwrap().amount, 10);
}

#[test]
fn make_rejects_short_balance() {
    let mut m = make_ctx(7, 99);
    assert_eq!(initialize(&mut m, 7, 100, 50), Err(EscrowError::InsufficientFunds));
    assert_eq!(m.maker_ata_a.amount, 99);
    assert!(m.escrow.is_none());
}

#[test]
fn take_rejects_short_payment() {
    let mut m = make_ctx(7, 100);
    assert_eq!(initialize(&mut m, 7, 100, 50), Ok(()));
    let mut t = take_ctx(&m, 49);
    assert_eq!(take(&mut t), Err(EscrowError::InsufficientFunds));
    assert_eq!(t.taker_ata_b.amount, 49);
    assert_eq!(t.maker_ata_b.amount, 0);
    assert_eq!(t.vault.unwrap().amount, 100);
}

#[test]
fn take_rejects_substituted_holding() {
    let mut m = make_ctx(7, 100);
    assert_eq!(initialize(&mut m, 7, 100, 50), Ok(()));
    let mut t = take_ctx(&m, 50);
    t.vault = Some(account(STRANGER, MINT_A, 100));
    assert_eq!(take(&mut t), Err(EscrowError::VaultMismatch));
    let mut u = take_ctx(&m, 50);
    u.vault = Some(account(m.vault.unwrap().owner, MINT_B, 100));
    assert_eq!(take(&mut u), Err(EscrowError::VaultMismatch));
}

#[test]
fn take_rejects_wrong_record_address() {
    let mut m = make_ctx(7, 100);
    assert_eq!(initialize(&mut m, 7, 100, 50), Ok(()));
    let mut t = take_ctx(&m, 50);
    t.escrow_key = STRANGER;
    assert_eq!(take(&mut t), Err(EscrowError::AddressMismatch));
}

#[test]
fn take_rejects_mismatched_accounts() {
    let mut m = make_ctx(7, 100);
    assert_eq!(initialize(&mut m, 7, 100, 50), Ok(()));
    let mut t = take_ctx(&m, 50);
    t.taker_ata_b.owner = STRANGER;
    assert_eq!(take(&mut t), Err(EscrowError::Unauthorized));
    let mut u = take_ctx(&m, 50);
    u.maker_ata_b.owner = STRANGER;
    assert_eq!(take(&mut u), Err(EscrowError::AccountMismatch));
    let mut w = take_ctx(&m, 50);
    w.taker_ata_a.mint = MINT_B;
    assert_eq!(take(&mut w), Err(EscrowError::AccountMismatch));
}

#[test]
fn take_rejects_overflowing_receipt() {
    let mut m = make_ctx(7, 100);
    assert_eq!(initialize(&mut m, 7, 100, 50), Ok(()));
    let mut t = take_ctx(&m, 50);
    t.maker_ata_b.amount = u64::MAX - 49;
    assert_eq!(take(&mut t), Err(EscrowError::Overflow));
    assert_eq!(t.taker_ata_b.amount, 50);
}

#[test]
fn refund_rejects_wrong_receiving_account() {
    let mut m = make_ctx(7, 100);
    assert_eq!(initialize(&mut m, 7, 100, 50), Ok(()));
    let mut r = refund_ctx(&m, MAKER);
    r.maker_ata_a.mint = MINT_B;
    assert_eq!(refund(&mut r), Err(EscrowError::AccountMismatch));
    let mut s = refund_ctx(&m, MAKER);
    s.maker_ata_a.amount = u64::MAX;
    assert_eq!(refund(&mut s), Err(EscrowError::Overflow));
}

#[test]
fn largest_deposit_round_trips() {
    let mut m = make_ctx(u64::MAX, u64::MAX);
    assert_eq!(initialize(&mut m, u64::MAX, u64::MAX, u64::MAX), Ok(()));
    assert_eq!(m.maker_ata_a.amount, 0);
    let mut r = refund_ctx(&m, MAKER);
    assert_eq!(refund(&mut r), Ok(()));
    assert_eq!(r.maker_ata_a.amount, u64::MAX);
}

#[test]
fn escrow_address_matches_found_address() {
    let (k, b) = found(&MAKER, 7);
    assert_eq!(escrow_address(&program(), &MAKER, 7, b), Some(k));
    assert_ne!(k, MAKER);
}

#[test]
fn vault_authority_is_derived_from_record_address() {
    let (k, _) = found(&MAKER, 7);
    let (v, _) = Pubkey::find_program_address(&[b"vault", k.as_ref()], &Pubkey::new_from_array(program()));
    assert_eq!(vault_authority(&program(), &k), Some(v.to_bytes()));
    assert_ne!(v.to_bytes(), k);
}

#[test]
fn same_key_compares_every_byte() {
    let mut k = MAKER;
    assert!(same_key(&k, &MAKER));
    k[31] = 9;
    assert!(!same_key(&k, &MAKER));
}
