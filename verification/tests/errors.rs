use l1x_ft::{Address, AllowanceUpdateOp, FTAllowance, FTMetadata, FtError, L1xFtErc20};
use std::collections::{BTreeMap, BTreeSet};

const OWNER: Address = (0, 1);
const ALICE: Address = (1, 10);
const BOB: Address = (1, 11);
const CAROL: Address = (2, 10);

fn described(decimals: u8) -> FTMetadata {
    FTMetadata::new("Token".to_string(), decimals, "TKN".to_string(), Some("icon".to_string()))
}

fn started(account_ids: Vec<Address>, amounts: Vec<u128>) -> L1xFtErc20 {
    L1xFtErc20::new(OWNER, OWNER, false, described(6), account_ids, amounts).unwrap()
}

#[test]
fn only_the_owner_creates_the_ledger() {
    let refused = L1xFtErc20::new(ALICE, OWNER, false, described(6), vec![ALICE], vec![1]);
    assert_eq!(refused, Err(FtError::Unauthorized));
}

#[test]
fn the_ledger_is_created_once() {
    let refused = L1xFtErc20::new(OWNER, OWNER, true, described(6), vec![ALICE], vec![1]);
    assert_eq!(refused, Err(FtError::AlreadyInitialized));
}

#[test]
fn more_than_eighteen_decimals_are_refused() {
    let refused = L1xFtErc20::new(OWNER, OWNER, false, described(19), vec![ALICE], vec![1]);
    assert_eq!(refused, Err(FtError::InvalidMetadata));
    let refused = L1xFtErc20::new(OWNER, OWNER, false, described(255), vec![], vec![]);
    assert_eq!(refused, Err(FtError::InvalidMetadata));
    assert!(L1xFtErc20::new(OWNER, OWNER, false, described(18), vec![], vec![]).is_ok());
    assert!(L1xFtErc20::new(OWNER, OWNER, false, described(0), vec![], vec![]).is_ok());
    assert!(described(18).is_valid());
    assert!(!described(19).is_valid());
}

#[test]
fn lists_of_different_length_are_refused() {
    let refused = L1xFtErc20::new(OWNER, OWNER, false, described(6), vec![ALICE, BOB], vec![1]);
    assert_eq!(refused, Err(FtError::LengthMismatch));
    let refused = L1xFtErc20::new(OWNER, OWNER, false, described(6), vec![], vec![1]);
    assert_eq!(refused, Err(FtError::LengthMismatch));
}

#[test]
fn a_supply_beyond_128_bits_is_refused() {
    let refused =
        L1xFtErc20::new(OWNER, OWNER, false, described(6), vec![ALICE, BOB], vec![u128::MAX, 1]);
    assert_eq!(refused, Err(FtError::ArithmeticOverflow));
    let refused = L1xFtErc20::new(
        OWNER,
        OWNER,
        false,
        described(6),
        vec![ALICE, BOB, CAROL],
        vec![1 << 127, 1 << 126, 1 << 126],
    );
    assert_eq!(refused, Err(FtError::ArithmeticOverflow));
    let accepted = L1xFtErc20::new(
        OWNER,
        OWNER,
        false,
        described(6),
        vec![ALICE, BOB, CAROL],
        vec![1 << 127, 1 << 126, (1 << 126) - 1],
    );
    assert_eq!(accepted.unwrap().ft_total_supply(), u128::MAX);
}

#[test]
fn the_checks_of_creation_come_in_order() {
    // Not the owner, although everything else is wrong too.
    let refused = L1xFtErc20::new(ALICE, OWNER, true, described(40), vec![ALICE], vec![]);
    assert_eq!(refused, Err(FtError::Unauthorized));
    let refused = L1xFtErc20::new(OWNER, OWNER, true, described(40), vec![ALICE], vec![]);
    assert_eq!(refused, Err(FtError::AlreadyInitialized));
    let refused = L1xFtErc20::new(OWNER, OWNER, false, described(40), vec![ALICE], vec![]);
    assert_eq!(refused, Err(FtError::InvalidMetadata));
}

#[test]
fn seeding_a_ledger_that_has_a_supply_is_refused() {
    let mut ledger = started(vec![ALICE], vec![5]);
    let before = ledger.clone();
    assert_eq!(
        ledger.initialize_balance_holders(vec![BOB], vec![1]),
        Err(FtError::AlreadyInitialized)
    );
    assert_eq!(
        ledger.initialize_balance_holders(vec![BOB], vec![]),
        Err(FtError::LengthMismatch)
    );
    assert_eq!(ledger, before);
}

#[test]
fn a_failed_seeding_writes_no_balance() {
    let mut ledger = started(vec![], vec![]);
    let before = ledger.clone();
    assert_eq!(
        ledger.initialize_balance_holders(vec![ALICE, BOB, CAROL], vec![7, u128::MAX, 1]),
        Err(FtError::ArithmeticOverflow)
    );
    assert_eq!(ledger, before);
    assert_eq!(ledger.ft_balance_of(ALICE), 0);
}

#[test]
fn without_a_stored_ledger_nothing_is_loaded() {
    assert_eq!(L1xFtErc20::load(None), Err(FtError::NotInitialized));
    let ledger = started(vec![ALICE], vec![5]);
    assert_eq!(L1xFtErc20::load(Some(ledger.clone())), Ok(ledger));
}

#[test]
fn minting_beyond_128_bits_is_refused() {
    let mut ledger = started(vec![ALICE], vec![u128::MAX - 1]);
    let before = ledger.clone();
    assert_eq!(ledger.ft_mint(OWNER, BOB, 2), Err(FtError::ArithmeticOverflow));
    assert_eq!(ledger.ft_mint(OWNER, ALICE, u128::MAX), Err(FtError::ArithmeticOverflow));
    assert_eq!(ledger, before);
    assert!(ledger.ft_mint(OWNER, BOB, 1).is_ok());
    assert_eq!(ledger.ft_total_supply(), u128::MAX);
    assert_eq!(ledger.ft_mint(OWNER, BOB, 1), Err(FtError::ArithmeticOverflow));
}

#[test]
fn a_balance_beyond_128_bits_is_refused() {
    // Balances that add up to more than the total supply: no sequence of
    // calls leads here, but a stored record may hold anything.
    let mut balances = BTreeMap::new();
    balances.insert(ALICE, u128::MAX);
    balances.insert(BOB, u128::MAX);
    let mut ledger = L1xFtErc20 {
        metadata: described(6),
        balances,
        allowances: BTreeMap::new(),
        total_supply: 5,
        authorized_callers: BTreeSet::from([OWNER]),
    };
    let before = ledger.clone();
    assert_eq!(ledger.ft_transfer(ALICE, BOB, 1), Err(FtError::ArithmeticOverflow));
    assert_eq!(ledger.ft_mint(OWNER, ALICE, 1), Err(FtError::ArithmeticOverflow));
    assert_eq!(ledger, before);
    assert_eq!(ledger.transfer_balances(&ALICE, &CAROL, 3), Ok((u128::MAX - 3, 3)));
}

#[test]
fn a_zero_amount_is_refused() {
    let mut ledger = started(vec![ALICE], vec![5]);
    assert_eq!(ledger.ft_approve(ALICE, BOB, 3), Ok(()));
    let before = ledger.clone();
    assert_eq!(ledger.ft_mint(OWNER, ALICE, 0), Err(FtError::InvalidOperation));
    assert_eq!(ledger.ft_transfer(ALICE, BOB, 0), Err(FtError::InvalidOperation));
    assert_eq!(ledger.ft_transfer_from(BOB, ALICE, CAROL, 0), Err(FtError::InvalidOperation));
    assert_eq!(ledger.ft_increase_allowance(ALICE, BOB, 0), Err(FtError::InvalidOperation));
    assert_eq!(ledger.ft_decrease_allowance(ALICE, BOB, 0), Err(FtError::InvalidOperation));
    assert_eq!(ledger, before);
}

#[test]
fn the_minter_is_checked_before_the_amount() {
    let mut ledger = started(vec![ALICE], vec![5]);
    assert_eq!(ledger.ft_mint(ALICE, ALICE, 0), Err(FtError::Unauthorized));
}

#[test]
fn more_than_the_balance_cannot_be_sent() {
    let mut ledger = started(vec![ALICE], vec![5]);
    let before = ledger.clone();
    assert_eq!(ledger.ft_transfer(ALICE, BOB, 6), Err(FtError::InsufficientBalance));
    assert_eq!(ledger.ft_transfer(CAROL, BOB, 1), Err(FtError::InsufficientBalance));
    assert_eq!(ledger, before);
    assert!(ledger.ft_transfer(ALICE, BOB, 5).is_ok());
}

#[test]
fn an_account_cannot_approve_itself() {
    let mut ledger = started(vec![ALICE], vec![5]);
    let before = ledger.clone();
    assert_eq!(ledger.ft_approve(ALICE, ALICE, 3), Err(FtError::InvalidOperation));
    assert_eq!(ledger.ft_increase_allowance(ALICE, ALICE, 3), Err(FtError::InvalidOperation));
    assert_eq!(ledger.ft_decrease_allowance(ALICE, ALICE, 3), Err(FtError::InvalidOperation));
    // The same account is refused before the missing balance is.
    assert_eq!(ledger.ft_approve(BOB, BOB, 3), Err(FtError::InvalidOperation));
    assert_eq!(ledger, before);
}

#[test]
fn an_account_without_tokens_grants_nothing() {
    let mut ledger = started(vec![ALICE, CAROL], vec![5, 0]);
    let before = ledger.clone();
    assert_eq!(ledger.ft_approve(BOB, ALICE, 3), Err(FtError::NoBalance));
    assert_eq!(ledger.ft_approve(CAROL, ALICE, 3), Err(FtError::NoBalance));
    assert_eq!(ledger.ft_increase_allowance(BOB, ALICE, 3), Err(FtError::NoBalance));
    assert_eq!(ledger.ft_decrease_allowance(BOB, ALICE, 3), Err(FtError::NoBalance));
    assert_eq!(ledger.assert_if_no_balance(&BOB), Err(FtError::NoBalance));
    assert_eq!(ledger.assert_if_no_balance(&CAROL), Err(FtError::NoBalance));
    assert_eq!(ledger.assert_if_no_balance(&ALICE), Ok(()));
    assert_eq!(ledger, before);
}

#[test]
fn without_an_allowance_nothing_is_spent() {
    let mut ledger = started(vec![ALICE], vec![5]);
    let before = ledger.clone();
    assert_eq!(ledger.ft_transfer_from(BOB, ALICE, CAROL, 1), Err(FtError::NoAllowance));
    assert_eq!(
        ledger.allowance_update(AllowanceUpdateOp::Spend, &ALICE, &BOB, 0),
        Err(FtError::NoAllowance)
    );
    assert_eq!(
        ledger.allowance_update(AllowanceUpdateOp::Decrease, &ALICE, &BOB, 1),
        Err(FtError::NoAllowance)
    );
    assert_eq!(ledger, before);
}

#[test]
fn more_than_the_allowance_cannot_be_spent() {
    let mut ledger = started(vec![ALICE], vec![50]);
    assert_eq!(ledger.ft_approve(ALICE, BOB, 3), Ok(()));
    let before = ledger.clone();
    assert_eq!(ledger.ft_transfer_from(BOB, ALICE, CAROL, 4), Err(FtError::AllowanceTooSmall));
    assert_eq!(ledger.ft_transfer_from(CAROL, ALICE, BOB, 1), Err(FtError::AllowanceTooSmall));
    assert_eq!(ledger, before);
    // The allowance is looked at before the transfer is.
    assert_eq!(ledger.ft_transfer_from(BOB, ALICE, ALICE, 4), Err(FtError::AllowanceTooSmall));
    assert!(ledger.ft_transfer_from(BOB, ALICE, CAROL, 3).is_ok());
}

#[test]
fn an_allowance_beyond_128_bits_is_refused() {
    let mut ledger = started(vec![ALICE], vec![50]);
    assert_eq!(ledger.ft_approve(ALICE, BOB, u128::MAX - 1), Ok(()));
    let before = ledger.clone();
    assert_eq!(ledger.ft_increase_allowance(ALICE, BOB, 2), Err(FtError::ArithmeticOverflow));
    assert_eq!(ledger, before);
    assert_eq!(ledger.ft_increase_allowance(ALICE, BOB, 1), Ok(()));
    assert_eq!(ledger.ft_allowance(ALICE, BOB), u128::MAX);
}

#[test]
fn only_the_owner_grants_the_right_to_mint() {
    let mut ledger = started(vec![ALICE], vec![50]);
    let before = ledger.clone();
    assert_eq!(ledger.add_authorized_caller(ALICE, OWNER, BOB), Err(FtError::Unauthorized));
    // Not the owner, although the account may mint already.
    assert_eq!(ledger.add_authorized_caller(ALICE, OWNER, OWNER), Err(FtError::Unauthorized));
    assert_eq!(ledger, before);
}

#[test]
fn the_right_to_mint_is_granted_once() {
    let mut ledger = started(vec![ALICE], vec![50]);
    assert_eq!(ledger.add_authorized_caller(OWNER, OWNER, OWNER), Err(FtError::AlreadyAuthorized));
    assert!(ledger.add_authorized_caller(OWNER, OWNER, BOB).is_ok());
    let before = ledger.clone();
    assert_eq!(ledger.add_authorized_caller(OWNER, OWNER, BOB), Err(FtError::AlreadyAuthorized));
    assert_eq!(ledger, before);
}

#[test]
fn a_table_of_limits_spends_and_grows() {
    let mut table = FTAllowance::default();
    assert_eq!(table.get(&BOB), 0);
    assert_eq!(table.spend(&BOB, 1), Err(FtError::AllowanceTooSmall));
    assert!(table.spenders.is_empty());
    table.set(BOB, 10);
    assert_eq!(table.increase(&BOB, 5), Ok(()));
    assert_eq!(table.increase(&CAROL, 2), Ok(()));
    assert_eq!(table.get(&BOB), 15);
    assert_eq!(table.get(&CAROL), 2);
    assert_eq!(table.spend(&BOB, 15), Ok(()));
    assert_eq!(table.get(&BOB), 0);
    assert_eq!(table.decrease(&CAROL, 3), Err(FtError::AllowanceTooSmall));
    assert_eq!(table.decrease(&CAROL, 1), Ok(()));
    assert_eq!(table.get(&CAROL), 1);
    assert_eq!(table.increase(&CAROL, u128::MAX), Err(FtError::ArithmeticOverflow));
    assert_eq!(table.get(&CAROL), 1);
}
