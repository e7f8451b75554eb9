use l1x_ft::{Address, FTMetadata, FtError, L1xFtErc20, Notice};

const OWNER: Address = (0, 1);
const ALICE: Address = (0, 0xa11ce);
const BOB: Address = (0, 0xb0b);
const CAROL: Address = (7, 0xca401);

fn metadata() -> FTMetadata {
    FTMetadata::new("Token".to_string(), 18, "TKN".to_string(), None)
}

fn ledger(account_ids: Vec<Address>, amounts: Vec<u128>) -> L1xFtErc20 {
    L1xFtErc20::new(OWNER, OWNER, false, metadata(), account_ids, amounts).unwrap()
}

#[test]
fn duplicate_accounts_keep_their_first_amount() {
    let ledger = ledger(vec![ALICE, BOB, ALICE], vec![100, 50, 30]);
    assert_eq!(ledger.ft_balance_of(ALICE), 100);
    assert_eq!(ledger.ft_balance_of(BOB), 50);
    assert_eq!(ledger.ft_total_supply(), 150);
    assert_eq!(ledger.balances.len(), 2);
}

#[test]
fn a_duplicate_does_not_count_towards_the_supply() {
    let ledger = ledger(vec![ALICE, ALICE], vec![u128::MAX, 1]);
    assert_eq!(ledger.ft_balance_of(ALICE), u128::MAX);
    assert_eq!(ledger.ft_total_supply(), u128::MAX);
}

#[test]
fn a_new_ledger_lets_only_its_owner_mint() {
    let ledger = ledger(vec![ALICE], vec![1]);
    assert!(ledger.is_authorized_minter(&OWNER));
    assert!(!ledger.is_authorized_minter(&ALICE));
    assert_eq!(ledger.authorized_callers.len(), 1);
    assert!(ledger.allowances.is_empty());
}

#[test]
fn a_spender_moves_what_it_was_allowed() {
    let mut ledger = ledger(vec![ALICE], vec![100]);
    assert_eq!(ledger.ft_approve(ALICE, BOB, 40), Ok(()));
    assert_eq!(ledger.ft_allowance(ALICE, BOB), 40);

    let moved = ledger.ft_transfer_from(BOB, ALICE, CAROL, 40);
    assert_eq!(moved, Ok(Notice::Transferred { amount: 40, sender: ALICE, recipient: CAROL }));
    assert_eq!(ledger.ft_balance_of(ALICE), 60);
    assert_eq!(ledger.ft_balance_of(CAROL), 40);
    assert_eq!(ledger.ft_balance_of(BOB), 0);
    assert_eq!(ledger.ft_allowance(ALICE, BOB), 0);
    assert_eq!(ledger.ft_total_supply(), 100);

    let before = ledger.clone();
    assert_eq!(ledger.ft_transfer_from(BOB, ALICE, CAROL, 1), Err(FtError::AllowanceTooSmall));
    assert_eq!(ledger, before);
}

#[test]
fn an_unauthorized_mint_changes_nothing() {
    let mut ledger = ledger(vec![ALICE, BOB], vec![100, 50]);
    let before = ledger.clone();
    assert_eq!(ledger.ft_mint(ALICE, CAROL, 10), Err(FtError::Unauthorized));
    assert_eq!(ledger, before);
    assert_eq!(ledger.ft_balance_of(CAROL), 0);
    assert_eq!(ledger.ft_total_supply(), 150);
}

#[test]
fn a_transfer_to_oneself_is_refused_whatever_the_balance() {
    let mut ledger = ledger(vec![ALICE], vec![100]);
    let before = ledger.clone();
    assert_eq!(ledger.ft_transfer(ALICE, ALICE, 1), Err(FtError::InvalidOperation));
    assert_eq!(ledger.ft_transfer(ALICE, ALICE, 1000), Err(FtError::InvalidOperation));
    assert_eq!(ledger.ft_transfer(BOB, BOB, 1), Err(FtError::InvalidOperation));
    assert_eq!(ledger.transfer(&CAROL, &CAROL, 0), Err(FtError::InvalidOperation));
    assert_eq!(ledger, before);
}

#[test]
fn raising_and_lowering_an_allowance_cancel_out() {
    let mut ledger = ledger(vec![ALICE], vec![100]);
    assert_eq!(ledger.ft_approve(ALICE, BOB, 25), Ok(()));
    assert_eq!(ledger.ft_increase_allowance(ALICE, BOB, 17), Ok(()));
    assert_eq!(ledger.ft_allowance(ALICE, BOB), 42);
    assert_eq!(ledger.ft_decrease_allowance(ALICE, BOB, 17), Ok(()));
    assert_eq!(ledger.ft_allowance(ALICE, BOB), 25);

    let before = ledger.clone();
    assert_eq!(ledger.ft_decrease_allowance(ALICE, BOB, 26), Err(FtError::AllowanceTooSmall));
    assert_eq!(ledger.ft_allowance(ALICE, BOB), 25);
    assert_eq!(ledger, before);
}

#[test]
fn raising_an_allowance_creates_it_but_lowering_does_not() {
    let mut ledger = ledger(vec![ALICE], vec![100]);
    let before = ledger.clone();
    assert_eq!(ledger.ft_decrease_allowance(ALICE, BOB, 1), Err(FtError::NoAllowance));
    assert_eq!(ledger, before);

    assert_eq!(ledger.ft_increase_allowance(ALICE, BOB, 5), Ok(()));
    assert_eq!(ledger.ft_allowance(ALICE, BOB), 5);
    assert_eq!(ledger.ft_decrease_allowance(ALICE, BOB, 5), Ok(()));
    assert_eq!(ledger.ft_allowance(ALICE, BOB), 0);
    // The table of Alice exists now, so a spender without a limit has too small a one.
    assert_eq!(ledger.ft_decrease_allowance(ALICE, CAROL, 1), Err(FtError::AllowanceTooSmall));
}

#[test]
fn minting_adds_to_the_balance_and_to_the_supply() {
    let mut ledger = ledger(vec![ALICE, BOB], vec![100, 50]);
    assert_eq!(
        ledger.ft_mint(OWNER, CAROL, 10),
        Ok(Notice::Minted { amount: 10, recipient: CAROL })
    );
    assert_eq!(ledger.ft_mint(OWNER, ALICE, 5), Ok(Notice::Minted { amount: 5, recipient: ALICE }));
    assert_eq!(ledger.ft_balance_of(CAROL), 10);
    assert_eq!(ledger.ft_balance_of(ALICE), 105);
    assert_eq!(ledger.ft_total_supply(), 165);
}

#[test]
fn a_transfer_moves_the_amount() {
    let mut ledger = ledger(vec![ALICE, BOB], vec![100, 50]);
    assert_eq!(
        ledger.ft_transfer(ALICE, BOB, 30),
        Ok(Notice::Transferred { amount: 30, sender: ALICE, recipient: BOB })
    );
    assert_eq!(ledger.ft_balance_of(ALICE), 70);
    assert_eq!(ledger.ft_balance_of(BOB), 80);
    assert_eq!(ledger.ft_transfer(ALICE, CAROL, 70), Ok(Notice::Transferred {
        amount: 70,
        sender: ALICE,
        recipient: CAROL
    }));
    assert_eq!(ledger.ft_balance_of(ALICE), 0);
    assert_eq!(ledger.balance_of(&ALICE), Some(0));
    assert_eq!(ledger.ft_balance_of(CAROL), 70);
    assert_eq!(ledger.ft_total_supply(), 150);
}

#[test]
fn the_owner_lets_another_account_mint() {
    let mut ledger = ledger(vec![], vec![]);
    assert_eq!(
        ledger.add_authorized_caller(OWNER, OWNER, ALICE),
        Ok(Notice::AuthorizedCallerAdded { caller: ALICE })
    );
    assert!(ledger.is_authorized_minter(&ALICE));
    assert!(ledger.is_authorized_minter(&OWNER));
    assert_eq!(ledger.ft_mint(ALICE, BOB, 9), Ok(Notice::Minted { amount: 9, recipient: BOB }));
    assert_eq!(ledger.ft_total_supply(), 9);
}

#[test]
fn a_refused_transfer_does_not_spend_the_allowance() {
    let mut ledger = ledger(vec![ALICE], vec![10]);
    assert_eq!(ledger.ft_approve(ALICE, BOB, 40), Ok(()));
    let before = ledger.clone();
    assert_eq!(ledger.ft_transfer_from(BOB, ALICE, CAROL, 11), Err(FtError::InsufficientBalance));
    assert_eq!(ledger.ft_transfer_from(BOB, ALICE, ALICE, 5), Err(FtError::InvalidOperation));
    assert_eq!(ledger, before);
    assert_eq!(ledger.ft_allowance(ALICE, BOB), 40);
}

#[test]
fn approving_replaces_the_limit() {
    let mut ledger = ledger(vec![ALICE], vec![10]);
    assert_eq!(ledger.ft_approve(ALICE, BOB, 40), Ok(()));
    assert_eq!(ledger.ft_approve(ALICE, BOB, 7), Ok(()));
    assert_eq!(ledger.ft_approve(ALICE, CAROL, 0), Ok(()));
    assert_eq!(ledger.ft_allowance(ALICE, BOB), 7);
    assert_eq!(ledger.ft_allowance(ALICE, CAROL), 0);
    assert_eq!(ledger.ft_allowance(BOB, ALICE), 0);
    assert_eq!(ledger.ft_allowance(CAROL, OWNER), 0);
}

#[test]
fn seeding_writes_over_balances_of_zero() {
    let mut ledger = ledger(vec![ALICE, BOB], vec![0, 0]);
    assert_eq!(ledger.ft_total_supply(), 0);
    assert_eq!(ledger.initialize_balance_holders(vec![BOB, CAROL, BOB], vec![4, 6, 9]), Ok(()));
    assert_eq!(ledger.balance_of(&ALICE), Some(0));
    assert_eq!(ledger.ft_balance_of(BOB), 4);
    assert_eq!(ledger.ft_balance_of(CAROL), 6);
    assert_eq!(ledger.ft_total_supply(), 10);
    assert!(ledger.is_authorized_minter(&OWNER));
}

#[test]
fn a_copy_of_a_ledger_is_the_same_ledger() {
    let mut ledger = ledger(vec![ALICE, BOB], vec![3, 4]);
    assert_eq!(ledger.ft_approve(ALICE, BOB, 2), Ok(()));
    let copy = ledger.clone();
    assert_eq!(copy, ledger);
    assert_eq!(copy.ft_allowance(ALICE, BOB), 2);
    assert!(ledger.ft_transfer(ALICE, BOB, 1).is_ok());
    assert_ne!(copy, ledger);
    assert_eq!(copy.ft_balance_of(ALICE), 3);
}
