use erc20::AccountId;
use erc20::Approval;
use erc20::Erc20;
use erc20::Error;
use erc20::Event;
use erc20::Transfer;

fn alice() -> AccountId {
    AccountId { hi: 0, lo: 1 }
}

fn bob() -> AccountId {
    AccountId { hi: 0, lo: 2 }
}

fn charlie() -> AccountId {
    AccountId { hi: 0, lo: 3 }
}

fn django() -> AccountId {
    AccountId { hi: 0, lo: 4 }
}

#[test]
fn constructor_works() {
    let erc20 = Erc20::new(123, alice());
    assert_eq!(erc20.total_supply(), 123);
    assert_eq!(erc20.balance_of(alice()), 123);

    let emitted_events = erc20.events();
    let first_event = emitted_events.get(0).expect("No event found");
    match first_event {
        Event::Transfer(Transfer { from, to, value }) => {
            assert_eq!(*from, None);
            assert_eq!(*to, Some(alice()));
            assert_eq!(*value, 123);
        }
        _ => panic!("No transfer event emitted!"),
    }
}

#[test]
fn transfer_works() {
    let mut erc20 = Erc20::new(1000, alice());
    assert_eq!(erc20.balance_of(alice()), 1000);
    assert_eq!(erc20.balance_of(bob()), 0);

    assert_eq!(erc20.transfer(alice(), bob(), 100), Ok(()));
    assert_eq!(erc20.balance_of(alice()), 900);
    assert_eq!(erc20.balance_of(bob()), 100);
}

#[test]
fn transfer_with_low_balance_show_fail() {
    let mut erc20 = Erc20::new(1000, alice());
    assert_eq!(erc20.balance_of(alice()), 1000);
    assert_eq!(erc20.balance_of(bob()), 0);

    assert_eq!(
        erc20.transfer(alice(), bob(), 1001),
        Err(Error::BalanceTooLow)
    );
    assert_eq!(erc20.balance_of(alice()), 1000);
    assert_eq!(erc20.balance_of(bob()), 0);
}

#[test]
fn e2e_transfer() {
    let mut erc20 = Erc20::new(1000, alice());

    let transfer_result = erc20.transfer(alice(), bob(), 100);
    assert!(transfer_result.is_ok());

    assert_eq!(erc20.balance_of(alice()), 900);
}

#[test]
fn constructed_supply_is_credited_to_creator() {
    let erc20 = Erc20::new(1000, alice());
    assert_eq!(erc20.total_supply(), 1000);
    assert_eq!(erc20.balance_of(alice()), 1000);
    assert_eq!(erc20.events().len(), 1);
    assert_eq!(
        erc20.events()[0],
        Event::Transfer(Transfer {
            from: None,
            to: Some(alice()),
            value: 1000,
        })
    );
}

#[test]
fn successful_transfer_emits_event() {
    let mut erc20 = Erc20::new(1000, alice());
    assert_eq!(erc20.transfer(alice(), bob(), 100), Ok(()));
    assert_eq!(erc20.events().len(), 2);
    assert_eq!(
        erc20.events()[1],
        Event::Transfer(Transfer {
            from: Some(alice()),
            to: Some(bob()),
            value: 100,
        })
    );
}

#[test]
fn failed_transfer_emits_no_event() {
    let mut erc20 = Erc20::new(1000, alice());
    assert_eq!(
        erc20.transfer(alice(), bob(), 1001),
        Err(Error::BalanceTooLow)
    );
    assert_eq!(erc20.events().len(), 1);
}

#[test]
fn transfer_from_with_allowance_works() {
    let mut erc20 = Erc20::new(1000, alice());
    assert_eq!(erc20.approve(alice(), charlie(), 200), Ok(()));
    assert_eq!(
        erc20.events()[1],
        Event::Approval(Approval {
            owner: alice(),
            spender: charlie(),
            value: 200,
        })
    );

    assert_eq!(erc20.transfer_from(charlie(), alice(), django(), 150), Ok(()));
    assert_eq!(erc20.balance_of(alice()), 850);
    assert_eq!(erc20.balance_of(django()), 150);
    assert_eq!(erc20.allowance(alice(), charlie()), 50);
}

#[test]
fn transfer_from_beyond_allowance_fails() {
    let mut erc20 = Erc20::new(1000, alice());
    assert_eq!(erc20.approve(alice(), charlie(), 200), Ok(()));
    assert_eq!(erc20.transfer_from(charlie(), alice(), django(), 150), Ok(()));

    // Only 50 of the allowance remains, so 100 must be refused and
    // nothing may change.
    assert_eq!(
        erc20.transfer_from(charlie(), alice(), django(), 100),
        Err(Error::AllowanceTooLow)
    );
    assert_eq!(erc20.balance_of(alice()), 850);
    assert_eq!(erc20.balance_of(django()), 150);
    assert_eq!(erc20.allowance(alice(), charlie()), 50);
}

#[test]
fn transfer_from_allowance_checked_before_balance() {
    let mut erc20 = Erc20::new(1000, alice());
    assert_eq!(erc20.approve(alice(), charlie(), 100), Ok(()));

    // Alice's balance would cover 500, but the allowance does not:
    // the allowance error wins and nothing changes.
    assert_eq!(
        erc20.transfer_from(charlie(), alice(), django(), 500),
        Err(Error::AllowanceTooLow)
    );
    assert_eq!(erc20.balance_of(alice()), 1000);
    assert_eq!(erc20.balance_of(django()), 0);
    assert_eq!(erc20.allowance(alice(), charlie()), 100);
}

#[test]
fn transfer_from_beyond_balance_fails_and_keeps_allowance() {
    let mut erc20 = Erc20::new(1000, alice());
    assert_eq!(erc20.approve(alice(), charlie(), 2000), Ok(()));

    // The allowance covers 1500 but the balance does not: the call
    // fails and the allowance is not consumed.
    assert_eq!(
        erc20.transfer_from(charlie(), alice(), django(), 1500),
        Err(Error::BalanceTooLow)
    );
    assert_eq!(erc20.balance_of(alice()), 1000);
    assert_eq!(erc20.balance_of(django()), 0);
    assert_eq!(erc20.allowance(alice(), charlie()), 2000);
}

#[test]
fn approve_overwrites_earlier_allowance() {
    let mut erc20 = Erc20::new(1000, alice());
    assert_eq!(erc20.approve(alice(), charlie(), 200), Ok(()));
    assert_eq!(erc20.approve(alice(), charlie(), 50), Ok(()));
    assert_eq!(erc20.allowance(alice(), charlie()), 50);
}

#[test]
fn approve_may_exceed_balance() {
    let mut erc20 = Erc20::new(1000, alice());
    assert_eq!(erc20.approve(alice(), charlie(), 5000), Ok(()));
    assert_eq!(erc20.allowance(alice(), charlie()), 5000);
}

#[test]
fn approve_then_transfer_from_consumes_whole_allowance() {
    let mut erc20 = Erc20::new(1000, alice());
    assert_eq!(erc20.approve(alice(), bob(), 300), Ok(()));
    assert_eq!(erc20.transfer_from(bob(), alice(), charlie(), 300), Ok(()));
    assert_eq!(erc20.allowance(alice(), bob()), 0);
    assert_eq!(erc20.balance_of(alice()), 700);
    assert_eq!(erc20.balance_of(charlie()), 300);
}

#[test]
fn self_transfer_keeps_balance_and_emits_event() {
    let mut erc20 = Erc20::new(1000, alice());
    assert_eq!(erc20.transfer(alice(), alice(), 50), Ok(()));
    assert_eq!(erc20.balance_of(alice()), 1000);
    assert_eq!(erc20.events().len(), 2);
    assert_eq!(
        erc20.events()[1],
        Event::Transfer(Transfer {
            from: Some(alice()),
            to: Some(alice()),
            value: 50,
        })
    );
}

#[test]
fn zero_total_supply_is_legal() {
    let mut erc20 = Erc20::new(0, alice());
    assert_eq!(erc20.total_supply(), 0);
    assert_eq!(erc20.balance_of(alice()), 0);
    assert_eq!(erc20.transfer(alice(), bob(), 0), Ok(()));
    assert_eq!(erc20.balance_of(bob()), 0);
}

#[test]
fn transfer_of_whole_balance_works() {
    let mut erc20 = Erc20::new(1000, alice());
    assert_eq!(erc20.transfer(alice(), bob(), 1000), Ok(()));
    assert_eq!(erc20.balance_of(alice()), 0);
    assert_eq!(erc20.balance_of(bob()), 1000);
}

#[test]
fn from_parts_round_trip() {
    let mut erc20 = Erc20::new(1000, alice());
    assert_eq!(erc20.transfer(alice(), bob(), 100), Ok(()));
    assert_eq!(erc20.approve(alice(), charlie(), 200), Ok(()));

    let restored = Erc20::from_parts(
        erc20.total_supply(),
        erc20.balance_entries().clone(),
        erc20.allowance_entries().clone(),
    )
    .expect("persisted state must be accepted");
    assert_eq!(restored.total_supply(), 1000);
    assert_eq!(restored.balance_of(alice()), 900);
    assert_eq!(restored.balance_of(bob()), 100);
    assert_eq!(restored.allowance(alice(), charlie()), 200);
    assert_eq!(restored.events().len(), 0);
}

#[test]
fn from_parts_rejects_duplicate_accounts() {
    let r = Erc20::from_parts(10, vec![(alice(), 5), (alice(), 5)], Vec::new());
    assert!(r.is_none());
}

#[test]
fn from_parts_rejects_wrong_sum() {
    let r = Erc20::from_parts(10, vec![(alice(), 5), (bob(), 6)], Vec::new());
    assert!(r.is_none());
}

#[test]
fn from_parts_rejects_duplicate_allowance_pairs() {
    let r = Erc20::from_parts(
        5,
        vec![(alice(), 5)],
        vec![(alice(), bob(), 1), (alice(), bob(), 2)],
    );
    assert!(r.is_none());
}

#[test]
fn transfer_to_fresh_account_creates_entry() {
    let mut erc20 = Erc20::new(1000, alice());
    assert_eq!(erc20.balance_of(django()), 0);
    assert_eq!(erc20.transfer(alice(), django(), 1), Ok(()));
    assert_eq!(erc20.balance_of(django()), 1);
    assert_eq!(erc20.balance_of(alice()), 999);
}
