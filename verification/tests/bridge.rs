use freezer::model::{BURN_SELECTOR, MINT_SELECTOR};
use freezer::{
    AccountId, Action, ActionInfo, BridgeError, CallArgs, ContractCall, Effect, Freezer,
    HostError, ScCall, Transfer, UnfreezeWrap, VoteOutcome, VoteReceipt,
};

const ADDRESS: &str = "erd1qyu5wthldzr8wx5c9ucg8kjagg0jfs53s8nr3zpz3hypefsdd8ssycr6th";

fn account(tag: u8) -> AccountId {
    AccountId { bytes: [tag; 32] }
}

fn bridge_with(validators: u8) -> Freezer {
    let mut freezer = Freezer::new(account(0xEE));
    for tag in 1..=validators {
        freezer.subscribe(account(tag));
    }
    freezer
}

#[test]
fn default_works() {
    let freezer = Freezer::default();
    assert_eq!(freezer.validator_cnt(), 0);
}

#[test]
fn subscribe_test() {
    let mut freezer = Freezer::default();
    freezer.subscribe(account(1));
    assert_eq!(freezer.validator_cnt(), 1);
}

#[test]
fn send_test() {
    let mut freezer = Freezer::default();
    let event = freezer.send(ADDRESS.to_string(), 1);
    let events: Vec<Transfer> = event.into_iter().collect();
    assert_eq!(events.len(), 1);
}

#[test]
fn pop() {
    let mut freezer = Freezer::default();
    let acc = account(1);
    let action = "0".to_string();
    freezer.subscribe(acc);
    let receipt = freezer.pop(acc, action.clone(), acc, 0x0);
    assert!(receipt.is_ok());
    assert_eq!(freezer.pop_cnt(), 0)
}

#[test]
fn new_bridge_is_empty() {
    let freezer = Freezer::new(account(9));
    assert_eq!(freezer.validator_cnt(), 0);
    assert_eq!(freezer.pop_cnt(), 0);
    assert_eq!(freezer.last_action(), 0);
    assert_eq!(freezer.wrapper(), account(9));
    assert!(!freezer.is_validator(&account(9)));
    assert_eq!(freezer.tally(&"tx".to_string()), None);
}

#[test]
fn default_bridge_wraps_the_zero_account() {
    assert_eq!(Freezer::default().wrapper(), account(0));
}

#[test]
fn subscribing_twice_counts_once() {
    let mut freezer = bridge_with(2);
    freezer.subscribe(account(1));
    freezer.subscribe(account(2));
    assert_eq!(freezer.validator_cnt(), 2);
    assert!(freezer.is_validator(&account(1)));
    assert!(freezer.is_validator(&account(2)));
    assert!(!freezer.is_validator(&account(3)));
}

#[test]
fn accounts_differing_in_one_byte_are_distinct_validators() {
    let mut freezer = Freezer::default();
    let mut bytes = [7u8; 32];
    freezer.subscribe(AccountId { bytes });
    bytes[31] = 8;
    assert!(!freezer.is_validator(&AccountId { bytes }));
    freezer.subscribe(AccountId { bytes });
    assert_eq!(freezer.validator_cnt(), 2);
}

#[test]
fn four_validators_execute_on_the_third_vote_and_retire_on_the_fourth() {
    let mut freezer = bridge_with(4);
    let x = account(0x58);
    let id = "tx1".to_string();

    let first = freezer.pop(account(1), id.clone(), x, 100).unwrap();
    assert_eq!(first.outcome, VoteOutcome::Pending { votes: 1, threshold: 3 });
    assert_eq!(first.dispatch, None);
    assert!(!first.retired);

    let second = freezer.pop(account(2), id.clone(), x, 100).unwrap();
    assert_eq!(second.outcome, VoteOutcome::Pending { votes: 2, threshold: 3 });
    assert_eq!(second.dispatch, None);

    let third = freezer.pop(account(3), id.clone(), x, 100).unwrap();
    assert_eq!(
        third,
        VoteReceipt {
            votes: 3,
            threshold: 3,
            outcome: VoteOutcome::Executed,
            dispatch: Some(Effect::Transfer { to: x, value: 100 }),
            retired: false,
        }
    );
    assert_eq!(
        freezer.tally(&id),
        Some(ActionInfo { action: Action::Unfreeze { to: x, value: 100 }, validators: 3 })
    );
    assert_eq!(freezer.pop_cnt(), 1);

    let fourth = freezer.pop(account(4), id.clone(), x, 100).unwrap();
    assert_eq!(
        fourth,
        VoteReceipt {
            votes: 4,
            threshold: 3,
            outcome: VoteOutcome::Retired,
            dispatch: None,
            retired: true,
        }
    );
    assert_eq!(freezer.tally(&id), None);
    assert_eq!(freezer.pop_cnt(), 0);
}

#[test]
fn every_round_executes_exactly_once_at_the_threshold() {
    for n in 1u8..=20 {
        let mut freezer = bridge_with(n);
        let needed = freezer::threshold(n as u32);
        let mut executed = 0;
        for k in 1..=n {
            let receipt = freezer
                .send_wrapper_verify(account(k), "round".to_string(), account(0x77), 5)
                .unwrap();
            assert_eq!(receipt.votes, k as u32);
            assert_eq!(receipt.threshold, needed);
            if receipt.outcome == VoteOutcome::Executed {
                executed += 1;
                assert_eq!(k as u32, needed);
            }
            assert_eq!(receipt.dispatch.is_some(), k as u32 == needed);
            assert_eq!(receipt.retired, k == n);
            assert_eq!(freezer.tally(&"round".to_string()).is_some(), k < n);
        }
        assert_eq!(executed, 1);
        assert_eq!(freezer.pop_cnt(), 0);
    }
}

#[test]
fn a_vote_after_retirement_opens_a_fresh_tally() {
    let mut freezer = bridge_with(4);
    let id = "again".to_string();
    for k in 1..=4 {
        freezer.pop(account(k), id.clone(), account(0x10), 1).unwrap();
    }
    assert_eq!(freezer.tally(&id), None);
    let receipt = freezer.pop(account(2), id.clone(), account(0x20), 2).unwrap();
    assert_eq!(receipt.votes, 1);
    assert_eq!(receipt.outcome, VoteOutcome::Pending { votes: 1, threshold: 3 });
    assert_eq!(
        freezer.tally(&id),
        Some(ActionInfo {
            action: Action::Unfreeze { to: account(0x20), value: 2 },
            validators: 1
        })
    );
}

#[test]
fn a_single_validator_executes_and_retires_at_once() {
    let mut freezer = bridge_with(1);
    let receipt = freezer.pop(account(1), "solo".to_string(), account(3), 9).unwrap();
    assert_eq!(
        receipt,
        VoteReceipt {
            votes: 1,
            threshold: 1,
            outcome: VoteOutcome::Executed,
            dispatch: Some(Effect::Transfer { to: account(3), value: 9 }),
            retired: true,
        }
    );
    assert_eq!(freezer.pop_cnt(), 0);
}

#[test]
fn a_stranger_is_turned_away_and_changes_nothing() {
    let mut freezer = bridge_with(4);
    let id = "tx".to_string();
    freezer.pop(account(1), id.clone(), account(5), 10).unwrap();
    let before = freezer.tally(&id);

    let refused = freezer.pop(account(0x99), id.clone(), account(5), 10);
    assert_eq!(refused, Err(BridgeError::NotAuthorized));
    assert_eq!(freezer.tally(&id), before);
    assert_eq!(freezer.pop_cnt(), 1);

    let refused = freezer.sc_call_verify(account(0x99), "new".to_string(), account(5), 0, [1, 2, 3, 4], None);
    assert_eq!(refused, Err(BridgeError::NotAuthorized));
    let refused = freezer.send_wrapper_verify(account(0x99), "new".to_string(), account(5), 1);
    assert_eq!(refused, Err(BridgeError::NotAuthorized));
    assert_eq!(freezer.tally(&"new".to_string()), None);
    assert_eq!(freezer.pop_cnt(), 1);
    assert_eq!(freezer.validator_cnt(), 4);
}

#[test]
fn nobody_may_vote_on_a_bridge_without_validators() {
    let mut freezer = Freezer::default();
    assert_eq!(
        freezer.pop(account(1), "tx".to_string(), account(1), 1),
        Err(BridgeError::NotAuthorized)
    );
    assert_eq!(freezer.pop_cnt(), 0);
}

#[test]
fn the_first_payload_under_an_id_is_the_one_that_counts() {
    let mut freezer = bridge_with(4);
    let id = "tx".to_string();
    freezer.pop(account(1), id.clone(), account(0x0A), 100).unwrap();
    freezer
        .sc_call_verify(account(2), id.clone(), account(0x0B), 7, [9, 9, 9, 9], Some(1))
        .unwrap();
    let third = freezer.send_wrapper_verify(account(3), id.clone(), account(0x0C), 55).unwrap();
    assert_eq!(third.dispatch, Some(Effect::Transfer { to: account(0x0A), value: 100 }));
    assert_eq!(
        freezer.tally(&id),
        Some(ActionInfo {
            action: Action::Unfreeze { to: account(0x0A), value: 100 },
            validators: 3
        })
    );
}

#[test]
fn one_validator_may_vote_more_than_once() {
    let mut freezer = bridge_with(4);
    let id = "tx".to_string();
    for expected in 1..=2 {
        let receipt = freezer.pop(account(1), id.clone(), account(5), 10).unwrap();
        assert_eq!(receipt.votes, expected);
    }
    let third = freezer.pop(account(1), id.clone(), account(5), 10).unwrap();
    assert_eq!(third.outcome, VoteOutcome::Executed);
}

#[test]
fn the_threshold_follows_the_validator_set_of_each_call() {
    let mut freezer = bridge_with(4);
    let id = "tx".to_string();
    let first = freezer.pop(account(1), id.clone(), account(5), 10).unwrap();
    assert_eq!(first.threshold, 3);
    freezer.subscribe(account(5));
    freezer.subscribe(account(6));
    freezer.subscribe(account(7));
    let second = freezer.pop(account(2), id.clone(), account(5), 10).unwrap();
    assert_eq!(second.outcome, VoteOutcome::Pending { votes: 2, threshold: 5 });
    let third = freezer.pop(account(3), id.clone(), account(5), 10).unwrap();
    assert_eq!(third.outcome, VoteOutcome::Pending { votes: 3, threshold: 5 });
}

#[test]
fn tallies_under_different_ids_do_not_mix() {
    let mut freezer = bridge_with(4);
    freezer.pop(account(1), "a".to_string(), account(5), 1).unwrap();
    freezer.pop(account(2), "a".to_string(), account(5), 1).unwrap();
    let other = freezer.pop(account(1), "b".to_string(), account(6), 2).unwrap();
    assert_eq!(other.votes, 1);
    assert_eq!(freezer.pop_cnt(), 2);
    assert_eq!(freezer.tally(&"a".to_string()).map(|t| t.validators), Some(2));
    assert_eq!(freezer.tally(&"b".to_string()).map(|t| t.validators), Some(1));
    assert_eq!(freezer.tally(&"".to_string()), None);
}

#[test]
fn every_kind_of_action_comes_back_from_the_ledger_as_it_went_in() {
    let mut freezer = bridge_with(4);
    let call = Action::RpcCall { to: account(1), value: u128::MAX, endpoint: [1, 2, 3, 4], args: Some(u32::MAX) };
    let bare = Action::RpcCall { to: account(2), value: 0, endpoint: [0, 0, 0, 0], args: None };
    let mint = Action::SendWrapped { to: account(3), value: 12 };
    let free = Action::Unfreeze { to: account(4), value: 34 };
    freezer.verify_action(account(1), "call".to_string(), call).unwrap();
    freezer.verify_action(account(1), "bare".to_string(), bare).unwrap();
    freezer.verify_action(account(1), "mint".to_string(), mint).unwrap();
    freezer.verify_action(account(1), "free".to_string(), free).unwrap();
    assert_eq!(freezer.tally(&"call".to_string()), Some(ActionInfo { action: call, validators: 1 }));
    assert_eq!(freezer.tally(&"bare".to_string()), Some(ActionInfo { action: bare, validators: 1 }));
    assert_eq!(freezer.tally(&"mint".to_string()), Some(ActionInfo { action: mint, validators: 1 }));
    assert_eq!(freezer.tally(&"free".to_string()), Some(ActionInfo { action: free, validators: 1 }));
}

#[test]
fn an_unfreeze_is_a_transfer() {
    let freezer = Freezer::new(account(0xEE));
    assert_eq!(
        freezer.exec_action(Action::Unfreeze { to: account(1), value: 100 }),
        Effect::Transfer { to: account(1), value: 100 }
    );
}

#[test]
fn an_rpc_call_forwards_value_selector_and_argument() {
    let freezer = Freezer::new(account(0xEE));
    assert_eq!(
        freezer.exec_action(Action::RpcCall {
            to: account(1),
            value: 7,
            endpoint: [0xDE, 0xAD, 0xBE, 0xEF],
            args: Some(42)
        }),
        Effect::Call(ContractCall {
            callee: account(1),
            transferred_value: 7,
            selector: [0xDE, 0xAD, 0xBE, 0xEF],
            args: CallArgs::Word(42),
        })
    );
    assert_eq!(
        freezer.exec_action(Action::RpcCall {
            to: account(1),
            value: 7,
            endpoint: [0xDE, 0xAD, 0xBE, 0xEF],
            args: None
        }),
        Effect::Call(ContractCall {
            callee: account(1),
            transferred_value: 7,
            selector: [0xDE, 0xAD, 0xBE, 0xEF],
            args: CallArgs::Empty,
        })
    );
}

#[test]
fn a_send_wrapped_is_a_mint_on_the_wrapper() {
    let freezer = Freezer::new(account(0xEE));
    let expected = ContractCall {
        callee: account(0xEE),
        transferred_value: 0,
        selector: [0x31, 0x91, 0xC0, 0x19],
        args: CallArgs::AmountAndAccount { value: 5, account: account(1) },
    };
    assert_eq!(MINT_SELECTOR, [0x31, 0x91, 0xC0, 0x19]);
    assert_eq!(freezer.erc20_mint(account(1), 5), expected);
    assert_eq!(
        freezer.exec_action(Action::SendWrapped { to: account(1), value: 5 }),
        Effect::Call(expected)
    );
}

#[test]
fn a_burn_is_a_call_on_the_wrapper() {
    let freezer = Freezer::new(account(0xEE));
    assert_eq!(BURN_SELECTOR, [0xB0, 0xF9, 0xC0, 0x19]);
    assert_eq!(
        freezer.erc20_burn(account(1), 5),
        ContractCall {
            callee: account(0xEE),
            transferred_value: 0,
            selector: [0xB0, 0xF9, 0xC0, 0x19],
            args: CallArgs::AmountAndAccount { value: 5, account: account(1) },
        }
    );
}

#[test]
fn a_failed_effect_fails_the_vote_that_asked_for_it() {
    let mut freezer = bridge_with(1);
    let receipt = freezer.pop(account(1), "tx".to_string(), account(2), 3).unwrap();
    assert_eq!(
        receipt.conclude(Err(HostError::TransferFailed)),
        Err(BridgeError::ExecutionFailed(HostError::TransferFailed))
    );
    assert_eq!(receipt.conclude(Ok(())), Ok(VoteOutcome::Executed));
    assert_eq!(freezer.pop_cnt(), 0);
}

#[test]
fn a_vote_that_asked_for_nothing_is_not_touched_by_the_host() {
    let mut freezer = bridge_with(4);
    let receipt = freezer.pop(account(1), "tx".to_string(), account(2), 3).unwrap();
    let pending = VoteOutcome::Pending { votes: 1, threshold: 3 };
    assert_eq!(receipt.conclude(Ok(())), Ok(pending));
    assert_eq!(receipt.conclude(Err(HostError::CalleeTrapped)), Ok(pending));
}

#[test]
fn locking_fifty_emits_the_first_transfer() {
    let mut freezer = Freezer::default();
    let event = freezer.send_checked(true, "validDestAddr".to_string(), 50);
    assert_eq!(
        event,
        Ok(Transfer { action_id: 1, to: "validDestAddr".to_string(), value: 50 })
    );
    assert_eq!(freezer.last_action(), 1);
}

#[test]
fn locking_to_a_real_address_emits_a_transfer() {
    let mut freezer = Freezer::default();
    assert_eq!(
        freezer.send(ADDRESS.to_string(), 50),
        Ok(Transfer { action_id: 1, to: ADDRESS.to_string(), value: 50 })
    );
    assert_eq!(freezer.last_action(), 1);
}

#[test]
fn locking_nothing_is_refused_and_not_counted() {
    let mut freezer = Freezer::default();
    assert_eq!(freezer.send(ADDRESS.to_string(), 0), Err(BridgeError::InvalidValue));
    assert_eq!(freezer.send("nonsense".to_string(), 0), Err(BridgeError::InvalidValue));
    assert_eq!(freezer.send_checked(true, "x".to_string(), 0), Err(BridgeError::InvalidValue));
    assert_eq!(freezer.send_checked(false, "x".to_string(), 0), Err(BridgeError::InvalidValue));
    assert_eq!(freezer.last_action(), 0);
}

#[test]
fn locking_for_a_malformed_address_is_refused_and_not_counted() {
    let mut freezer = Freezer::default();
    assert_eq!(freezer.send("validDestAddr".to_string(), 50), Err(BridgeError::InvalidAddress));
    assert_eq!(freezer.send_checked(false, ADDRESS.to_string(), 50), Err(BridgeError::InvalidAddress));
    assert_eq!(freezer.last_action(), 0);
}

#[test]
fn relaying_a_call_to_a_malformed_address_is_refused_and_not_counted() {
    let mut freezer = Freezer::default();
    freezer.send(ADDRESS.to_string(), 1).unwrap();
    let refused = freezer.send_sc_call("not an address".to_string(), "mint".to_string(), vec![vec![1, 2]]);
    assert_eq!(refused, Err(BridgeError::InvalidAddress));
    assert_eq!(freezer.last_action(), 1);
    let refused = freezer.send_sc_call_checked(false, ADDRESS.to_string(), "mint".to_string(), Vec::new());
    assert_eq!(refused, Err(BridgeError::InvalidAddress));
    assert_eq!(freezer.last_action(), 1);
}

#[test]
fn relaying_a_call_hands_all_arguments_on() {
    let mut freezer = Freezer::default();
    let args = vec![vec![1u8, 2, 3], Vec::new(), vec![0xFF]];
    assert_eq!(
        freezer.send_sc_call(ADDRESS.to_string(), "endpoint".to_string(), args.clone()),
        Ok(ScCall {
            action_id: 1,
            to: ADDRESS.to_string(),
            endpoint: "endpoint".to_string(),
            args,
        })
    );
    assert_eq!(freezer.last_action(), 1);
}

#[test]
fn the_counter_goes_up_by_one_for_each_relay_that_goes_through() {
    let mut freezer = Freezer::default();
    assert_eq!(freezer.last_action(), 0);
    assert_eq!(freezer.send(ADDRESS.to_string(), 5).unwrap().action_id, 1);
    assert_eq!(freezer.send(ADDRESS.to_string(), 0), Err(BridgeError::InvalidValue));
    assert_eq!(
        freezer.send_sc_call(ADDRESS.to_string(), "e".to_string(), Vec::new()).unwrap().action_id,
        2
    );
    let pending = freezer.withdraw_wrapper(account(1), ADDRESS.to_string(), 3).unwrap();
    assert_eq!(freezer.last_action(), 2);
    assert_eq!(freezer.complete_withdrawal(pending, Ok(())).unwrap().action_id, 3);
    assert_eq!(freezer.send(ADDRESS.to_string(), 5).unwrap().action_id, 4);
    assert_eq!(freezer.last_action(), 4);
}

#[test]
fn relays_leave_validators_and_tallies_alone() {
    let mut freezer = bridge_with(4);
    freezer.pop(account(1), "tx".to_string(), account(5), 10).unwrap();
    freezer.send(ADDRESS.to_string(), 5).unwrap();
    freezer.send_sc_call(ADDRESS.to_string(), "e".to_string(), Vec::new()).unwrap();
    assert_eq!(freezer.validator_cnt(), 4);
    assert_eq!(freezer.pop_cnt(), 1);
    assert_eq!(freezer.tally(&"tx".to_string()).map(|t| t.validators), Some(1));
}

#[test]
fn a_withdrawal_asks_for_a_burn_from_the_caller() {
    let freezer = Freezer::new(account(0xEE));
    let pending = freezer.withdraw_wrapper(account(1), ADDRESS.to_string(), 8).unwrap();
    assert_eq!(pending.to, ADDRESS);
    assert_eq!(pending.value, 8);
    assert_eq!(
        pending.burn,
        ContractCall {
            callee: account(0xEE),
            transferred_value: 0,
            selector: [0xB0, 0xF9, 0xC0, 0x19],
            args: CallArgs::AmountAndAccount { value: 8, account: account(1) },
        }
    );
    assert_eq!(freezer.last_action(), 0);
}

#[test]
fn a_withdrawal_of_nothing_or_to_a_malformed_address_is_refused() {
    let freezer = Freezer::default();
    assert_eq!(
        freezer.withdraw_wrapper(account(1), ADDRESS.to_string(), 0),
        Err(BridgeError::InvalidValue)
    );
    assert_eq!(
        freezer.withdraw_wrapper(account(1), "bad".to_string(), 0),
        Err(BridgeError::InvalidValue)
    );
    assert_eq!(
        freezer.withdraw_wrapper(account(1), "bad".to_string(), 1),
        Err(BridgeError::InvalidAddress)
    );
    assert_eq!(
        freezer.withdraw_wrapper_checked(false, account(1), ADDRESS.to_string(), 1),
        Err(BridgeError::InvalidAddress)
    );
    assert!(freezer.withdraw_wrapper_checked(true, account(1), "bad".to_string(), 1).is_ok());
}

#[test]
fn a_burned_withdrawal_emits_its_event() {
    let mut freezer = Freezer::default();
    let pending = freezer.withdraw_wrapper(account(1), ADDRESS.to_string(), 8).unwrap();
    assert_eq!(
        freezer.complete_withdrawal(pending, Ok(())),
        Ok(UnfreezeWrap { action_id: 1, to: ADDRESS.to_string(), value: 8 })
    );
    assert_eq!(freezer.last_action(), 1);
}

#[test]
fn a_failed_burn_fails_the_withdrawal_and_is_not_counted() {
    let mut freezer = Freezer::default();
    let pending = freezer.withdraw_wrapper(account(1), ADDRESS.to_string(), 8).unwrap();
    assert_eq!(
        freezer.complete_withdrawal(pending, Err(HostError::CalleeReverted)),
        Err(BridgeError::ExecutionFailed(HostError::CalleeReverted))
    );
    assert_eq!(freezer.last_action(), 0);
}
