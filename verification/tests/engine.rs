use cep47::{
    CEP47Event, CallContext, ContractPackageHash, EmittedEvent, Error, Key, StakedTokens,
    TransferCall, TransferError, CEP20STK, U256,
};

fn amount(value: u64) -> U256 {
    U256::from_u64(value)
}

fn alice() -> Key {
    Key::Account([1; 32])
}

fn bob() -> Key {
    Key::Account([2; 32])
}

fn package() -> ContractPackageHash {
    ContractPackageHash::new([0xc4; 32])
}

fn custody() -> Key {
    Key::Hash([0xc4; 32])
}

fn at(caller: Key, blocktime: u64) -> CallContext {
    CallContext { caller, blocktime, package: package() }
}

fn engine() -> CEP20STK {
    CEP20STK::init(
        String::from("pool"),
        String::from("hash-00"),
        100,
        200,
        300,
        400,
        amount(500_000),
    )
    .unwrap()
}

fn failed() -> Result<(), TransferError> {
    Err(TransferError { code: 65_000 })
}

#[test]
fn init_keeps_the_configuration() {
    let engine = engine();
    assert_eq!(engine.name(), "pool");
    assert_eq!(engine.address(), "hash-00");
    assert_eq!(engine.staking_starts(), 100);
    assert_eq!(engine.staking_ends(), 200);
    assert_eq!(engine.withdraw_starts(), 300);
    assert_eq!(engine.withdraw_ends(), 400);
    assert_eq!(engine.staking_total(), amount(500_000));
    assert!(engine.events().is_empty());
    assert_eq!(engine.amount_staked(alice()), amount(0));
}

#[test]
fn init_rejects_windows_out_of_order() {
    let name = || String::from("pool");
    assert_eq!(
        CEP20STK::init(name(), name(), 200, 200, 300, 400, amount(1)).unwrap_err(),
        Error::WrongArguments
    );
    assert_eq!(
        CEP20STK::init(name(), name(), 201, 200, 300, 400, amount(1)).unwrap_err(),
        Error::WrongArguments
    );
    assert_eq!(
        CEP20STK::init(name(), name(), 100, 200, 400, 400, amount(1)).unwrap_err(),
        Error::WrongArguments
    );
    assert_eq!(
        CEP20STK::init(name(), name(), 100, 200, 401, 400, amount(1)).unwrap_err(),
        Error::WrongArguments
    );
    // The two windows need not be apart.
    assert!(CEP20STK::init(name(), name(), 100, 200, 150, 160, amount(1)).is_ok());
}

#[test]
fn stake_of_one_is_below_the_minimum() {
    let mut engine = engine();
    assert_eq!(engine.stake_request(&at(alice(), 150), amount(1)), Err(Error::NotRequiredStake));
    assert_eq!(engine.stake(&at(alice(), 150), amount(1), Ok(())), Err(Error::NotRequiredStake));
    assert_eq!(engine.stake(&at(alice(), 150), amount(0), Ok(())), Err(Error::NotRequiredStake));
    assert_eq!(engine.amount_staked(alice()), amount(0));
    assert!(engine.events().is_empty());
}

#[test]
fn stake_of_two_is_the_minimum() {
    let mut engine = engine();
    assert_eq!(engine.stake(&at(alice(), 150), amount(2), Ok(())), Ok(amount(2)));
    assert_eq!(engine.amount_staked(alice()), amount(2));
}

#[test]
fn stake_below_the_minimum_is_reported_before_bad_timing() {
    let mut engine = engine();
    assert_eq!(engine.stake(&at(alice(), 500), amount(1), Ok(())), Err(Error::NotRequiredStake));
    assert_eq!(engine.withdraw(&at(alice(), 500), amount(1), Ok(())), Err(Error::NotRequiredStake));
}

#[test]
fn stake_at_the_end_of_the_window_is_too_late() {
    let mut engine = engine();
    assert_eq!(engine.stake(&at(alice(), 200), amount(50), Ok(())), Err(Error::BadTiming));
    assert_eq!(engine.stake(&at(alice(), 99), amount(50), Ok(())), Err(Error::BadTiming));
    assert_eq!(engine.stake(&at(alice(), 350), amount(50), Ok(())), Err(Error::BadTiming));
    assert_eq!(engine.amount_staked(alice()), amount(0));
    assert!(engine.events().is_empty());
}

#[test]
fn stake_at_the_start_of_the_window_is_in_time() {
    let mut engine = engine();
    assert_eq!(engine.stake(&at(alice(), 100), amount(50), Ok(())), Ok(amount(50)));
    assert_eq!(engine.stake(&at(alice(), 199), amount(50), Ok(())), Ok(amount(50)));
    assert_eq!(engine.amount_staked(alice()), amount(100));
}

#[test]
fn stake_is_credited_and_recorded() {
    let mut engine = engine();
    assert_eq!(
        engine.stake_request(&at(alice(), 150), amount(50)),
        Ok(TransferCall::TransferFrom { owner: alice(), recipient: custody(), amount: amount(50) })
    );
    assert_eq!(engine.stake(&at(alice(), 150), amount(50), Ok(())), Ok(amount(50)));
    assert_eq!(engine.amount_staked(alice()), amount(50));
    assert_eq!(engine.amount_staked(bob()), amount(0));
    assert_eq!(
        engine.events(),
        &vec![EmittedEvent {
            package: package(),
            caller: alice(),
            event: CEP47Event::Stake { amount: amount(50) },
        }]
    );
}

#[test]
fn stake_whose_transfer_failed_changes_nothing() {
    let mut engine = engine();
    assert_eq!(
        engine.stake(&at(alice(), 150), amount(50), failed()),
        Err(Error::TransferFailed(TransferError { code: 65_000 }))
    );
    assert_eq!(engine.amount_staked(alice()), amount(0));
    assert!(engine.events().is_empty());
    assert_eq!(engine.stakers().get_amount_staked_by_address(&alice()), None);
}

#[test]
fn stake_that_would_overflow_is_rejected_before_the_transfer() {
    let mut ledger = StakedTokens::init();
    assert_eq!(ledger.add_stake(&alice(), &U256::max_value()), Ok(()));
    let config = cep47::Config {
        name: String::from("pool"),
        address: String::from("hash-00"),
        staking_starts: 100,
        staking_ends: 200,
        withdraw_starts: 300,
        withdraw_ends: 400,
        staking_total: amount(500_000),
    };
    let mut engine = CEP20STK::restore(config, ledger).unwrap();
    assert_eq!(engine.stake_request(&at(alice(), 150), amount(2)), Err(Error::ArithmeticOverflow));
    assert_eq!(engine.stake(&at(alice(), 150), amount(2), Ok(())), Err(Error::ArithmeticOverflow));
    assert_eq!(engine.stake(&at(alice(), 150), amount(2), failed()), Err(Error::ArithmeticOverflow));
    assert_eq!(engine.amount_staked(alice()), U256::max_value());
    assert_eq!(engine.stake(&at(bob(), 150), amount(2), Ok(())), Ok(amount(2)));
}

#[test]
fn withdraw_of_more_than_the_stake_is_rejected() {
    let mut engine = engine();
    assert_eq!(engine.stake(&at(alice(), 150), amount(50), Ok(())), Ok(amount(50)));
    assert_eq!(
        engine.withdraw_request(&at(alice(), 150), amount(60)),
        Err(Error::InsufficientBalance)
    );
    assert_eq!(
        engine.withdraw(&at(alice(), 150), amount(60), Ok(())),
        Err(Error::InsufficientBalance)
    );
    assert_eq!(engine.amount_staked(alice()), amount(50));
    assert_eq!(engine.events().len(), 1);
}

#[test]
fn withdraw_takes_from_the_stake_and_records_under_the_stake_tag() {
    let mut engine = engine();
    assert_eq!(engine.stake(&at(alice(), 150), amount(50), Ok(())), Ok(amount(50)));
    assert_eq!(
        engine.withdraw_request(&at(alice(), 160), amount(20)),
        Ok(TransferCall::Transfer { recipient: alice(), amount: amount(20) })
    );
    assert_eq!(engine.withdraw(&at(alice(), 160), amount(20), Ok(())), Ok(amount(20)));
    assert_eq!(engine.amount_staked(alice()), amount(30));
    assert_eq!(engine.events().len(), 2);
    assert_eq!(
        engine.events()[1],
        EmittedEvent {
            package: package(),
            caller: alice(),
            event: CEP47Event::Stake { amount: amount(20) },
        }
    );
}

#[test]
fn withdraw_is_gated_by_the_staking_window() {
    let mut engine = engine();
    assert_eq!(engine.stake(&at(alice(), 150), amount(50), Ok(())), Ok(amount(50)));
    assert_eq!(engine.withdraw(&at(alice(), 200), amount(20), Ok(())), Err(Error::BadTiming));
    assert_eq!(engine.withdraw(&at(alice(), 350), amount(20), Ok(())), Err(Error::BadTiming));
    assert_eq!(engine.withdraw(&at(alice(), 99), amount(20), Ok(())), Err(Error::BadTiming));
    assert_eq!(engine.withdraw(&at(alice(), 150), amount(1), Ok(())), Err(Error::NotRequiredStake));
    assert_eq!(engine.amount_staked(alice()), amount(50));
}

#[test]
fn withdraw_whose_transfer_failed_changes_nothing() {
    let mut engine = engine();
    assert_eq!(engine.stake(&at(alice(), 150), amount(50), Ok(())), Ok(amount(50)));
    assert_eq!(
        engine.withdraw(&at(alice(), 150), amount(20), failed()),
        Err(Error::TransferFailed(TransferError { code: 65_000 }))
    );
    assert_eq!(engine.amount_staked(alice()), amount(50));
    assert_eq!(engine.events().len(), 1);
}

#[test]
fn stake_then_withdraw_restores_the_stake() {
    let mut engine = engine();
    assert_eq!(engine.stake(&at(alice(), 120), amount(30), Ok(())), Ok(amount(30)));
    assert_eq!(engine.stake(&at(bob(), 121), amount(8), Ok(())), Ok(amount(8)));
    assert_eq!(engine.stake(&at(alice(), 150), amount(50), Ok(())), Ok(amount(50)));
    assert_eq!(engine.amount_staked(alice()), amount(80));
    assert_eq!(engine.withdraw(&at(alice(), 150), amount(50), Ok(())), Ok(amount(50)));
    assert_eq!(engine.amount_staked(alice()), amount(30));
    assert_eq!(engine.amount_staked(bob()), amount(8));
}

#[test]
fn stake_then_withdraw_from_nothing_leaves_zero() {
    let mut engine = engine();
    assert_eq!(engine.stake(&at(alice(), 150), amount(50), Ok(())), Ok(amount(50)));
    assert_eq!(engine.withdraw(&at(alice(), 150), amount(50), Ok(())), Ok(amount(50)));
    assert_eq!(engine.amount_staked(alice()), amount(0));
    assert_eq!(engine.withdraw(&at(alice(), 150), amount(2), Ok(())), Err(Error::InsufficientBalance));
    assert_eq!(engine.amount_staked(alice()), amount(0));
}

#[test]
fn add_reward_moves_reward_and_withdrawable_amount() {
    let mut engine = engine();
    assert_eq!(
        engine.add_reward_request(&at(bob(), 250), amount(100), amount(40)),
        Ok(TransferCall::TransferFrom { owner: bob(), recipient: custody(), amount: amount(140) })
    );
    assert_eq!(engine.add_reward(&at(bob(), 250), amount(100), amount(40), Ok(())), Ok(amount(100)));
    assert_eq!(engine.amount_staked(bob()), amount(0));
    assert_eq!(
        engine.events(),
        &vec![EmittedEvent {
            package: package(),
            caller: bob(),
            event: CEP47Event::AddReward {
                reward_amount: amount(100),
                withdrawable_amount: amount(40),
            },
        }]
    );
}

#[test]
fn add_reward_is_denied_once_the_withdraw_window_started() {
    let mut engine = engine();
    assert_eq!(
        engine.add_reward_request(&at(bob(), 350), amount(100), amount(40)),
        Err(Error::PermissionDenied)
    );
    assert_eq!(
        engine.add_reward(&at(bob(), 350), amount(100), amount(40), Ok(())),
        Err(Error::PermissionDenied)
    );
    assert_eq!(
        engine.add_reward(&at(bob(), 300), amount(100), amount(40), Ok(())),
        Err(Error::PermissionDenied)
    );
    assert_eq!(engine.add_reward(&at(bob(), 299), amount(100), amount(40), Ok(())), Ok(amount(100)));
    assert_eq!(engine.events().len(), 1);
}

#[test]
fn add_reward_rejects_a_withdrawable_amount_above_the_reward() {
    let mut engine = engine();
    assert_eq!(
        engine.add_reward(&at(bob(), 250), amount(50), amount(60), Ok(())),
        Err(Error::NegativeWithdrawableReward)
    );
    assert_eq!(
        engine.add_reward(&at(bob(), 0), amount(50), amount(60), Ok(())),
        Err(Error::NegativeWithdrawableReward)
    );
    assert_eq!(
        engine.add_reward(&at(bob(), 250), amount(50), amount(60), failed()),
        Err(Error::NegativeWithdrawableReward)
    );
    // Once the withdraw window has started, the timing is what is reported.
    assert_eq!(
        engine.add_reward(&at(bob(), 350), amount(50), amount(60), Ok(())),
        Err(Error::PermissionDenied)
    );
    assert!(engine.events().is_empty());
}

#[test]
fn add_reward_accepts_a_withdrawable_amount_up_to_the_reward() {
    let mut engine = engine();
    assert_eq!(engine.add_reward(&at(bob(), 250), amount(50), amount(50), Ok(())), Ok(amount(50)));
    assert_eq!(engine.add_reward(&at(bob(), 250), amount(50), amount(0), Ok(())), Ok(amount(50)));
    assert_eq!(
        engine.add_reward_request(&at(bob(), 250), amount(50), amount(50)),
        Ok(TransferCall::TransferFrom { owner: bob(), recipient: custody(), amount: amount(100) })
    );
}

#[test]
fn add_reward_rejects_a_reward_of_zero() {
    let mut engine = engine();
    assert_eq!(
        engine.add_reward(&at(bob(), 250), amount(0), amount(0), Ok(())),
        Err(Error::NegativeReward)
    );
    assert_eq!(
        engine.add_reward(&at(bob(), 250), amount(0), amount(5), Ok(())),
        Err(Error::NegativeReward)
    );
}

#[test]
fn add_reward_rejects_a_sum_that_does_not_fit() {
    let mut engine = engine();
    assert_eq!(
        engine.add_reward(&at(bob(), 250), U256::max_value(), amount(1), Ok(())),
        Err(Error::ArithmeticOverflow)
    );
    assert_eq!(
        engine.add_reward(&at(bob(), 250), U256::max_value(), amount(0), Ok(())),
        Ok(U256::max_value())
    );
}

#[test]
fn add_reward_whose_transfer_failed_changes_nothing() {
    let mut engine = engine();
    assert_eq!(
        engine.add_reward(&at(bob(), 250), amount(100), amount(40), failed()),
        Err(Error::TransferFailed(TransferError { code: 65_000 }))
    );
    assert!(engine.events().is_empty());
}

#[test]
fn emit_appends_to_the_log() {
    let mut engine = engine();
    engine.emit(&at(alice(), 1), CEP47Event::Withdraw { amount: amount(9) });
    engine.emit(&at(bob(), 2), CEP47Event::Stake { amount: amount(3) });
    assert_eq!(
        engine.events(),
        &vec![
            EmittedEvent {
                package: package(),
                caller: alice(),
                event: CEP47Event::Withdraw { amount: amount(9) },
            },
            EmittedEvent {
                package: package(),
                caller: bob(),
                event: CEP47Event::Stake { amount: amount(3) },
            },
        ]
    );
}

#[test]
fn restore_takes_up_the_ledger_that_was_kept() {
    let mut ledger = StakedTokens::init();
    assert_eq!(ledger.add_stake(&alice(), &amount(50)), Ok(()));
    let config = cep47::Config {
        name: String::from("pool"),
        address: String::from("hash-00"),
        staking_starts: 100,
        staking_ends: 200,
        withdraw_starts: 300,
        withdraw_ends: 400,
        staking_total: amount(500_000),
    };
    let mut engine = CEP20STK::restore(config, ledger).unwrap();
    assert_eq!(engine.amount_staked(alice()), amount(50));
    assert_eq!(engine.withdraw(&at(alice(), 150), amount(50), Ok(())), Ok(amount(50)));
    assert_eq!(engine.stakers().get_amount_staked_by_address(&alice()), Some(amount(0)));
}

#[test]
fn restore_rejects_windows_out_of_order() {
    let config = cep47::Config {
        name: String::from("pool"),
        address: String::from("hash-00"),
        staking_starts: 100,
        staking_ends: 100,
        withdraw_starts: 300,
        withdraw_ends: 400,
        staking_total: amount(500_000),
    };
    assert_eq!(
        CEP20STK::restore(config, StakedTokens::init()).unwrap_err(),
        Error::WrongArguments
    );
}

#[test]
fn error_codes_are_the_hosts_numbers() {
    assert_eq!(Error::PermissionDenied.code(), 1);
    assert_eq!(Error::WrongArguments.code(), 2);
    assert_eq!(Error::NotRequiredStake.code(), 3);
    assert_eq!(Error::BadTiming.code(), 4);
    assert_eq!(Error::InvalidContext.code(), 5);
    assert_eq!(Error::NegativeReward.code(), 6);
    assert_eq!(Error::NegativeWithdrawableReward.code(), 7);
    assert_eq!(Error::ArithmeticOverflow.code(), 8);
    assert_eq!(Error::InsufficientBalance.code(), 9);
    assert_eq!(Error::TransferFailed(TransferError { code: 1 }).code(), 10);
}

#[test]
fn call_context_is_read_from_the_call_stack() {
    let stack = vec![
        cep47::CallStackElement::Session { account_hash: [1; 32] },
        cep47::CallStackElement::StoredContract {
            contract_package_hash: package(),
            contract_hash: [9; 32],
        },
    ];
    assert_eq!(CallContext::new(&stack, 150), Ok(at(alice(), 150)));
}

#[test]
fn call_context_needs_a_caller_and_a_stored_contract() {
    let alone = vec![cep47::CallStackElement::StoredContract {
        contract_package_hash: package(),
        contract_hash: [9; 32],
    }];
    assert_eq!(CallContext::new(&alone, 150), Err(Error::InvalidContext));
    let session_on_top = vec![
        cep47::CallStackElement::StoredContract {
            contract_package_hash: package(),
            contract_hash: [9; 32],
        },
        cep47::CallStackElement::Session { account_hash: [1; 32] },
    ];
    assert_eq!(CallContext::new(&session_on_top, 150), Err(Error::InvalidContext));
    assert_eq!(CallContext::new(&Vec::new(), 150), Err(Error::InvalidContext));
}

#[test]
fn stakes_never_go_below_zero() {
    let mut engine = engine();
    let calls: [(u64, u64, bool); 8] = [
        (150, 5, false),
        (150, 10, true),
        (150, 11, false),
        (160, 4, false),
        (160, 7, false),
        (170, 3, true),
        (170, 2, false),
        (180, 2, false),
    ];
    let mut expected: u64 = 0;
    for (now, value, staking) in calls.iter() {
        if *staking {
            assert_eq!(engine.stake(&at(alice(), *now), amount(*value), Ok(())), Ok(amount(*value)));
            expected += value;
        } else if *value <= expected {
            assert_eq!(
                engine.withdraw(&at(alice(), *now), amount(*value), Ok(())),
                Ok(amount(*value))
            );
            expected -= value;
        } else {
            assert_eq!(
                engine.withdraw(&at(alice(), *now), amount(*value), Ok(())),
                Err(Error::InsufficientBalance)
            );
        }
        assert_eq!(engine.amount_staked(alice()), amount(expected));
    }
    assert_eq!(engine.amount_staked(alice()), amount(5));
    assert_eq!(engine.events().len(), 5);
}
