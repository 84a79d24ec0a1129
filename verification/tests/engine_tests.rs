use resimulate::account::{Account, AccountTable};
use resimulate::chain::{BlockId, HistoricalChain};
use resimulate::cost::{ExecutionCost, LimitedCostTracker};
use resimulate::engine::process_transaction;
use resimulate::store::InMemoryOverlayClarityBackingStore;
use resimulate::tx::{
    ChainConfig, ClarityVersion, ExecutionFailureKind, InvalidTransactionReason, MetadataWrite,
    PayloadEffects, PayloadOutcome, SettlementError, SponsorAuth, Transaction, TransactionPayload,
    EPOCH_2_05, EPOCH_2_1,
};

fn cost(runtime: u64) -> ExecutionCost {
    ExecutionCost { write_length: 0, write_count: 0, read_length: 0, read_count: 0, runtime }
}

fn limit(runtime: u64) -> ExecutionCost {
    ExecutionCost {
        write_length: 1000,
        write_count: 1000,
        read_length: 1000,
        read_count: 1000,
        runtime,
    }
}

fn empty_effects() -> PayloadEffects {
    PayloadEffects {
        data_writes: vec![],
        metadata_writes: vec![],
        debits: vec![],
        credits: vec![],
        events: vec![],
        return_value: "(ok true)".to_string(),
        stx_burned: 0,
        post_condition_aborted: false,
        vm_error: None,
    }
}

fn simple_tx(origin: &str, nonce: u64, fee: u64, runtime: u64) -> Transaction {
    Transaction {
        txid: 1,
        origin: origin.to_string(),
        origin_nonce: nonce,
        sponsor: None,
        fee,
        mainnet: true,
        chain_id: 1,
        payload: TransactionPayload {
            cost: cost(runtime),
            declared_clarity_version: None,
            outcome: PayloadOutcome::Success(empty_effects()),
        },
    }
}

fn config() -> ChainConfig {
    ChainConfig { mainnet: true, chain_id: 1 }
}

fn session() -> (InMemoryOverlayClarityBackingStore, AccountTable, LimitedCostTracker) {
    let chain = HistoricalChain { blocks: vec![], metadata: vec![] };
    let store = InMemoryOverlayClarityBackingStore::new(
        chain,
        BlockId { value: resimulate::chain::SENTINEL_BLOCK_RAW },
        BlockId { value: 99 },
    )
    .unwrap();
    let mut accounts = AccountTable::new();
    accounts.set_account("SP1", 0, 10_000);
    (store, accounts, LimitedCostTracker::new(limit(1_000)))
}

#[test]
fn wrong_nonce_rejected_without_state_change() {
    let (mut store, mut accounts, mut tracker) = session();
    let tx = simple_tx("SP1", 5, 100, 10);
    let r = process_transaction(&mut store, &mut accounts, &mut tracker, &config(), EPOCH_2_1, &tx);
    assert!(matches!(
        r,
        Err(SettlementError::InvalidTransaction(InvalidTransactionReason::BadOriginNonce))
    ));
    assert_eq!(accounts.get_account("SP1"), (0, 10_000));
    assert_eq!(tracker.get_total(), ExecutionCost::zero());
    assert_eq!(store.get_data("anything"), None);
}

#[test]
fn two_transactions_advance_nonce_and_accumulate_cost() {
    let (mut store, mut accounts, mut tracker) = session();
    let first = simple_tx("SP1", 0, 100, 10);
    let second = simple_tx("SP1", 1, 100, 25);
    let r1 =
        process_transaction(&mut store, &mut accounts, &mut tracker, &config(), EPOCH_2_1, &first);
    assert!(r1.is_ok());
    let r2 =
        process_transaction(&mut store, &mut accounts, &mut tracker, &config(), EPOCH_2_1, &second);
    assert!(r2.is_ok());
    let (nonce, balance) = accounts.get_account("SP1");
    assert_eq!(nonce, 2);
    assert_eq!(balance, 10_000 - 200);
    assert_eq!(tracker.get_total(), cost(35));
}

#[test]
fn wrong_network_and_chain_id_rejected() {
    let (mut store, mut accounts, mut tracker) = session();
    let mut tx = simple_tx("SP1", 0, 100, 10);
    tx.mainnet = false;
    let r = process_transaction(&mut store, &mut accounts, &mut tracker, &config(), EPOCH_2_1, &tx);
    assert!(matches!(
        r,
        Err(SettlementError::InvalidTransaction(InvalidTransactionReason::WrongNetwork))
    ));
    let mut tx = simple_tx("SP1", 0, 100, 10);
    tx.chain_id = 2;
    let r = process_transaction(&mut store, &mut accounts, &mut tracker, &config(), EPOCH_2_1, &tx);
    assert!(matches!(
        r,
        Err(SettlementError::InvalidTransaction(InvalidTransactionReason::WrongChainId))
    ));
}

#[test]
fn clarity2_rejected_before_the_upgrade_epoch() {
    let (mut store, mut accounts, mut tracker) = session();
    let mut tx = simple_tx("SP1", 0, 100, 10);
    tx.payload.declared_clarity_version = Some(ClarityVersion::Clarity2);
    let r =
        process_transaction(&mut store, &mut accounts, &mut tracker, &config(), EPOCH_2_05, &tx);
    assert!(matches!(
        r,
        Err(SettlementError::InvalidTransaction(InvalidTransactionReason::ClarityVersionTooNew))
    ));
    // From the upgrade epoch on the same transaction settles.
    let r = process_transaction(&mut store, &mut accounts, &mut tracker, &config(), EPOCH_2_1, &tx);
    assert!(r.is_ok());
}

#[test]
fn insufficient_fee_rejected() {
    let (mut store, mut accounts, mut tracker) = session();
    let tx = simple_tx("SP1", 0, 20_000, 10);
    let r = process_transaction(&mut store, &mut accounts, &mut tracker, &config(), EPOCH_2_1, &tx);
    assert!(matches!(
        r,
        Err(SettlementError::InvalidTransaction(InvalidTransactionReason::InsufficientFee))
    ));
    assert_eq!(accounts.get_account("SP1"), (0, 10_000));
}

#[test]
fn epoch_ordering_changes_what_the_payload_sees() {
    // Balance 10000; the payload debits 9950 and the fee is 100: the two
    // together do not fit. Settling the fee first starves the payload's
    // transfer; running the payload first starves the fee.
    let mk = || {
        let mut tx = simple_tx("SP1", 0, 100, 10);
        match &mut tx.payload.outcome {
            PayloadOutcome::Success(eff) => eff.debits.push(("SP1".to_string(), 9_950)),
            PayloadOutcome::Failure(_) => unreachable!(),
        }
        tx
    };
    let (mut store, mut accounts, mut tracker) = session();
    let r =
        process_transaction(&mut store, &mut accounts, &mut tracker, &config(), EPOCH_2_1, &mk());
    assert!(matches!(
        r,
        Err(SettlementError::ExecutionFailure(ExecutionFailureKind::TransferOverdraw))
    ));
    assert_eq!(accounts.get_account("SP1"), (0, 10_000));

    let (mut store, mut accounts, mut tracker) = session();
    let r =
        process_transaction(&mut store, &mut accounts, &mut tracker, &config(), EPOCH_2_05, &mk());
    assert!(matches!(
        r,
        Err(SettlementError::InvalidTransaction(InvalidTransactionReason::InsufficientFee))
    ));
    assert_eq!(accounts.get_account("SP1"), (0, 10_000));
}

#[test]
fn cost_overflow_classified_and_rolled_back() {
    let (mut store, mut accounts, mut tracker) = session();
    let tx = simple_tx("SP1", 0, 100, 5_000);
    let r = process_transaction(&mut store, &mut accounts, &mut tracker, &config(), EPOCH_2_1, &tx);
    assert!(matches!(r, Err(SettlementError::CostOverflow)));
    // The tracker is left at the clamped over-ceiling sum for the caller to
    // resolve; accounts are untouched.
    assert_eq!(tracker.get_total(), cost(5_000));
    assert_eq!(accounts.get_account("SP1"), (0, 10_000));
}

#[test]
fn payload_failure_rolls_everything_back() {
    let (mut store, mut accounts, mut tracker) = session();
    let mut tx = simple_tx("SP1", 0, 100, 10);
    tx.payload.outcome = PayloadOutcome::Failure("runtime type mismatch".to_string());
    let r = process_transaction(&mut store, &mut accounts, &mut tracker, &config(), EPOCH_2_1, &tx);
    match r {
        Err(SettlementError::ExecutionFailure(ExecutionFailureKind::Interpreter(msg))) => {
            assert_eq!(msg, "runtime type mismatch".to_string());
        }
        other => panic!("expected an interpreter failure, got {:?}", other.is_ok()),
    }
    assert_eq!(accounts.get_account("SP1"), (0, 10_000));
    assert_eq!(tracker.get_total(), ExecutionCost::zero());
}

#[test]
fn post_condition_abort_keeps_fee_and_nonce_but_drops_effects() {
    let (mut store, mut accounts, mut tracker) = session();
    let mut tx = simple_tx("SP1", 0, 100, 10);
    match &mut tx.payload.outcome {
        PayloadOutcome::Success(eff) => {
            eff.post_condition_aborted = true;
            eff.data_writes.push(("k".to_string(), "v".to_string()));
            eff.debits.push(("SP1".to_string(), 500));
        }
        PayloadOutcome::Failure(_) => unreachable!(),
    }
    let r = process_transaction(&mut store, &mut accounts, &mut tracker, &config(), EPOCH_2_1, &tx);
    let receipt = r.expect("an aborted payload still settles");
    assert!(receipt.post_condition_aborted);
    // Fee paid and nonce advanced, but neither the debit nor the write landed.
    assert_eq!(accounts.get_account("SP1"), (1, 9_900));
    assert_eq!(store.get_data("k"), None);
}

#[test]
fn vm_error_keeps_receipt_but_drops_effects() {
    let (mut store, mut accounts, mut tracker) = session();
    let mut tx = simple_tx("SP1", 0, 100, 10);
    match &mut tx.payload.outcome {
        PayloadOutcome::Success(eff) => {
            eff.vm_error = Some("arithmetic underflow".to_string());
            eff.data_writes.push(("k".to_string(), "v".to_string()));
        }
        PayloadOutcome::Failure(_) => unreachable!(),
    }
    let r = process_transaction(&mut store, &mut accounts, &mut tracker, &config(), EPOCH_2_1, &tx);
    let receipt = r.expect("a captured interpreter error still settles");
    assert_eq!(receipt.vm_error, Some("arithmetic underflow".to_string()));
    assert_eq!(store.get_data("k"), None);
    assert_eq!(accounts.get_account("SP1"), (1, 9_900));
}

#[test]
fn successful_payload_commits_writes_and_transfers() {
    let (mut store, mut accounts, mut tracker) = session();
    accounts.set_account("SP2", 7, 50);
    let mut tx = simple_tx("SP1", 0, 100, 10);
    match &mut tx.payload.outcome {
        PayloadOutcome::Success(eff) => {
            eff.data_writes.push(("k".to_string(), "v".to_string()));
            eff.metadata_writes.push(MetadataWrite {
                contract: "SP1.token".to_string(),
                key: "abi".to_string(),
                value: "deployed-abi".to_string(),
            });
            eff.debits.push(("SP1".to_string(), 1_000));
            eff.credits.push(("SP2".to_string(), 1_000));
            eff.events.push("transfer-event".to_string());
            eff.stx_burned = 3;
        }
        PayloadOutcome::Failure(_) => unreachable!(),
    }
    let r = process_transaction(&mut store, &mut accounts, &mut tracker, &config(), EPOCH_2_1, &tx);
    let receipt = r.expect("the payload settles");
    assert_eq!(receipt.events, vec!["transfer-event".to_string()]);
    assert_eq!(receipt.stx_burned, 3);
    assert_eq!(receipt.execution_cost, cost(10));
    assert_eq!(accounts.get_account("SP1"), (1, 10_000 - 100 - 1_000));
    assert_eq!(accounts.get_account("SP2"), (7, 1_050));
    assert_eq!(store.get_data("k"), Some("v".to_string()));
    assert_eq!(store.get_metadata("SP1.token", "abi"), Ok(Some("deployed-abi".to_string())));
}

#[test]
fn credit_overflow_is_a_balance_overflow_failure() {
    let (mut store, mut accounts, mut tracker) = session();
    accounts.set_account("SP2", 0, u128::MAX);
    let mut tx = simple_tx("SP1", 0, 100, 10);
    match &mut tx.payload.outcome {
        PayloadOutcome::Success(eff) => eff.credits.push(("SP2".to_string(), 1)),
        PayloadOutcome::Failure(_) => unreachable!(),
    }
    let r = process_transaction(&mut store, &mut accounts, &mut tracker, &config(), EPOCH_2_1, &tx);
    assert!(matches!(
        r,
        Err(SettlementError::ExecutionFailure(ExecutionFailureKind::BalanceOverflow))
    ));
    assert_eq!(accounts.get_account("SP2"), (0, u128::MAX));
}

#[test]
fn sponsored_transaction_charges_the_sponsor_and_bumps_both_nonces() {
    let (mut store, mut accounts, mut tracker) = session();
    accounts.set_account("SP9", 4, 1_000);
    let mut tx = simple_tx("SP1", 0, 100, 10);
    tx.sponsor = Some(SponsorAuth { principal: "SP9".to_string(), nonce: 4 });
    let r = process_transaction(&mut store, &mut accounts, &mut tracker, &config(), EPOCH_2_1, &tx);
    assert!(r.is_ok());
    assert_eq!(accounts.get_account("SP1"), (1, 10_000));
    assert_eq!(accounts.get_account("SP9"), (5, 900));
}

#[test]
fn sponsor_nonce_mismatch_rejected() {
    let (mut store, mut accounts, mut tracker) = session();
    accounts.set_account("SP9", 4, 1_000);
    let mut tx = simple_tx("SP1", 0, 100, 10);
    tx.sponsor = Some(SponsorAuth { principal: "SP9".to_string(), nonce: 3 });
    let r = process_transaction(&mut store, &mut accounts, &mut tracker, &config(), EPOCH_2_1, &tx);
    assert!(matches!(
        r,
        Err(SettlementError::InvalidTransaction(InvalidTransactionReason::BadSponsorNonce))
    ));
}

#[test]
fn exhausted_nonce_counter_rejected() {
    let (mut store, mut accounts, mut tracker) = session();
    accounts.set_account("SP8", u64::MAX, 10_000);
    let tx = simple_tx("SP8", u64::MAX, 100, 10);
    let r = process_transaction(&mut store, &mut accounts, &mut tracker, &config(), EPOCH_2_1, &tx);
    assert!(matches!(
        r,
        Err(SettlementError::InvalidTransaction(InvalidTransactionReason::NonceExhausted))
    ));
    assert_eq!(accounts.get_account("SP8"), (u64::MAX, 10_000));
}

#[test]
fn account_table_clone_is_independent() {
    let mut accounts = AccountTable::new();
    accounts.set_account("SP1", 3, 77);
    let copy = accounts.clone_table();
    accounts.set_account("SP1", 9, 0);
    assert_eq!(copy.get_account("SP1"), (3, 77));
    assert_eq!(accounts.get_account("SP1"), (9, 0));
    assert_eq!(copy.get_account("absent"), (0, 0));
    let direct = AccountTable { accounts: vec![Account { principal: "SPX".to_string(), nonce: 1, balance: 2 }] };
    assert_eq!(direct.get_account("SPX"), (1, 2));
}

#[test]
fn pre_upgrade_epoch_settles_payload_then_fee() {
    let (mut store, mut accounts, mut tracker) = session();
    accounts.set_account("SP2", 0, 0);
    let mut tx = simple_tx("SP1", 0, 100, 10);
    match &mut tx.payload.outcome {
        PayloadOutcome::Success(eff) => {
            eff.debits.push(("SP1".to_string(), 400));
            eff.credits.push(("SP2".to_string(), 400));
        }
        PayloadOutcome::Failure(_) => unreachable!(),
    }
    let r =
        process_transaction(&mut store, &mut accounts, &mut tracker, &config(), EPOCH_2_05, &tx);
    assert!(r.is_ok());
    assert_eq!(accounts.get_account("SP1"), (1, 10_000 - 400 - 100));
    assert_eq!(accounts.get_account("SP2"), (0, 400));
    assert_eq!(tracker.get_total(), cost(10));
}
