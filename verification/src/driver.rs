//! The tenure-budgeted replay driver: sequence a block's transactions
//! through settlement, one shared running cost total against one fixed
//! ceiling, deciding per cost overflow whether the transaction is rejected
//! for good or the tenure's budget rolls over and the same transaction is
//! retried against a fresh window.

use vstd::prelude::*;

use crate::account::AccountTable;
use crate::cost::{
    cost_zero, spec_proportion_largest_dimension, ExecutionCost, LimitedCostTracker,
};
use crate::engine::process_transaction;
use crate::store::InMemoryOverlayClarityBackingStore;
use crate::tx::{
    ChainConfig, ExecutionFailureKind, InvalidTransactionReason, PayloadOutcome, SettlementError,
    Transaction,
};

verus! {

/// The protocol's heuristic threshold, in percent: a transaction that
/// overflows the budget is rejected outright only while the pre-transaction
/// total still sits below this fraction of the ceiling's largest dimension;
/// from it upwards the tenure is considered exhausted instead. The value
/// must match the authoritative node's for replays to reproduce its
/// outcomes.
pub const TX_BLOCK_LIMIT_PROPORTION_HEURISTIC: u64 = 95;

/// The per-transaction record a replay reports.
pub struct NakamotoStacksTransactionPlainReceipt {
    pub txid: u64,
    pub events: Vec<String>,
    pub post_condition_aborted: bool,
    pub result: String,
    pub stx_burned: u128,
    pub execution_cost: ExecutionCost,
    pub cost_so_far: ExecutionCost,
    pub costs: u32,
    pub tx_index: u32,
    pub vm_error: Option<String>,
}

/// A typed per-transaction failure in the replay's output list.
#[derive(Debug)]
pub enum ReplayTransactionError {
    /// The transaction overflowed the budget while the tenure was still
    /// fresh enough that the transaction itself is to blame.
    InvalidCostOverflow,
    /// Rejected before taking effect.
    Invalid(InvalidTransactionReason),
    /// The payload's recorded run could not be applied.
    Execution(ExecutionFailureKind),
}

/// The replay's terminal output: one outcome per transaction in input
/// order, the tenure's starting cost, and how often the budget rolled over.
pub struct NakamotoSimulateResult {
    pub block_height: u64,
    pub block_hash: u64,
    pub index_block_hash: u64,
    pub error: Option<String>,
    pub receipts: Vec<Result<NakamotoStacksTransactionPlainReceipt, ReplayTransactionError>>,
    pub tenure_initial_costs: ExecutionCost,
    pub tenure_extend: u64,
}

/// One step of an interactive simulation session: a settled transaction, a
/// read-only evaluation, a batch of reads, a contract-code override, or a
/// budget reset, each with its outcome.
pub enum NakamotoSimulateStepResult {
    Transaction(Result<NakamotoStacksTransactionPlainReceipt, ReplayTransactionError>),
    EvalReadonly(Result<String, String>),
    Reads(Vec<Result<String, String>>),
    SetContractCode(Result<(), String>),
    ResetCosts(ExecutionCost),
}

/// A single read query a simulation can answer against the tip's state,
/// identified by contract and key material rendered to text.
pub enum SimulationReadStep {
    MapEntry(String, String, String),
    DataVar(String, String),
    EvalReadonly(String, Option<String>, String, String),
    StxBalance(String),
    FtBalance(String, String, String),
    FtSupply(String, String),
    Nonce(String),
}

/// The per-transaction record older simulations report, without the
/// block-identifying fields.
pub struct SimulationTransactionReceipt {
    pub events: Vec<String>,
    pub post_condition_aborted: bool,
    pub result: String,
    pub stx_burned: u128,
    pub execution_cost: ExecutionCost,
    pub costs: u32,
    pub tx_index: u32,
    pub vm_error: Option<String>,
}

/// One candidate row from the staging table consulted when locating the
/// block to replay.
pub struct StagingBlockRow {
    pub height: u64,
    pub block_hash: u64,
    pub index_block_id: u64,
    pub parent_block_id: u64,
    pub processed: bool,
    pub orphaned: bool,
}

/// Whether a staging row is the block being looked for: processed, not
/// orphaned, at the requested height, carrying the requested block hash.
pub open spec fn spec_row_matches(row: StagingBlockRow, height: u64, block_hash: u64) -> bool {
    row.processed && !row.orphaned && row.height == height && row.block_hash == block_hash
}

/// Select the first candidate row matching the requested height and block
/// hash, as the block-header lookup does among its query results.
pub fn find_block_row(rows: &Vec<StagingBlockRow>, height: u64, block_hash: u64) -> (r: Option<
    usize,
>)
    ensures
        r matches Some(i) ==> i < rows@.len() && spec_row_matches(rows@[i as int], height, block_hash)
            && (forall|j: int| 0 <= j < i ==> !spec_row_matches(rows@[j], height, block_hash)),
        r is None ==> forall|j: int|
            0 <= j < rows@.len() ==> !spec_row_matches(rows@[j], height, block_hash),
{
    let n = rows.len();
    let mut i: usize = 0;
    while i < n
        invariant
            n == rows@.len(),
            0 <= i <= n,
            forall|j: int| 0 <= j < i ==> !spec_row_matches(rows@[j], height, block_hash),
        decreases n - i,
    {
        let row = &rows[i];
        if row.processed && !row.orphaned && row.height == height && row.block_hash == block_hash {
            return Some(i);
        }
        i += 1;
    }
    None
}

/// The replay-visible state one settlement step transforms: the store's two
/// override layers, the account states, and the running cost total.
pub struct ReplayState {
    pub overrides: Map<Seq<char>, Seq<char>>,
    pub meta: Map<(Seq<char>, Seq<char>), Seq<char>>,
    pub accounts: crate::engine::AccountState,
    pub total: ExecutionCost,
}

/// How a settlement failure reads in the output list.
pub open spec fn spec_replay_error(e: SettlementError) -> ReplayTransactionError {
    match e {
        SettlementError::CostOverflow => ReplayTransactionError::InvalidCostOverflow,
        SettlementError::InvalidTransaction(r) => ReplayTransactionError::Invalid(r),
        SettlementError::ExecutionFailure(k) => ReplayTransactionError::Execution(k),
    }
}

/// The state after a committed transaction: the accounts as settlement left
/// them (`accounts2`), the payload's writes landed when its effects took
/// hold, and the total advanced by the payload's cost.
pub open spec fn spec_commit_state(
    st: ReplayState,
    tx: Transaction,
    accounts2: crate::engine::AccountState,
) -> ReplayState {
    match tx.payload.outcome {
        PayloadOutcome::Success(eff) => ReplayState {
            overrides: if eff.spec_effects_applied() {
                crate::store::batch_overrides(st.overrides, eff.data_writes@)
            } else {
                st.overrides
            },
            meta: if eff.spec_effects_applied() {
                crate::engine::spec_apply_meta(st.meta, eff.metadata_writes@)
            } else {
                st.meta
            },
            accounts: accounts2,
            total: crate::cost::cost_add(st.total, tx.payload.cost),
        },
        PayloadOutcome::Failure(_) => st,
    }
}

/// What the replay loop does from transaction `i` on: the output entries it
/// emits (a settled entry abstracted to its cost-so-far — the receipt's
/// remaining fields are functions of the transaction alone), how often the
/// tenure budget rolled over, and the final state. A rollover recurses on
/// the same transaction with a zeroed total; it terminates because an
/// overflow over a zero total always falls below the threshold.
pub open spec fn spec_replay(
    config: ChainConfig,
    epoch: u32,
    limit: ExecutionCost,
    st: ReplayState,
    txs: Seq<Transaction>,
    i: int,
) -> (Seq<Result<ExecutionCost, ReplayTransactionError>>, int, ReplayState)
    decreases
            txs.len() - i,
            (if st.total == cost_zero() {
                0int
            } else {
                1int
            }),
{
    if i < 0 || i >= txs.len() {
        (Seq::empty(), 0, st)
    } else {
        let tx = txs[i];
        match crate::engine::spec_settle(config, epoch, st.accounts, st.total, limit, tx) {
            Ok(m2) => {
                let st2 = spec_commit_state(st, tx, m2);
                let rest = spec_replay(config, epoch, limit, st2, txs, i + 1);
                (seq![Ok(st2.total)] + rest.0, rest.1, rest.2)
            },
            Err(e) => {
                if e is CostOverflow {
                    if spec_proportion_largest_dimension(limit, st.total)
                        >= TX_BLOCK_LIMIT_PROPORTION_HEURISTIC as int {
                        proof {
                            lemma_proportion_of_zero(limit);
                        }
                        let st2 = ReplayState {
                            overrides: st.overrides,
                            meta: st.meta,
                            accounts: st.accounts,
                            total: cost_zero(),
                        };
                        let rest = spec_replay(config, epoch, limit, st2, txs, i);
                        (rest.0, rest.1 + 1, rest.2)
                    } else {
                        let rest = spec_replay(config, epoch, limit, st, txs, i + 1);
                        (
                            seq![
                                Err::<ExecutionCost, ReplayTransactionError>(
                                    ReplayTransactionError::InvalidCostOverflow,
                                ),
                            ] + rest.0,
                            rest.1,
                            rest.2,
                        )
                    }
                } else {
                    let rest = spec_replay(config, epoch, limit, st, txs, i + 1);
                    (
                        seq![Err::<ExecutionCost, ReplayTransactionError>(spec_replay_error(e))]
                            + rest.0,
                        rest.1,
                        rest.2,
                    )
                }
            },
        }
    }
}

/// The replay model emits exactly one entry per remaining transaction.
pub proof fn lemma_replay_len(
    config: ChainConfig,
    epoch: u32,
    limit: ExecutionCost,
    st: ReplayState,
    txs: Seq<Transaction>,
    i: int,
)
    requires
        0 <= i <= txs.len(),
    ensures
        spec_replay(config, epoch, limit, st, txs, i).0.len() == txs.len() - i,
    decreases
            txs.len() - i,
            (if st.total == cost_zero() {
                0int
            } else {
                1int
            }),
{
    if i < txs.len() {
        let tx = txs[i];
        match crate::engine::spec_settle(config, epoch, st.accounts, st.total, limit, tx) {
            Ok(m2) => {
                lemma_replay_len(config, epoch, limit, spec_commit_state(st, tx, m2), txs, i + 1);
            },
            Err(e) => {
                if e is CostOverflow && spec_proportion_largest_dimension(limit, st.total)
                    >= TX_BLOCK_LIMIT_PROPORTION_HEURISTIC as int {
                    lemma_proportion_of_zero(limit);
                    let st2 = ReplayState {
                        overrides: st.overrides,
                        meta: st.meta,
                        accounts: st.accounts,
                        total: cost_zero(),
                    };
                    lemma_replay_len(config, epoch, limit, st2, txs, i);
                } else {
                    lemma_replay_len(config, epoch, limit, st, txs, i + 1);
                }
            },
        }
    }
}

/// The state a replay starts from.
pub open spec fn spec_replay_start(
    store: InMemoryOverlayClarityBackingStore,
    accounts: AccountTable,
    total: ExecutionCost,
) -> ReplayState {
    ReplayState {
        overrides: store.overrides(),
        meta: store.meta_overrides(),
        accounts: accounts.state_of(),
        total,
    }
}

/// What an output entry must hold of the model's entry for its transaction:
/// a settled receipt carries the transaction's recorded outcome and the
/// model's cost-so-far; a failed one carries exactly the model's error.
/// (The wall-clock `costs` field is a clock reading and is not modeled.)
pub open spec fn entry_corresponds(
    entry: Result<NakamotoStacksTransactionPlainReceipt, ReplayTransactionError>,
    model: Result<ExecutionCost, ReplayTransactionError>,
    tx: Transaction,
    i: int,
) -> bool {
    match entry {
        Ok(rec) => model matches Ok(cost_so_far) && ({
            &&& rec.txid == tx.txid
            &&& rec.tx_index == i + 1
            &&& rec.cost_so_far == cost_so_far
            &&& rec.execution_cost == tx.payload.cost
            &&& tx.payload.outcome matches PayloadOutcome::Success(eff) && {
                &&& rec.events@ == eff.events@
                &&& rec.post_condition_aborted == eff.post_condition_aborted
                &&& rec.result == eff.return_value
                &&& rec.stx_burned == eff.stx_burned
                &&& rec.vm_error == eff.vm_error
            }
        }),
        Err(e) => model matches Err(em) && e == em,
    }
}

/// The zero cost consumes no fraction of any ceiling.
pub proof fn lemma_proportion_of_zero(limit: ExecutionCost)
    ensures
        spec_proportion_largest_dimension(limit, cost_zero()) == 0,
{
    vstd::arithmetic::div_mod::lemma_div_of0(
        if limit.runtime as int / 100 < 1 {
            1int
        } else {
            limit.runtime as int / 100
        },
    );
    vstd::arithmetic::div_mod::lemma_div_of0(
        if limit.write_length as int / 100 < 1 {
            1int
        } else {
            limit.write_length as int / 100
        },
    );
    vstd::arithmetic::div_mod::lemma_div_of0(
        if limit.write_count as int / 100 < 1 {
            1int
        } else {
            limit.write_count as int / 100
        },
    );
    vstd::arithmetic::div_mod::lemma_div_of0(
        if limit.read_length as int / 100 < 1 {
            1int
        } else {
            limit.read_length as int / 100
        },
    );
    vstd::arithmetic::div_mod::lemma_div_of0(
        if limit.read_count as int / 100 < 1 {
            1int
        } else {
            limit.read_count as int / 100
        },
    );
}

/// Decide a cost overflow against the tenure budget: when the
/// pre-transaction total's largest-dimension fraction of the ceiling sits
/// below the heuristic threshold, the transaction itself is invalid for
/// this budget and the running total is restored to exactly `cost_before`;
/// from the threshold upwards the tenure is exhausted instead, and the
/// total resets to zero for a fresh budget window.
pub fn resolve_cost_overflow(
    cost_track: &mut LimitedCostTracker,
    cost_before: ExecutionCost,
) -> (extend: bool)
    ensures
        extend == (spec_proportion_largest_dimension(old(cost_track).limit, cost_before)
            >= TX_BLOCK_LIMIT_PROPORTION_HEURISTIC as int),
        final(cost_track).limit == old(cost_track).limit,
        !extend ==> final(cost_track).total == cost_before,
        extend ==> final(cost_track).total == cost_zero(),
{
    let limit = cost_track.limit;
    let proportion = limit.proportion_largest_dimension(&cost_before);
    if proportion < TX_BLOCK_LIMIT_PROPORTION_HEURISTIC {
        cost_track.set_total(cost_before);
        false
    } else {
        cost_track.set_total(ExecutionCost::zero());
        true
    }
}

/// Replay one block's transactions under the tenure budget.
///
/// Every transaction yields exactly one output entry, in input order;
/// budget rollovers retry the same transaction without emitting anything.
/// Later transactions observe all state the earlier ones committed, through
/// the shared store, accounts and running total.
pub fn nakamoto_simulate(
    store: &mut InMemoryOverlayClarityBackingStore,
    accounts: &mut AccountTable,
    config: &ChainConfig,
    epoch: u32,
    block_height: u64,
    block_hash: u64,
    index_block_hash: u64,
    txs: &Vec<Transaction>,
    block_limit: ExecutionCost,
    tenure_initial_costs: ExecutionCost,
) -> (r: NakamotoSimulateResult)
    requires
        txs@.len() < u32::MAX as nat,
    ensures
        ({
            let model = spec_replay(
                *config,
                epoch,
                block_limit,
                spec_replay_start(*old(store), *old(accounts), tenure_initial_costs),
                txs@,
                0,
            );
            &&& r.receipts@.len() == txs@.len()
            &&& model.0.len() == txs@.len()
            &&& forall|j: int|
                0 <= j < txs@.len() ==> entry_corresponds(
                    #[trigger] r.receipts@[j],
                    model.0[j],
                    txs@[j],
                    j,
                )
            &&& r.tenure_extend as int == model.1
            &&& final(store).overrides() == model.2.overrides
            &&& final(store).meta_overrides() == model.2.meta
            &&& final(accounts).state_of() == model.2.accounts
        }),
        final(store).chain == old(store).chain,
        final(store).parent_block == old(store).parent_block,
        final(store).tip_block == old(store).tip_block,
        final(store).current_block == old(store).current_block,
        r.block_height == block_height,
        r.block_hash == block_hash,
        r.index_block_hash == index_block_hash,
        r.tenure_initial_costs == tenure_initial_costs,
        r.error is None,
{
    let mut cost_track = LimitedCostTracker::new(block_limit);
    cost_track.set_total(tenure_initial_costs);
    let mut receipts: Vec<
        Result<NakamotoStacksTransactionPlainReceipt, ReplayTransactionError>,
    > = Vec::new();
    let mut tenure_extend: u64 = 0;
    let n = txs.len();
    let mut i: usize = 0;
    let ghost st0 = spec_replay_start(*old(store), *old(accounts), tenure_initial_costs);
    proof {
        lemma_replay_len(*config, epoch, block_limit, st0, txs@, 0);
        let full = spec_replay(*config, epoch, block_limit, st0, txs@, 0);
        assert(full.0.skip(0) =~= full.0);
    }
    while i < n
        invariant
            n == txs@.len(),
            n < u32::MAX as nat,
            0 <= i <= n,
            receipts@.len() == i,
            cost_track.limit == block_limit,
            store.chain == old(store).chain,
            store.parent_block == old(store).parent_block,
            store.tip_block == old(store).tip_block,
            store.current_block == old(store).current_block,
            tenure_extend as int <= i + (if cost_track.total == cost_zero() {
                1int
            } else {
                0int
            }),
            ({
                let full = spec_replay(*config, epoch, block_limit, st0, txs@, 0);
                let cur = ReplayState {
                    overrides: store.overrides(),
                    meta: store.meta_overrides(),
                    accounts: accounts.state_of(),
                    total: cost_track.total,
                };
                let rest = spec_replay(*config, epoch, block_limit, cur, txs@, i as int);
                &&& full.0.len() == n
                &&& rest.0 =~= full.0.skip(i as int)
                &&& full.1 == tenure_extend as int + rest.1
                &&& full.2 == rest.2
                &&& forall|j: int|
                    0 <= j < i ==> entry_corresponds(
                        #[trigger] receipts@[j],
                        full.0[j],
                        txs@[j],
                        j,
                    )
            }),
        decreases
                n - i,
                (if cost_track.total == cost_zero() {
                    0int
                } else {
                    1int
                }),
    {
        let ghost cur = ReplayState {
            overrides: store.overrides(),
            meta: store.meta_overrides(),
            accounts: accounts.state_of(),
            total: cost_track.total,
        };
        let tx = &txs[i];
        let started = crate::clock::instant_now();
        let cost_before = cost_track.get_total();
        let ghost full = spec_replay(*config, epoch, block_limit, st0, txs@, 0);
        let ghost rest = spec_replay(*config, epoch, block_limit, cur, txs@, i as int);
        proof {
            assert(full.0.skip(i as int)[0] == full.0[i as int]);
            assert(full.0.skip(i as int + 1) =~= full.0.skip(i as int).skip(1));
        }
        match process_transaction(store, accounts, &mut cost_track, config, epoch, tx) {
            Ok(rec) => {
                proof {
                    let res = crate::engine::spec_settle(
                        *config,
                        epoch,
                        cur.accounts,
                        cur.total,
                        block_limit,
                        *tx,
                    );
                    let st2 = spec_commit_state(cur, *tx, res->Ok_0);
                    let cur2 = ReplayState {
                        overrides: store.overrides(),
                        meta: store.meta_overrides(),
                        accounts: accounts.state_of(),
                        total: cost_track.total,
                    };
                    assert(cur2 == st2);
                    let rest2 = spec_replay(*config, epoch, block_limit, st2, txs@, i as int + 1);
                    assert(rest.0 == seq![
                        Ok::<ExecutionCost, ReplayTransactionError>(st2.total),
                    ] + rest2.0);
                    assert((seq![Ok::<ExecutionCost, ReplayTransactionError>(st2.total)]
                        + rest2.0).skip(1) =~= rest2.0);
                }
                let raw_ms = crate::clock::elapsed_raw_millis(&started);
                let costs: u32 = if raw_ms > u32::MAX as u128 {
                    u32::MAX
                } else {
                    raw_ms as u32
                };
                let cost_so_far = cost_track.get_total();
                receipts.push(
                    Ok(
                        NakamotoStacksTransactionPlainReceipt {
                            txid: tx.txid,
                            events: rec.events,
                            post_condition_aborted: rec.post_condition_aborted,
                            result: rec.result,
                            stx_burned: rec.stx_burned,
                            execution_cost: rec.execution_cost,
                            cost_so_far,
                            costs,
                            tx_index: (i as u32) + 1,
                            vm_error: rec.vm_error,
                        },
                    ),
                );
                i += 1;
            },
            Err(SettlementError::CostOverflow) => {
                proof {
                    lemma_proportion_of_zero(cost_track.limit);
                }
                if resolve_cost_overflow(&mut cost_track, cost_before) {
                    // The tenure's budget is exhausted: roll it over and
                    // retry this same transaction against a fresh window.
                    proof {
                        let st2 = ReplayState {
                            overrides: cur.overrides,
                            meta: cur.meta,
                            accounts: cur.accounts,
                            total: cost_zero(),
                        };
                        let cur2 = ReplayState {
                            overrides: store.overrides(),
                            meta: store.meta_overrides(),
                            accounts: accounts.state_of(),
                            total: cost_track.total,
                        };
                        assert(cur2 == st2);
                        let rest2 = spec_replay(*config, epoch, block_limit, st2, txs@, i as int);
                        assert(rest.0 == rest2.0 && rest.1 == rest2.1 + 1 && rest.2 == rest2.2);
                    }
                    tenure_extend += 1;
                } else {
                    proof {
                        let cur2 = ReplayState {
                            overrides: store.overrides(),
                            meta: store.meta_overrides(),
                            accounts: accounts.state_of(),
                            total: cost_track.total,
                        };
                        assert(cur2 == cur);
                        let rest2 = spec_replay(
                            *config,
                            epoch,
                            block_limit,
                            cur,
                            txs@,
                            i as int + 1,
                        );
                        let entry = Err::<ExecutionCost, ReplayTransactionError>(
                            ReplayTransactionError::InvalidCostOverflow,
                        );
                        assert(rest.0 == seq![entry] + rest2.0);
                        assert((seq![entry] + rest2.0).skip(1) =~= rest2.0);
                    }
                    receipts.push(Err(ReplayTransactionError::InvalidCostOverflow));
                    i += 1;
                }
            },
            Err(SettlementError::InvalidTransaction(reason)) => {
                proof {
                    let cur2 = ReplayState {
                        overrides: store.overrides(),
                        meta: store.meta_overrides(),
                        accounts: accounts.state_of(),
                        total: cost_track.total,
                    };
                    assert(cur2 == cur);
                    let rest2 = spec_replay(*config, epoch, block_limit, cur, txs@, i as int + 1);
                    let entry = Err::<ExecutionCost, ReplayTransactionError>(
                        ReplayTransactionError::Invalid(reason),
                    );
                    assert(rest.0 == seq![entry] + rest2.0);
                    assert((seq![entry] + rest2.0).skip(1) =~= rest2.0);
                }
                receipts.push(Err(ReplayTransactionError::Invalid(reason)));
                i += 1;
            },
            Err(SettlementError::ExecutionFailure(kind)) => {
                proof {
                    let cur2 = ReplayState {
                        overrides: store.overrides(),
                        meta: store.meta_overrides(),
                        accounts: accounts.state_of(),
                        total: cost_track.total,
                    };
                    assert(cur2 == cur);
                    let rest2 = spec_replay(*config, epoch, block_limit, cur, txs@, i as int + 1);
                    let entry = Err::<ExecutionCost, ReplayTransactionError>(
                        ReplayTransactionError::Execution(kind),
                    );
                    assert(rest.0 == seq![entry] + rest2.0);
                    assert((seq![entry] + rest2.0).skip(1) =~= rest2.0);
                }
                receipts.push(Err(ReplayTransactionError::Execution(kind)));
                i += 1;
            },
        }
    }
    proof {
        let full = spec_replay(*config, epoch, block_limit, st0, txs@, 0);
        let cur = ReplayState {
            overrides: store.overrides(),
            meta: store.meta_overrides(),
            accounts: accounts.state_of(),
            total: cost_track.total,
        };
        let rest = spec_replay(*config, epoch, block_limit, cur, txs@, n as int);
        assert(rest.0 =~= Seq::<Result<ExecutionCost, ReplayTransactionError>>::empty());
        assert(full.0.skip(n as int) =~= rest.0);
    }
    NakamotoSimulateResult {
        block_height,
        block_hash,
        index_block_hash,
        error: None,
        receipts,
        tenure_initial_costs,
        tenure_extend,
    }
}

} // verus!
