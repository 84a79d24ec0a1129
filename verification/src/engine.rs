//! Transaction settlement: run exactly one transaction against the store,
//! the account table and the cost tracker, atomically.
//!
//! All checks run against scratch state; the table, the store and the
//! tracker only move when the whole transaction commits. In the newer
//! epochs the fee is settled before the payload, so the payload sees a
//! fee-adjusted payer; in the older epochs the payload comes first and the
//! fee is settled against the payer as the payload left it.

use vstd::prelude::*;

use crate::account::AccountTable;
use crate::cost::{cost_add, cost_exceeds, cost_fits, cost_saturating_add, LimitedCostTracker};
use crate::store::{batch_overrides, InMemoryOverlayClarityBackingStore};
use crate::tx::{
    default_clarity_version, ChainConfig, ClarityVersion, ExecutionFailureKind,
    InvalidTransactionReason, MetadataWrite, PayloadEffects, PayloadOutcome, SettlementError,
    StacksTransactionReceipt, Transaction, EPOCH_2_1,
};

verus! {

/// The account state map settlement works over.
pub type AccountState = Map<Seq<char>, (u64, u128)>;

/// Structural and network prechecks, applied before any state is read.
pub open spec fn spec_precheck(config: ChainConfig, epoch: u32, tx: Transaction) -> Option<
    InvalidTransactionReason,
> {
    if tx.mainnet != config.mainnet {
        Some(InvalidTransactionReason::WrongNetwork)
    } else if tx.chain_id != config.chain_id {
        Some(InvalidTransactionReason::WrongChainId)
    } else if epoch < EPOCH_2_1 && tx.spec_clarity_version(epoch) is Clarity2 {
        Some(InvalidTransactionReason::ClarityVersionTooNew)
    } else {
        None
    }
}

/// The declared nonces must exactly match the accounts' current nonces,
/// and an account whose counter cannot advance any further is rejected.
pub open spec fn spec_nonce_check(m: AccountState, tx: Transaction) -> Option<
    InvalidTransactionReason,
> {
    if m[tx.origin@].0 != tx.origin_nonce {
        Some(InvalidTransactionReason::BadOriginNonce)
    } else if tx.origin_nonce == u64::MAX {
        Some(InvalidTransactionReason::NonceExhausted)
    } else if tx.spec_sponsored() {
        if m[tx.spec_payer()].0 != tx.spec_payer_nonce() {
            Some(InvalidTransactionReason::BadSponsorNonce)
        } else if tx.spec_payer_nonce() == u64::MAX {
            Some(InvalidTransactionReason::NonceExhausted)
        } else {
            None
        }
    } else {
        None
    }
}

/// Take `amt` out of `p`'s balance; meaningful when the balance covers it.
pub open spec fn spec_debit(m: AccountState, p: Seq<char>, amt: u128) -> AccountState {
    m.insert(p, (m[p].0, (m[p].1 - amt) as u128))
}

/// Apply a payload's recorded debits in order; `None` when one of them
/// would overdraw its account.
pub open spec fn spec_apply_debits(m: AccountState, debits: Seq<(String, u128)>) -> Option<
    AccountState,
>
    decreases debits.len(),
{
    if debits.len() == 0 {
        Some(m)
    } else if m[debits.first().0@].1 < debits.first().1 {
        None
    } else {
        spec_apply_debits(spec_debit(m, debits.first().0@, debits.first().1), debits.drop_first())
    }
}

/// Apply a payload's recorded credits in order; `None` when one of them
/// would overflow the receiving balance.
pub open spec fn spec_apply_credits(m: AccountState, credits: Seq<(String, u128)>) -> Option<
    AccountState,
>
    decreases credits.len(),
{
    if credits.len() == 0 {
        Some(m)
    } else if m[credits.first().0@].1 + credits.first().1 > u128::MAX {
        None
    } else {
        spec_apply_credits(
            m.insert(
                credits.first().0@,
                (m[credits.first().0@].0, (m[credits.first().0@].1 + credits.first().1) as u128),
            ),
            credits.drop_first(),
        )
    }
}

/// What a successful payload run does to the accounts: its balance
/// movements when its effects take hold, nothing otherwise.
pub open spec fn spec_apply_outcome(m: AccountState, eff: PayloadEffects) -> Result<
    AccountState,
    SettlementError,
> {
    if eff.spec_effects_applied() {
        match spec_apply_debits(m, eff.debits@) {
            None => Err(
                SettlementError::ExecutionFailure(ExecutionFailureKind::TransferOverdraw),
            ),
            Some(m2) => match spec_apply_credits(m2, eff.credits@) {
                None => Err(
                    SettlementError::ExecutionFailure(ExecutionFailureKind::BalanceOverflow),
                ),
                Some(m3) => Ok(m3),
            },
        }
    } else {
        Ok(m)
    }
}

pub open spec fn spec_bump_nonce(m: AccountState, p: Seq<char>) -> AccountState {
    m.insert(p, ((m[p].0 + 1) as u64, m[p].1))
}

/// Advance the origin's nonce by exactly one, and the payer's too when the
/// payer is a different account.
pub open spec fn spec_bump_nonces(m: AccountState, tx: Transaction) -> AccountState {
    let m1 = spec_bump_nonce(m, tx.origin@);
    if tx.spec_payer() != tx.origin@ {
        spec_bump_nonce(m1, tx.spec_payer())
    } else {
        m1
    }
}

/// The metadata override map after a payload's metadata writes, in order.
pub open spec fn spec_apply_meta(
    m: Map<(Seq<char>, Seq<char>), Seq<char>>,
    writes: Seq<MetadataWrite>,
) -> Map<(Seq<char>, Seq<char>), Seq<char>>
    decreases writes.len(),
{
    if writes.len() == 0 {
        m
    } else {
        spec_apply_meta(m, writes.drop_last()).insert(
            (writes.last().contract@, writes.last().key@),
            writes.last().value@,
        )
    }
}

/// The whole settlement decision and its effect on the accounts, as one
/// function of the inputs: either the final account state of a committed
/// transaction, or the classified failure of a rolled-back one.
pub open spec fn spec_settle(
    config: ChainConfig,
    epoch: u32,
    m0: AccountState,
    total0: crate::cost::ExecutionCost,
    limit: crate::cost::ExecutionCost,
    tx: Transaction,
) -> Result<AccountState, SettlementError> {
    match spec_precheck(config, epoch, tx) {
        Some(reason) => Err(SettlementError::InvalidTransaction(reason)),
        None => match spec_nonce_check(m0, tx) {
            Some(reason) => Err(SettlementError::InvalidTransaction(reason)),
            None => {
                let cost_ok = cost_fits(total0, tx.payload.cost) && !cost_exceeds(
                    cost_add(total0, tx.payload.cost),
                    limit,
                );
                if epoch >= EPOCH_2_1 {
                    if m0[tx.spec_payer()].1 < tx.fee as u128 {
                        Err(
                            SettlementError::InvalidTransaction(
                                InvalidTransactionReason::InsufficientFee,
                            ),
                        )
                    } else {
                        let m1 = spec_debit(m0, tx.spec_payer(), tx.fee as u128);
                        if !cost_ok {
                            Err(SettlementError::CostOverflow)
                        } else {
                            match tx.payload.outcome {
                                PayloadOutcome::Failure(msg) => Err(
                                    SettlementError::ExecutionFailure(
                                        ExecutionFailureKind::Interpreter(msg),
                                    ),
                                ),
                                PayloadOutcome::Success(eff) => match spec_apply_outcome(m1, eff) {
                                    Err(e) => Err(e),
                                    Ok(m3) => Ok(spec_bump_nonces(m3, tx)),
                                },
                            }
                        }
                    }
                } else {
                    if !cost_ok {
                        Err(SettlementError::CostOverflow)
                    } else {
                        match tx.payload.outcome {
                            PayloadOutcome::Failure(msg) => Err(
                                SettlementError::ExecutionFailure(
                                    ExecutionFailureKind::Interpreter(msg),
                                ),
                            ),
                            PayloadOutcome::Success(eff) => match spec_apply_outcome(m0, eff) {
                                Err(e) => Err(e),
                                Ok(m2) => {
                                    if m2[tx.spec_payer()].1 < tx.fee as u128 {
                                        Err(
                                            SettlementError::InvalidTransaction(
                                                InvalidTransactionReason::InsufficientFee,
                                            ),
                                        )
                                    } else {
                                        Ok(
                                            spec_bump_nonces(
                                                spec_debit(m2, tx.spec_payer(), tx.fee as u128),
                                                tx,
                                            ),
                                        )
                                    }
                                },
                            },
                        }
                    }
                }
            },
        },
    }
}

/// A transaction whose declared origin nonce does not equal the account's
/// current nonce is never settled: it comes out rejected as invalid, for
/// any epoch, budget and payload. Together with the engine's contract that
/// every rejection leaves the accounts, the store and (cost overflows
/// aside) the tracker untouched, no state moves for such a transaction.
pub proof fn lemma_bad_nonce_rejected(
    config: ChainConfig,
    epoch: u32,
    m0: AccountState,
    total0: crate::cost::ExecutionCost,
    limit: crate::cost::ExecutionCost,
    tx: Transaction,
)
    requires
        m0[tx.origin@].0 != tx.origin_nonce,
    ensures
        spec_settle(config, epoch, m0, total0, limit, tx) matches Err(e) && e is
            InvalidTransaction,
        spec_precheck(config, epoch, tx) is None ==> spec_settle(
            config,
            epoch,
            m0,
            total0,
            limit,
            tx,
        ) == Err::<AccountState, SettlementError>(
            SettlementError::InvalidTransaction(InvalidTransactionReason::BadOriginNonce),
        ),
{
}

/// Applying debits moves balances only: every account keeps its nonce.
proof fn lemma_apply_debits_nonce(m: AccountState, debits: Seq<(String, u128)>, q: Seq<char>)
    requires
        spec_apply_debits(m, debits) is Some,
    ensures
        spec_apply_debits(m, debits)->Some_0[q].0 == m[q].0,
    decreases debits.len(),
{
    if debits.len() > 0 {
        lemma_apply_debits_nonce(
            spec_debit(m, debits.first().0@, debits.first().1),
            debits.drop_first(),
            q,
        );
    }
}

/// Applying credits moves balances only: every account keeps its nonce.
proof fn lemma_apply_credits_nonce(m: AccountState, credits: Seq<(String, u128)>, q: Seq<char>)
    requires
        spec_apply_credits(m, credits) is Some,
    ensures
        spec_apply_credits(m, credits)->Some_0[q].0 == m[q].0,
    decreases credits.len(),
{
    if credits.len() > 0 {
        lemma_apply_credits_nonce(
            m.insert(
                credits.first().0@,
                (m[credits.first().0@].0, (m[credits.first().0@].1 + credits.first().1) as u128),
            ),
            credits.drop_first(),
            q,
        );
    }
}

/// Successful settlement advances the origin's nonce by exactly one, the
/// payer's by exactly one more when the payer is a distinct account, and no
/// other account's nonce at all: balances move, counters only tick for the
/// parties to the transaction.
pub proof fn lemma_settle_advances_nonces(
    config: ChainConfig,
    epoch: u32,
    m0: AccountState,
    total0: crate::cost::ExecutionCost,
    limit: crate::cost::ExecutionCost,
    tx: Transaction,
    q: Seq<char>,
)
    requires
        spec_settle(config, epoch, m0, total0, limit, tx) is Ok,
    ensures
        ({
            let m = spec_settle(config, epoch, m0, total0, limit, tx)->Ok_0;
            &&& m[tx.origin@].0 == m0[tx.origin@].0 + 1
            &&& tx.spec_payer() != tx.origin@ ==> m[tx.spec_payer()].0 == m0[tx.spec_payer()].0
                + 1
            &&& (q != tx.origin@ && q != tx.spec_payer()) ==> m[q].0 == m0[q].0
        }),
{
    let payer = tx.spec_payer();
    if epoch >= EPOCH_2_1 {
        let m1 = spec_debit(m0, payer, tx.fee as u128);
        match tx.payload.outcome {
            PayloadOutcome::Success(eff) => {
                if eff.spec_effects_applied() {
                    let m2 = spec_apply_debits(m1, eff.debits@)->Some_0;
                    lemma_apply_debits_nonce(m1, eff.debits@, tx.origin@);
                    lemma_apply_debits_nonce(m1, eff.debits@, payer);
                    lemma_apply_debits_nonce(m1, eff.debits@, q);
                    lemma_apply_credits_nonce(m2, eff.credits@, tx.origin@);
                    lemma_apply_credits_nonce(m2, eff.credits@, payer);
                    lemma_apply_credits_nonce(m2, eff.credits@, q);
                }
            },
            PayloadOutcome::Failure(_) => {},
        }
    } else {
        match tx.payload.outcome {
            PayloadOutcome::Success(eff) => {
                if eff.spec_effects_applied() {
                    let m2 = spec_apply_debits(m0, eff.debits@)->Some_0;
                    lemma_apply_debits_nonce(m0, eff.debits@, tx.origin@);
                    lemma_apply_debits_nonce(m0, eff.debits@, payer);
                    lemma_apply_debits_nonce(m0, eff.debits@, q);
                    lemma_apply_credits_nonce(m2, eff.credits@, tx.origin@);
                    lemma_apply_credits_nonce(m2, eff.credits@, payer);
                    lemma_apply_credits_nonce(m2, eff.credits@, q);
                }
            },
            PayloadOutcome::Failure(_) => {},
        }
    }
}

fn clone_entries(v: &Vec<(String, String)>) -> (r: Vec<(String, String)>)
    ensures
        r@ == v@,
{
    let n = v.len();
    let mut out: Vec<(String, String)> = Vec::new();
    let mut i: usize = 0;
    while i < n
        invariant
            n == v@.len(),
            0 <= i <= n,
            out@.len() == i,
            forall|j: int| 0 <= j < i ==> out@[j] == v@[j],
        decreases n - i,
    {
        out.push((v[i].0.clone(), v[i].1.clone()));
        i += 1;
    }
    proof {
        assert(out@ =~= v@);
    }
    out
}

fn clone_strings(v: &Vec<String>) -> (r: Vec<String>)
    ensures
        r@ == v@,
{
    let n = v.len();
    let mut out: Vec<String> = Vec::new();
    let mut i: usize = 0;
    while i < n
        invariant
            n == v@.len(),
            0 <= i <= n,
            out@.len() == i,
            forall|j: int| 0 <= j < i ==> out@[j] == v@[j],
        decreases n - i,
    {
        out.push(v[i].clone());
        i += 1;
    }
    proof {
        assert(out@ =~= v@);
    }
    out
}

fn clone_opt_string(o: &Option<String>) -> (r: Option<String>)
    ensures
        r == *o,
{
    match o {
        Some(s) => Some(s.clone()),
        None => None,
    }
}

/// Apply recorded debits to the scratch table, stopping at the first one
/// the paying balance cannot cover.
fn apply_debits(t: &mut AccountTable, debits: &Vec<(String, u128)>) -> (ok: bool)
    ensures
        ok <==> spec_apply_debits(old(t).state_of(), debits@) is Some,
        ok ==> final(t).state_of() == spec_apply_debits(old(t).state_of(), debits@)->Some_0,
{
    let n = debits.len();
    let mut i: usize = 0;
    proof {
        assert(debits@.skip(0) =~= debits@);
    }
    while i < n
        invariant
            n == debits@.len(),
            0 <= i <= n,
            spec_apply_debits(old(t).state_of(), debits@) == spec_apply_debits(
                t.state_of(),
                debits@.skip(i as int),
            ),
        decreases n - i,
    {
        proof {
            assert(debits@.skip(i as int).first() == debits@[i as int]);
            assert(debits@.skip(i as int).drop_first() =~= debits@.skip(i as int + 1));
        }
        let (nonce, balance) = t.get_account(debits[i].0.as_str());
        if balance < debits[i].1 {
            return false;
        }
        t.set_account(debits[i].0.as_str(), nonce, balance - debits[i].1);
        i += 1;
    }
    proof {
        assert(debits@.skip(n as int) =~= Seq::<(String, u128)>::empty());
    }
    true
}

/// Apply recorded credits to the scratch table, stopping at the first one
/// that would overflow the receiving balance.
fn apply_credits(t: &mut AccountTable, credits: &Vec<(String, u128)>) -> (ok: bool)
    ensures
        ok <==> spec_apply_credits(old(t).state_of(), credits@) is Some,
        ok ==> final(t).state_of() == spec_apply_credits(old(t).state_of(), credits@)->Some_0,
{
    let n = credits.len();
    let mut i: usize = 0;
    proof {
        assert(credits@.skip(0) =~= credits@);
    }
    while i < n
        invariant
            n == credits@.len(),
            0 <= i <= n,
            spec_apply_credits(old(t).state_of(), credits@) == spec_apply_credits(
                t.state_of(),
                credits@.skip(i as int),
            ),
        decreases n - i,
    {
        proof {
            assert(credits@.skip(i as int).first() == credits@[i as int]);
            assert(credits@.skip(i as int).drop_first() =~= credits@.skip(i as int + 1));
        }
        let (nonce, balance) = t.get_account(credits[i].0.as_str());
        match balance.checked_add(credits[i].1) {
            Some(sum) => {
                t.set_account(credits[i].0.as_str(), nonce, sum);
            },
            None => {
                return false;
            },
        }
        i += 1;
    }
    proof {
        assert(credits@.skip(n as int) =~= Seq::<(String, u128)>::empty());
    }
    true
}

/// Advance the nonces the committed transaction consumed.
fn bump_nonces(t: &mut AccountTable, tx: &Transaction)
    requires
        old(t).state_of()[tx.origin@].0 < u64::MAX,
        old(t).state_of()[tx.spec_payer()].0 < u64::MAX,
    ensures
        final(t).state_of() == spec_bump_nonces(old(t).state_of(), *tx),
{
    let (nonce, balance) = t.get_account(tx.origin.as_str());
    t.set_account(tx.origin.as_str(), nonce + 1, balance);
    match &tx.sponsor {
        Some(s) => {
            if !(s.principal == tx.origin) {
                let (nonce2, balance2) = t.get_account(s.principal.as_str());
                t.set_account(s.principal.as_str(), nonce2 + 1, balance2);
            }
        },
        None => {},
    }
}

/// Record a payload's metadata writes in the store's metadata overrides.
fn apply_metadata_writes(
    store: &mut InMemoryOverlayClarityBackingStore,
    writes: &Vec<MetadataWrite>,
)
    ensures
        final(store).meta_overrides() == spec_apply_meta(old(store).meta_overrides(), writes@),
        final(store).overrides() == old(store).overrides(),
        final(store).chain == old(store).chain,
        final(store).parent_block == old(store).parent_block,
        final(store).tip_block == old(store).tip_block,
        final(store).current_block == old(store).current_block,
{
    let n = writes.len();
    let mut i: usize = 0;
    proof {
        assert(writes@.take(0) =~= Seq::<MetadataWrite>::empty());
    }
    while i < n
        invariant
            n == writes@.len(),
            0 <= i <= n,
            store.meta_overrides() == spec_apply_meta(
                old(store).meta_overrides(),
                writes@.take(i as int),
            ),
            store.overrides() == old(store).overrides(),
            store.chain == old(store).chain,
            store.parent_block == old(store).parent_block,
            store.tip_block == old(store).tip_block,
            store.current_block == old(store).current_block,
        decreases n - i,
    {
        let w = &writes[i];
        store.insert_metadata(w.contract.as_str(), w.key.as_str(), w.value.as_str());
        proof {
            assert(writes@.take(i + 1).drop_last() =~= writes@.take(i as int));
            assert(writes@.take(i + 1).last() == writes@[i as int]);
        }
        i += 1;
    }
    proof {
        assert(writes@.take(n as int) =~= writes@);
    }
}

/// Build the receipt a committed payload run reports.
fn build_receipt(eff: &PayloadEffects, cost: crate::cost::ExecutionCost) -> (r:
    StacksTransactionReceipt)
    ensures
        r.events@ == eff.events@,
        r.post_condition_aborted == eff.post_condition_aborted,
        r.result == eff.return_value,
        r.stx_burned == eff.stx_burned,
        r.execution_cost == cost,
        r.vm_error == eff.vm_error,
{
    StacksTransactionReceipt {
        events: clone_strings(&eff.events),
        post_condition_aborted: eff.post_condition_aborted,
        result: eff.return_value.clone(),
        stx_burned: eff.stx_burned,
        execution_cost: cost,
        vm_error: clone_opt_string(&eff.vm_error),
    }
}

/// Settle exactly one transaction.
///
/// On success the accounts move to exactly the state [`spec_settle`] gives,
/// the payload's writes land in the store's overrides (when its effects
/// take hold), and the tracker advances by the payload's cost. On any
/// failure the accounts and the store are left untouched; the tracker is
/// only disturbed by a cost overflow, which leaves it at the clamped
/// over-ceiling sum for the driver to resolve.
pub fn process_transaction(
    store: &mut InMemoryOverlayClarityBackingStore,
    accounts: &mut AccountTable,
    cost_track: &mut LimitedCostTracker,
    config: &ChainConfig,
    epoch: u32,
    tx: &Transaction,
) -> (r: Result<StacksTransactionReceipt, SettlementError>)
    ensures
        ({
            let res = spec_settle(
                *config,
                epoch,
                old(accounts).state_of(),
                old(cost_track).total,
                old(cost_track).limit,
                *tx,
            );
            &&& (r is Ok <==> res is Ok)
            &&& (r is Ok ==> final(accounts).state_of() == res->Ok_0)
            &&& (r matches Err(e) ==> res == Err::<AccountState, SettlementError>(e))
        }),
        r is Err ==> *final(accounts) == *old(accounts),
        r matches Ok(rec) ==> (tx.payload.outcome matches PayloadOutcome::Success(eff) && {
            &&& rec.events@ == eff.events@
            &&& rec.post_condition_aborted == eff.post_condition_aborted
            &&& rec.result == eff.return_value
            &&& rec.stx_burned == eff.stx_burned
            &&& rec.execution_cost == tx.payload.cost
            &&& rec.vm_error == eff.vm_error
        }),
        final(cost_track).limit == old(cost_track).limit,
        r is Ok ==> final(cost_track).total == cost_add(old(cost_track).total, tx.payload.cost),
        r matches Err(e) ==> (e is CostOverflow ==> final(cost_track).total
            == cost_saturating_add(old(cost_track).total, tx.payload.cost)),
        r matches Err(e) ==> (!(e is CostOverflow) ==> final(cost_track).total
            == old(cost_track).total),
        final(store).chain == old(store).chain,
        final(store).parent_block == old(store).parent_block,
        final(store).tip_block == old(store).tip_block,
        final(store).current_block == old(store).current_block,
        r is Err ==> final(store).overrides() == old(store).overrides()
            && final(store).meta_overrides() == old(store).meta_overrides(),
        r is Ok ==> (tx.payload.outcome matches PayloadOutcome::Success(eff) && (
        if eff.spec_effects_applied() {
            final(store).overrides() == batch_overrides(old(store).overrides(), eff.data_writes@)
                && final(store).meta_overrides() == spec_apply_meta(
                old(store).meta_overrides(),
                eff.metadata_writes@,
            )
        } else {
            final(store).overrides() == old(store).overrides() && final(store).meta_overrides()
                == old(store).meta_overrides()
        })),
{
    // Precheck: network, chain id, and the language-version/epoch rule.
    if tx.mainnet != config.mainnet {
        return Err(SettlementError::InvalidTransaction(InvalidTransactionReason::WrongNetwork));
    }
    if tx.chain_id != config.chain_id {
        return Err(SettlementError::InvalidTransaction(InvalidTransactionReason::WrongChainId));
    }
    if epoch < EPOCH_2_1 {
        let v = match &tx.payload.declared_clarity_version {
            Some(v) => *v,
            None => default_clarity_version(epoch),
        };
        if v == ClarityVersion::Clarity2 {
            return Err(
                SettlementError::InvalidTransaction(
                    InvalidTransactionReason::ClarityVersionTooNew,
                ),
            );
        }
    }
    // Nonce resolution for the origin and the fee payer.
    let (origin_nonce_cur, _origin_balance) = accounts.get_account(tx.origin.as_str());
    if origin_nonce_cur != tx.origin_nonce {
        return Err(SettlementError::InvalidTransaction(InvalidTransactionReason::BadOriginNonce));
    }
    if origin_nonce_cur == u64::MAX {
        return Err(SettlementError::InvalidTransaction(InvalidTransactionReason::NonceExhausted));
    }
    match &tx.sponsor {
        Some(s) => {
            let (sponsor_nonce_cur, _sponsor_balance) = accounts.get_account(s.principal.as_str());
            if sponsor_nonce_cur != s.nonce {
                return Err(
                    SettlementError::InvalidTransaction(InvalidTransactionReason::BadSponsorNonce),
                );
            }
            if sponsor_nonce_cur == u64::MAX {
                return Err(
                    SettlementError::InvalidTransaction(InvalidTransactionReason::NonceExhausted),
                );
            }
        },
        None => {},
    }
    let payer: &String = match &tx.sponsor {
        Some(s) => &s.principal,
        None => &tx.origin,
    };
    proof {
        assert(payer@ == tx.spec_payer());
    }
    let cost_before = cost_track.get_total();
    let mut scratch = accounts.clone_table();
    if epoch >= EPOCH_2_1 {
        // Newer epochs: settle the fee first, then run the payload against
        // the fee-adjusted accounts.
        let (payer_nonce, payer_balance) = scratch.get_account(payer.as_str());
        if payer_balance < tx.fee as u128 {
            return Err(
                SettlementError::InvalidTransaction(InvalidTransactionReason::InsufficientFee),
            );
        }
        scratch.set_account(payer.as_str(), payer_nonce, payer_balance - tx.fee as u128);
        proof {
            assert(scratch.state_of() =~= spec_debit(
                old(accounts).state_of(),
                tx.spec_payer(),
                tx.fee as u128,
            ));
        }
        if !cost_track.charge(&tx.payload.cost) {
            return Err(SettlementError::CostOverflow);
        }
        match &tx.payload.outcome {
            PayloadOutcome::Failure(msg) => {
                cost_track.set_total(cost_before);
                Err(
                    SettlementError::ExecutionFailure(
                        ExecutionFailureKind::Interpreter(msg.clone()),
                    ),
                )
            },
            PayloadOutcome::Success(eff) => {
                let applied = !eff.post_condition_aborted && eff.vm_error.is_none();
                if applied {
                    if !apply_debits(&mut scratch, &eff.debits) {
                        cost_track.set_total(cost_before);
                        return Err(
                            SettlementError::ExecutionFailure(
                                ExecutionFailureKind::TransferOverdraw,
                            ),
                        );
                    }
                    if !apply_credits(&mut scratch, &eff.credits) {
                        cost_track.set_total(cost_before);
                        return Err(
                            SettlementError::ExecutionFailure(
                                ExecutionFailureKind::BalanceOverflow,
                            ),
                        );
                    }
                }
                proof {
                    if applied {
                        lemma_apply_debits_nonce(
                            spec_debit(old(accounts).state_of(), tx.spec_payer(), tx.fee as u128),
                            eff.debits@,
                            tx.origin@,
                        );
                        lemma_apply_debits_nonce(
                            spec_debit(old(accounts).state_of(), tx.spec_payer(), tx.fee as u128),
                            eff.debits@,
                            tx.spec_payer(),
                        );
                        lemma_apply_credits_nonce(
                            spec_apply_debits(
                                spec_debit(
                                    old(accounts).state_of(),
                                    tx.spec_payer(),
                                    tx.fee as u128,
                                ),
                                eff.debits@,
                            )->Some_0,
                            eff.credits@,
                            tx.origin@,
                        );
                        lemma_apply_credits_nonce(
                            spec_apply_debits(
                                spec_debit(
                                    old(accounts).state_of(),
                                    tx.spec_payer(),
                                    tx.fee as u128,
                                ),
                                eff.debits@,
                            )->Some_0,
                            eff.credits@,
                            tx.spec_payer(),
                        );
                    }
                }
                bump_nonces(&mut scratch, tx);
                if applied {
                    store.put_all_data(clone_entries(&eff.data_writes));
                    apply_metadata_writes(store, &eff.metadata_writes);
                }
                let receipt = build_receipt(eff, tx.payload.cost);
                *accounts = scratch;
                Ok(receipt)
            },
        }
    } else {
        // Older epochs: run the payload first, then settle the fee against
        // the payer as the payload left it.
        if !cost_track.charge(&tx.payload.cost) {
            return Err(SettlementError::CostOverflow);
        }
        match &tx.payload.outcome {
            PayloadOutcome::Failure(msg) => {
                cost_track.set_total(cost_before);
                Err(
                    SettlementError::ExecutionFailure(
                        ExecutionFailureKind::Interpreter(msg.clone()),
                    ),
                )
            },
            PayloadOutcome::Success(eff) => {
                let applied = !eff.post_condition_aborted && eff.vm_error.is_none();
                if applied {
                    if !apply_debits(&mut scratch, &eff.debits) {
                        cost_track.set_total(cost_before);
                        return Err(
                            SettlementError::ExecutionFailure(
                                ExecutionFailureKind::TransferOverdraw,
                            ),
                        );
                    }
                    if !apply_credits(&mut scratch, &eff.credits) {
                        cost_track.set_total(cost_before);
                        return Err(
                            SettlementError::ExecutionFailure(
                                ExecutionFailureKind::BalanceOverflow,
                            ),
                        );
                    }
                }
                proof {
                    if applied {
                        lemma_apply_debits_nonce(
                            old(accounts).state_of(),
                            eff.debits@,
                            tx.origin@,
                        );
                        lemma_apply_debits_nonce(
                            old(accounts).state_of(),
                            eff.debits@,
                            tx.spec_payer(),
                        );
                        lemma_apply_credits_nonce(
                            spec_apply_debits(old(accounts).state_of(), eff.debits@)->Some_0,
                            eff.credits@,
                            tx.origin@,
                        );
                        lemma_apply_credits_nonce(
                            spec_apply_debits(old(accounts).state_of(), eff.debits@)->Some_0,
                            eff.credits@,
                            tx.spec_payer(),
                        );
                    }
                }
                let (payer_nonce, payer_balance) = scratch.get_account(payer.as_str());
                if payer_balance < tx.fee as u128 {
                    cost_track.set_total(cost_before);
                    return Err(
                        SettlementError::InvalidTransaction(
                            InvalidTransactionReason::InsufficientFee,
                        ),
                    );
                }
                scratch.set_account(payer.as_str(), payer_nonce, payer_balance - tx.fee as u128);
                bump_nonces(&mut scratch, tx);
                if applied {
                    store.put_all_data(clone_entries(&eff.data_writes));
                    apply_metadata_writes(store, &eff.metadata_writes);
                }
                let receipt = build_receipt(eff, tx.payload.cost);
                *accounts = scratch;
                Ok(receipt)
            },
        }
    }
}

} // verus!
