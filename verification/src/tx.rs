//! Transactions as the replay core sees them: authentication data, the fee,
//! and the payload's recorded cost and outcome. The contract interpreter is
//! an outside collaborator; what it did to run the payload is an input
//! here, and settlement decides what of it takes effect.

use vstd::prelude::*;

use crate::cost::ExecutionCost;

verus! {

/// Protocol epochs, ordered. Only the relative order matters to settlement;
/// the fee-settlement ordering changes at [`EPOCH_2_1`].
pub const EPOCH_1_0: u32 = 1;

pub const EPOCH_2_0: u32 = 2;

pub const EPOCH_2_05: u32 = 3;

pub const EPOCH_2_1: u32 = 4;

pub const EPOCH_3_0: u32 = 5;

/// The contract-language versions a payload can ask for.
#[derive(Clone, Copy, PartialEq, Eq, Structural, Debug)]
pub enum ClarityVersion {
    Clarity1,
    Clarity2,
}

/// The language version a payload runs under when it asks for none.
pub open spec fn spec_default_clarity_version(epoch: u32) -> ClarityVersion {
    if epoch >= EPOCH_2_1 {
        ClarityVersion::Clarity2
    } else {
        ClarityVersion::Clarity1
    }
}

pub fn default_clarity_version(epoch: u32) -> (v: ClarityVersion)
    ensures
        v == spec_default_clarity_version(epoch),
{
    if epoch >= EPOCH_2_1 {
        ClarityVersion::Clarity2
    } else {
        ClarityVersion::Clarity1
    }
}

/// The network a session replays on, which prechecks hold transactions to.
#[derive(Clone, Copy, PartialEq, Eq, Structural, Debug)]
pub struct ChainConfig {
    pub mainnet: bool,
    pub chain_id: u32,
}

/// A metadata entry a payload writes for a contract.
pub struct MetadataWrite {
    pub contract: String,
    pub key: String,
    pub value: String,
}

/// What a successfully interpreted payload did: the state it wrote, the
/// balance movements it made, and what its receipt reports.
pub struct PayloadEffects {
    pub data_writes: Vec<(String, String)>,
    pub metadata_writes: Vec<MetadataWrite>,
    pub debits: Vec<(String, u128)>,
    pub credits: Vec<(String, u128)>,
    pub events: Vec<String>,
    pub return_value: String,
    pub stx_burned: u128,
    pub post_condition_aborted: bool,
    pub vm_error: Option<String>,
}

impl PayloadEffects {
    /// Whether the payload's state effects take hold: a post-condition
    /// abort or a captured interpreter error keeps the receipt but drops
    /// the writes and balance movements.
    pub open spec fn spec_effects_applied(self) -> bool {
        !self.post_condition_aborted && self.vm_error is None
    }
}

/// How interpreting the payload came out: a receipt-producing run (whose
/// effects may still be held back), or an interpreter-level failure.
pub enum PayloadOutcome {
    Success(PayloadEffects),
    Failure(String),
}

/// A transaction's payload: the cost its run consumes, the language
/// version it declares (contract deploys only), and its recorded outcome.
pub struct TransactionPayload {
    pub cost: ExecutionCost,
    pub declared_clarity_version: Option<ClarityVersion>,
    pub outcome: PayloadOutcome,
}

/// A sponsor paying the fee in the origin's stead.
pub struct SponsorAuth {
    pub principal: String,
    pub nonce: u64,
}

/// One transaction to settle.
pub struct Transaction {
    pub txid: u64,
    pub origin: String,
    pub origin_nonce: u64,
    pub sponsor: Option<SponsorAuth>,
    pub fee: u64,
    pub mainnet: bool,
    pub chain_id: u32,
    pub payload: TransactionPayload,
}

impl Transaction {
    /// The principal that pays the fee: the sponsor when there is one, the
    /// origin otherwise.
    pub open spec fn spec_payer(self) -> Seq<char> {
        match self.sponsor {
            Some(s) => s.principal@,
            None => self.origin@,
        }
    }

    /// The nonce the fee payer declares.
    pub open spec fn spec_payer_nonce(self) -> u64 {
        match self.sponsor {
            Some(s) => s.nonce,
            None => self.origin_nonce,
        }
    }

    pub open spec fn spec_sponsored(self) -> bool {
        self.sponsor is Some
    }

    /// The language version this transaction's payload runs under.
    pub open spec fn spec_clarity_version(self, epoch: u32) -> ClarityVersion {
        match self.payload.declared_clarity_version {
            Some(v) => v,
            None => spec_default_clarity_version(epoch),
        }
    }
}

/// Why a transaction is rejected before or during settlement without ever
/// taking effect.
#[derive(Clone, Copy, PartialEq, Eq, Structural, Debug)]
pub enum InvalidTransactionReason {
    WrongNetwork,
    WrongChainId,
    ClarityVersionTooNew,
    BadOriginNonce,
    BadSponsorNonce,
    NonceExhausted,
    InsufficientFee,
}

/// How applying a payload's recorded effects can fail inside settlement.
#[derive(Debug)]
pub enum ExecutionFailureKind {
    /// The interpreter itself failed; carries its error text.
    Interpreter(String),
    /// A recorded transfer would overdraw the paying account.
    TransferOverdraw,
    /// A recorded credit would overflow the receiving balance.
    BalanceOverflow,
}

/// A settlement failure, classified: the driver treats `CostOverflow`
/// specially, records `InvalidTransaction` and `ExecutionFailure` as
/// per-transaction rejections, and moves on.
#[derive(Debug)]
pub enum SettlementError {
    CostOverflow,
    InvalidTransaction(InvalidTransactionReason),
    ExecutionFailure(ExecutionFailureKind),
}

/// What settling one transaction reports back: the receipt the original
/// chain recorded for it.
pub struct StacksTransactionReceipt {
    pub events: Vec<String>,
    pub post_condition_aborted: bool,
    pub result: String,
    pub stx_burned: u128,
    pub execution_cost: ExecutionCost,
    pub vm_error: Option<String>,
}

} // verus!
