//! Data types shared by the registry, the planner and the scheduler.

use vstd::prelude::*;

verus! {

/// Identifier of an account on the ledger.
pub type AccountId = u64;

/// Identifier of a fungible asset kind.
pub type AssetId = u32;

/// An amount of the native currency or of an asset.
pub type Balance = u128;

/// A block number.
pub type BlockNumber = u64;

/// Longest title of a proposal, in bytes.
pub const MAX_TITLE_LEN: usize = 32;

/// Longest description of a proposal, in bytes.
pub const MAX_DESCRIPTION_LEN: usize = 500;

/// Number of blocks by which a payout is deferred after a failed transfer.
pub const RETRY_DELAY: BlockNumber = 10;

/// The most proposals that one proposer can make: a sequence index has sixteen bits.
pub const MAX_PROPOSALS: usize = 65_535;

/// The most blocks that a schedule can span: fifty periods of the longest length.
pub const MAX_SCHEDULE_SPAN: BlockNumber = 214_748_364_750;

/// Who invokes an operation.
#[derive(Clone, Copy, Debug, PartialEq, Eq, Structural)]
pub enum RawOrigin {
    /// The system itself.
    Root,
    /// An account that signed the call.
    Signed(AccountId),
    /// No one in particular.
    Unsigned,
}

/// Size class of a proposal, by the value it asks for.
#[derive(Clone, Copy, Debug, PartialEq, Eq, Structural)]
pub enum Origin {
    SmallSpender,
    MediumSpender,
    BigSpender,
}

/// The permitted numbers of installments. Each divides 100.
#[derive(Clone, Copy, Debug, PartialEq, Eq, Structural)]
pub enum NumOfPeriodicPayouts {
    Five,
    Ten,
    Twenty,
    Fifty,
}

impl NumOfPeriodicPayouts {
    /// The number of installments that the variant stands for.
    pub open spec fn count_spec(self) -> nat {
        match self {
            NumOfPeriodicPayouts::Five => 5,
            NumOfPeriodicPayouts::Ten => 10,
            NumOfPeriodicPayouts::Twenty => 20,
            NumOfPeriodicPayouts::Fifty => 50,
        }
    }

    /// The number of installments that the variant stands for. It divides 100, so
    /// that equal shares of `100 / count` per cent make up the whole.
    pub fn count(&self) -> (r: u8)
        ensures
            r == self.count_spec(),
            100int % (r as int) == 0,
            (100int / (r as int)) * r == 100,
    {
        match self {
            NumOfPeriodicPayouts::Five => 5,
            NumOfPeriodicPayouts::Ten => 10,
            NumOfPeriodicPayouts::Twenty => 20,
            NumOfPeriodicPayouts::Fifty => 50,
        }
    }
}

/// How a periodic payout splits the amount: full amount = upfront + periodic +
/// after_fully_complete, each in percent.
#[derive(Clone, Copy, Debug, PartialEq, Eq, Structural)]
pub struct PeriodicPayoutPercentage {
    pub upfront: u8,
    pub periodic: u8,
    pub after_fully_complete: u8,
    pub num_of_periodic_payouts: NumOfPeriodicPayouts,
    pub payment_each_n_blocks: u32,
}

/// The payout policy of a proposal.
#[derive(Clone, Copy, Debug, PartialEq, Eq, Structural)]
pub enum PayoutType {
    Periodic(PeriodicPayoutPercentage),
    Instant,
}

/// One scheduled payment obligation.
#[derive(Clone, Copy, Debug, PartialEq, Eq, Structural)]
pub struct PeriodicPayoutInstance {
    pub proposer: AccountId,
    pub beneficiary: AccountId,
    pub asset_id: AssetId,
    pub amount: Balance,
}

/// A payout instance together with the block at which it falls due.
#[derive(Clone, Copy, Debug, PartialEq, Eq, Structural)]
pub struct ScheduledPayout {
    pub block_number: BlockNumber,
    pub instance: PeriodicPayoutInstance,
}

/// Why funds are held on an account.
#[derive(Clone, Copy, Debug, PartialEq, Eq, Structural)]
pub enum HoldReason {
    /// Funds held as the stake of a spending proposal.
    SpendingProposal,
}

/// Whether a ledger operation may bring an account below its minimum.
#[derive(Clone, Copy, Debug, PartialEq, Eq, Structural)]
pub enum Preservation {
    Expendable,
    Protect,
    Preserve,
}

/// Whether a ledger operation must move the exact amount.
#[derive(Clone, Copy, Debug, PartialEq, Eq, Structural)]
pub enum Precision {
    Exact,
    BestEffort,
}

/// Whether a ledger operation may override locks on the funds.
#[derive(Clone, Copy, Debug, PartialEq, Eq, Structural)]
pub enum Fortitude {
    Polite,
    Force,
}

/// Why the ledger declined an operation.
#[derive(Clone, Copy, Debug, PartialEq, Eq, Structural)]
pub enum LedgerError {
    InsufficientBalance,
    HoldFailed,
    ReleaseFailed,
    TransferFailed,
}

/// A malformed payout policy.
#[derive(Clone, Copy, Debug, PartialEq, Eq, Structural)]
pub enum Error {
    PayoutPercentagesMustSumTo100,
    PaymentEachNBlocksMustBeGreaterThanZero,
}

/// An operation that does not fit the state of the proposal it names.
#[derive(Clone, Copy, Debug, PartialEq, Eq, Structural)]
pub enum StateError {
    ProposalNotFound,
    AlreadyApproved,
    NotApproved,
    AlreadyCompleted,
}

/// Why an operation failed. A failed operation leaves the pallet as it was.
#[derive(Clone, Copy, Debug, PartialEq, Eq, Structural)]
pub enum DispatchError {
    /// The caller lacks the privilege that the operation asks for.
    BadOrigin,
    /// The payout policy is malformed.
    Module(Error),
    /// The proposal is missing or in the wrong state.
    State(StateError),
    /// The ledger declined.
    Ledger(LedgerError),
    /// The proposer has used up every sequence index.
    TooManyProposals,
}

/// What every operation returns.
pub type DispatchResult = Result<(), DispatchError>;

/// One request to the ledger.
#[derive(Clone, Copy, Debug, PartialEq, Eq, Structural)]
pub enum LedgerCall {
    TransferNative { source: AccountId, dest: AccountId, amount: Balance, preservation: Preservation },
    TransferAsset {
        asset_id: AssetId,
        source: AccountId,
        dest: AccountId,
        amount: Balance,
        preservation: Preservation,
    },
    Hold { reason: HoldReason, who: AccountId, amount: Balance },
    Release { reason: HoldReason, who: AccountId, amount: Balance, precision: Precision },
    BurnNative {
        who: AccountId,
        amount: Balance,
        preservation: Preservation,
        precision: Precision,
        force: Fortitude,
    },
    BurnAsset {
        asset_id: AssetId,
        who: AccountId,
        amount: Balance,
        preservation: Preservation,
        precision: Precision,
        force: Fortitude,
    },
    MintNative { who: AccountId, amount: Balance },
    MintAsset { asset_id: AssetId, who: AccountId, amount: Balance },
}

impl LedgerCall {
    /// The request that releases, as far as it can, what this request holds; any other
    /// request stays as it is.
    pub open spec fn released(self) -> LedgerCall {
        match self {
            LedgerCall::Hold { reason, who, amount } => LedgerCall::Release {
                reason,
                who,
                amount,
                precision: Precision::BestEffort,
            },
            other => other,
        }
    }
}

/// One question that the pallet put to its runtime, with the answer it got.
pub enum Interaction {
    EnsureGovernance { origin: RawOrigin, authorized: bool },
    Ledger { call: LedgerCall, result: Result<(), LedgerError> },
    PriceLookup { asset_a: AssetId, amount_a: Balance, asset_b: AssetId, amount_b: Balance },
    UsdPrice { asset_id: AssetId, amount: Balance, price: Balance },
}

/// The fixed values that a runtime configures the pallet with.
#[derive(Clone, Copy, Debug, PartialEq, Eq, Structural)]
pub struct Params {
    /// The asset id that stands for the native currency.
    pub native_asset_id: AssetId,
    /// Largest value in USD of a small proposal.
    pub small_spender_threshold: Balance,
    /// Largest amount of a medium proposal.
    pub medium_spender_threshold: Balance,
    /// The deposit: held on the proposer when a proposal is made, released when it is
    /// approved.
    pub amount_held_on_proposal: Balance,
}

/// Genesis configuration: the pallet starts empty.
#[derive(Clone, Copy, Debug, PartialEq, Eq, Structural)]
pub struct GenesisConfig;

} // verus!
