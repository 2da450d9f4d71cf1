//! Errors, statuses, records and notifications of the vault.

use vstd::prelude::*;

verus! {

/// An opaque principal (subscriber, merchant, admin or asset), compared by equality only.
#[derive(Clone, Copy, Debug, PartialEq, Eq, Structural)]
pub struct Address(pub u64);

/// A caller-supplied idempotency token for interval charges.
pub type IdempotencyKey = [u8; 32];

/// Every way an operation of the vault can fail.
#[derive(Clone, Copy, Debug, PartialEq, Eq, Structural)]
pub enum Error {
    NotFound,
    Unauthorized,
    /// Charge attempted before `last_payment_timestamp + interval_seconds`.
    IntervalNotElapsed,
    /// The subscription is not in a status that allows the operation.
    NotActive,
    InvalidStatusTransition,
    BelowMinimumTopup,
    /// Arithmetic overflow in a computation.
    Overflow,
    /// Arithmetic underflow (a negative amount, or a balance that would go negative).
    Underflow,
    /// Interval or one-off charge exceeds the prepaid balance.
    InsufficientBalance,
    /// Usage-based charge attempted on a subscription with `usage_enabled = false`.
    UsageNotEnabled,
    /// Usage-based charge exceeds the prepaid balance.
    InsufficientPrepaidBalance,
    /// The amount is zero or negative where a positive one is required.
    InvalidAmount,
    /// The billing period was already charged.
    Replay,
    /// Recovery amount is zero or negative.
    InvalidRecoveryAmount,
}

/// The numeric code of each error, as reported by batch charging.
pub open spec fn error_code(e: Error) -> u32 {
    match e {
        Error::NotFound => 404,
        Error::Unauthorized => 401,
        Error::IntervalNotElapsed => 1001,
        Error::NotActive => 1002,
        Error::InvalidStatusTransition => 400,
        Error::BelowMinimumTopup => 402,
        Error::Overflow => 403,
        Error::Underflow => 1004,
        Error::InsufficientBalance => 1003,
        Error::UsageNotEnabled => 1009,
        Error::InsufficientPrepaidBalance => 1010,
        Error::InvalidAmount => 1006,
        Error::Replay => 1007,
        Error::InvalidRecoveryAmount => 1008,
    }
}

impl Error {
    /// Returns the numeric code of this error (for batch result reporting).
    pub fn to_code(self) -> (r: u32)
        ensures
            r == error_code(self),
            r != 0,
    {
        match self {
            Error::NotFound => 404,
            Error::Unauthorized => 401,
            Error::IntervalNotElapsed => 1001,
            Error::NotActive => 1002,
            Error::InvalidStatusTransition => 400,
            Error::BelowMinimumTopup => 402,
            Error::Overflow => 403,
            Error::Underflow => 1004,
            Error::InsufficientBalance => 1003,
            Error::UsageNotEnabled => 1009,
            Error::InsufficientPrepaidBalance => 1010,
            Error::InvalidAmount => 1006,
            Error::Replay => 1007,
            Error::InvalidRecoveryAmount => 1008,
        }
    }
}

/// Outcome of charging one subscription in a batch.
#[derive(Clone, Copy, Debug, PartialEq, Eq, Structural)]
pub struct BatchChargeResult {
    /// True if the charge succeeded.
    pub success: bool,
    /// The error code of the failure (see [`Error::to_code`]); 0 on success.
    pub error_code: u32,
}

/// The batch record of a charge outcome.
pub open spec fn batch_result_of(r: Result<(), Error>) -> BatchChargeResult {
    match r {
        Ok(()) => BatchChargeResult { success: true, error_code: 0 },
        Err(e) => BatchChargeResult { success: false, error_code: error_code(e) },
    }
}

/// Lifecycle state of a subscription.
///
/// - `Active` may move to `Paused`, `Cancelled` or `InsufficientBalance`;
/// - `Paused` may move to `Active` or `Cancelled`;
/// - `InsufficientBalance` may move to `Active` or `Cancelled`;
/// - `Cancelled` is terminal.
///
/// Staying in the same status is always allowed.
#[derive(Clone, Copy, Debug, PartialEq, Eq, Structural)]
pub enum SubscriptionStatus {
    /// Active and ready for charging.
    Active,
    /// Temporarily paused, no charges processed.
    Paused,
    /// Permanently cancelled (terminal state).
    Cancelled,
    /// A charge failed for want of prepaid balance.
    InsufficientBalance,
}

/// A subscription agreement and its current state.
///
/// `status` is changed only through validated transitions.
#[derive(Clone, Copy, Debug, PartialEq, Eq, Structural)]
pub struct Subscription {
    pub subscriber: Address,
    pub merchant: Address,
    pub amount: i128,
    pub interval_seconds: u64,
    pub last_payment_timestamp: u64,
    /// Current lifecycle state.
    pub status: SubscriptionStatus,
    pub prepaid_balance: i128,
    pub usage_enabled: bool,
}

/// Why the admin recovers stranded funds.
#[derive(Clone, Copy, Debug, PartialEq, Eq, Structural)]
pub enum RecoveryReason {
    /// Funds sent to the vault by mistake (no associated subscription).
    AccidentalTransfer,
    /// Funds left behind by deprecated flows or logic errors.
    DeprecatedFlow,
    /// Funds of cancelled subscriptions whose subscriber cannot be reached.
    UnreachableSubscriber,
}

/// Audit record of a recovery of stranded funds.
#[derive(Clone, Copy, Debug, PartialEq, Eq, Structural)]
pub struct RecoveryEvent {
    /// The admin who authorized the recovery.
    pub admin: Address,
    /// The destination of the recovered funds.
    pub recipient: Address,
    /// The amount recovered.
    pub amount: i128,
    /// The documented reason for the recovery.
    pub reason: RecoveryReason,
    /// When the recovery was executed.
    pub timestamp: u64,
}

/// Notification of a successful interval charge.
#[derive(Clone, Copy, Debug, PartialEq, Eq, Structural)]
pub struct SubscriptionChargedEvent {
    pub subscription_id: u32,
    pub merchant: Address,
    pub amount: i128,
}

/// Notification of a deposit into a subscription's prepaid balance.
#[derive(Clone, Copy, Debug, PartialEq, Eq, Structural)]
pub struct FundsDepositedEvent {
    pub subscription_id: u32,
    pub subscriber: Address,
    pub amount: i128,
    /// The prepaid balance after the deposit.
    pub new_balance: i128,
}

/// Notification of a new subscription.
#[derive(Clone, Copy, Debug, PartialEq, Eq, Structural)]
pub struct SubscriptionCreatedEvent {
    pub subscription_id: u32,
    pub subscriber: Address,
    pub merchant: Address,
    pub amount: i128,
    pub interval_seconds: u64,
}

/// Notification of a cancellation; `refund_amount` is the balance left to withdraw.
#[derive(Clone, Copy, Debug, PartialEq, Eq, Structural)]
pub struct SubscriptionCancelledEvent {
    pub subscription_id: u32,
    pub authorizer: Address,
    pub refund_amount: i128,
}

/// Notification of a pause.
#[derive(Clone, Copy, Debug, PartialEq, Eq, Structural)]
pub struct SubscriptionPausedEvent {
    pub subscription_id: u32,
    pub authorizer: Address,
}

/// Notification of a resumption.
#[derive(Clone, Copy, Debug, PartialEq, Eq, Structural)]
pub struct SubscriptionResumedEvent {
    pub subscription_id: u32,
    pub authorizer: Address,
}

/// Notification of a merchant-initiated one-off charge.
#[derive(Clone, Copy, Debug, PartialEq, Eq, Structural)]
pub struct OneOffChargedEvent {
    pub subscription_id: u32,
    pub merchant: Address,
    pub amount: i128,
}

/// Notification of an admin rotation.
#[derive(Clone, Copy, Debug, PartialEq, Eq, Structural)]
pub struct AdminRotatedEvent {
    pub old_admin: Address,
    pub new_admin: Address,
    pub timestamp: u64,
}

/// Notification of the vault's configuration being set.
#[derive(Clone, Copy, Debug, PartialEq, Eq, Structural)]
pub struct InitializedEvent {
    pub token: Address,
    pub admin: Address,
    pub min_topup: i128,
}

/// Everything the vault publishes, in the order it happened.
#[derive(Clone, Copy, Debug, PartialEq, Eq, Structural)]
pub enum Event {
    Initialized(InitializedEvent),
    MinTopupUpdated(i128),
    Created(SubscriptionCreatedEvent),
    Paused(SubscriptionPausedEvent),
    Resumed(SubscriptionResumedEvent),
    Cancelled(SubscriptionCancelledEvent),
    Deposited(FundsDepositedEvent),
    Charged(SubscriptionChargedEvent),
    OneOffCharged(OneOffChargedEvent),
    AdminRotated(AdminRotatedEvent),
    Recovered(RecoveryEvent),
}

/// Estimated next charge of a subscription.
#[derive(Clone, Copy, Debug, PartialEq, Eq, Structural)]
pub struct NextChargeInfo {
    /// `last_payment_timestamp + interval_seconds`, saturating at `u64::MAX`.
    pub next_charge_timestamp: u64,
    /// True for `Active` and `InsufficientBalance`, false for `Paused` and `Cancelled`.
    pub is_charge_expected: bool,
}

/// The vault's configuration: funding asset, admin principal and minimum deposit.
#[derive(Clone, Copy, Debug, PartialEq, Eq, Structural)]
pub struct Config {
    pub token: Address,
    pub admin: Address,
    pub min_topup: i128,
}

/// Replay protection of one subscription: the last charged billing period and the
/// last accepted idempotency token.
#[derive(Clone, Copy, Debug)]
pub struct ReplayState {
    pub charged_period: Option<u64>,
    pub idempotency_key: Option<IdempotencyKey>,
}

} // verus!
