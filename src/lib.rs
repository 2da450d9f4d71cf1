//! A recurring-billing vault: prepaid balances per subscription, interval,
//! usage and one-off charges with replay protection, batch charging, and the
//! admin configuration around them.

pub mod lemmas;
pub mod model;
pub mod queries;
pub mod safe_math;
pub mod state_machine;
pub mod types;
pub mod vault;

pub use safe_math::{safe_add, safe_add_balance, safe_sub, safe_sub_balance, validate_non_negative};
pub use state_machine::{can_transition, get_allowed_transitions, validate_status_transition};
pub use types::{
    Address, AdminRotatedEvent, BatchChargeResult, Config, Error, Event, FundsDepositedEvent,
    IdempotencyKey, InitializedEvent, NextChargeInfo, OneOffChargedEvent, RecoveryEvent,
    RecoveryReason, ReplayState, Subscription, SubscriptionCancelledEvent, SubscriptionChargedEvent,
    SubscriptionCreatedEvent, SubscriptionPausedEvent, SubscriptionResumedEvent, SubscriptionStatus,
};
pub use vault::SubscriptionVault;
pub use queries::{compute_next_charge_info, SubscriptionsPage};
