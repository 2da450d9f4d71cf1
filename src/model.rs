//! The vault as a mathematical state, and what each operation does to it.
//!
//! Subscriptions are numbered from 0 in order of creation, so a subscription's id
//! is its position in `subs`; `replay` holds the replay protection of each id.

use vstd::prelude::*;

use crate::safe_math::add_balance_spec;
use crate::state_machine::transition_allowed;
use crate::types::{
    Address, AdminRotatedEvent, Config, Error, Event, FundsDepositedEvent, IdempotencyKey,
    InitializedEvent, OneOffChargedEvent, RecoveryEvent, RecoveryReason, ReplayState,
    Subscription, SubscriptionCancelledEvent, SubscriptionChargedEvent, SubscriptionCreatedEvent,
    SubscriptionPausedEvent, SubscriptionResumedEvent, SubscriptionStatus,
};

verus! {

/// The whole state of a vault.
pub struct VaultState {
    pub config: Option<Config>,
    pub subs: Seq<Subscription>,
    pub replay: Seq<ReplayState>,
    pub events: Seq<Event>,
}

/// Whether a supplied idempotency token equals the stored one.
pub open spec fn token_replayed(key: Option<IdempotencyKey>, stored: Option<IdempotencyKey>) -> bool {
    match (key, stored) {
        (Some(k), Some(t)) => k@ == t@,
        _ => false,
    }
}

/// The ids, below `n`, of the subscriptions of `merchant`, in order of creation.
pub open spec fn merchant_ids(subs: Seq<Subscription>, merchant: Address, n: nat) -> Seq<u32>
    decreases n,
{
    if n == 0 {
        Seq::empty()
    } else {
        let prev = merchant_ids(subs, merchant, (n - 1) as nat);
        if subs[n - 1].merchant == merchant {
            prev.push((n - 1) as u32)
        } else {
            prev
        }
    }
}

/// The ids in `[start, n)` of the subscriptions of `subscriber`, in ascending order.
pub open spec fn subscriber_ids(subs: Seq<Subscription>, subscriber: Address, start: nat, n: nat) -> Seq<u32>
    decreases n,
{
    if n <= start {
        Seq::empty()
    } else {
        let prev = subscriber_ids(subs, subscriber, start, (n - 1) as nat);
        if subs[n - 1].subscriber == subscriber {
            prev.push((n - 1) as u32)
        } else {
            prev
        }
    }
}

impl VaultState {
    /// What holds of every vault between operations.
    pub open spec fn wf(self) -> bool {
        &&& self.subs.len() == self.replay.len()
        &&& self.subs.len() <= u32::MAX
        &&& forall|i: int| 0 <= i < self.subs.len() ==> self.subs[i].prepaid_balance >= 0
    }

    pub open spec fn has(self, id: u32) -> bool {
        (id as int) < self.subs.len()
    }

    pub open spec fn sub(self, id: u32) -> Subscription {
        self.subs[id as int]
    }

    pub open spec fn with_sub(self, id: u32, sub: Subscription) -> VaultState {
        VaultState {
            config: self.config,
            subs: self.subs.update(id as int, sub),
            replay: self.replay,
            events: self.events,
        }
    }

    pub open spec fn with_config(self, config: Config) -> VaultState {
        VaultState { config: Some(config), subs: self.subs, replay: self.replay, events: self.events }
    }

    pub open spec fn with_event(self, e: Event) -> VaultState {
        VaultState {
            config: self.config,
            subs: self.subs,
            replay: self.replay,
            events: self.events.push(e),
        }
    }

    /// The merchant index: ids of `merchant`'s subscriptions in insertion order.
    pub open spec fn merchant_index(self, merchant: Address) -> Seq<u32> {
        merchant_ids(self.subs, merchant, self.subs.len())
    }
}

/// Sets (or resets) the configuration.
pub open spec fn init_spec(s: VaultState, token: Address, admin: Address, min_topup: i128) -> VaultState {
    s.with_config(Config { token, admin, min_topup }).with_event(
        Event::Initialized(InitializedEvent { token, admin, min_topup }),
    )
}

/// Changes the minimum deposit; only the stored admin may.
pub open spec fn set_min_topup_spec(s: VaultState, admin: Address, min_topup: i128) -> (VaultState, Result<(), Error>) {
    match s.config {
        None => (s, Err(Error::NotFound)),
        Some(c) => if c.admin != admin {
            (s, Err(Error::Unauthorized))
        } else {
            (
                s.with_config(Config { token: c.token, admin: c.admin, min_topup }).with_event(
                    Event::MinTopupUpdated(min_topup),
                ),
                Ok(()),
            )
        },
    }
}

/// Hands admin authority from `current` to `new_admin`.
pub open spec fn rotate_admin_spec(s: VaultState, current: Address, new_admin: Address, now: u64) -> (VaultState, Result<(), Error>) {
    match s.config {
        None => (s, Err(Error::NotFound)),
        Some(c) => if c.admin != current {
            (s, Err(Error::Unauthorized))
        } else {
            (
                s.with_config(Config { token: c.token, admin: new_admin, min_topup: c.min_topup }).with_event(
                    Event::AdminRotated(
                        AdminRotatedEvent { old_admin: current, new_admin, timestamp: now },
                    ),
                ),
                Ok(()),
            )
        },
    }
}

/// Records a recovery of stranded funds; no subscription is read or changed.
pub open spec fn recover_spec(
    s: VaultState,
    admin: Address,
    recipient: Address,
    amount: i128,
    reason: RecoveryReason,
    now: u64,
) -> (VaultState, Result<(), Error>) {
    match s.config {
        None => (s, Err(Error::NotFound)),
        Some(c) => if c.admin != admin {
            (s, Err(Error::Unauthorized))
        } else if amount <= 0 {
            (s, Err(Error::InvalidRecoveryAmount))
        } else {
            (
                s.with_event(
                    Event::Recovered(RecoveryEvent { admin, recipient, amount, reason, timestamp: now }),
                ),
                Ok(()),
            )
        },
    }
}

/// Creates an `Active` subscription with an empty balance under the next id.
pub open spec fn create_spec(
    s: VaultState,
    subscriber: Address,
    merchant: Address,
    amount: i128,
    interval_seconds: u64,
    usage_enabled: bool,
    now: u64,
) -> (VaultState, Result<u32, Error>) {
    if s.subs.len() >= u32::MAX {
        (s, Err(Error::Overflow))
    } else {
        let sub = Subscription {
            subscriber,
            merchant,
            amount,
            interval_seconds,
            last_payment_timestamp: now,
            status: SubscriptionStatus::Active,
            prepaid_balance: 0,
            usage_enabled,
        };
        (
            VaultState {
                config: s.config,
                subs: s.subs.push(sub),
                replay: s.replay.push(ReplayState { charged_period: None, idempotency_key: None }),
                events: s.events.push(
                    Event::Created(
                        SubscriptionCreatedEvent {
                            subscription_id: s.subs.len() as u32,
                            subscriber,
                            merchant,
                            amount,
                            interval_seconds,
                        },
                    ),
                ),
            },
            Ok(s.subs.len() as u32),
        )
    }
}

/// Adds `amount` to the prepaid balance of `id`; a cancelled subscription is not
/// changed any more (`NotActive`).
pub open spec fn deposit_spec(s: VaultState, id: u32, subscriber: Address, amount: i128) -> (VaultState, Result<(), Error>) {
    match s.config {
        None => (s, Err(Error::NotFound)),
        Some(c) => if amount < c.min_topup {
            (s, Err(Error::BelowMinimumTopup))
        } else if !s.has(id) {
            (s, Err(Error::NotFound))
        } else if s.sub(id).status == SubscriptionStatus::Cancelled {
            (s, Err(Error::NotActive))
        } else {
            let sub = s.sub(id);
            match add_balance_spec(sub.prepaid_balance as int, amount as int) {
                Err(e) => (s, Err(e)),
                Ok(b) => (
                    s.with_sub(id, Subscription { prepaid_balance: b, ..sub }).with_event(
                        Event::Deposited(
                            FundsDepositedEvent { subscription_id: id, subscriber, amount, new_balance: b },
                        ),
                    ),
                    Ok(()),
                ),
            }
        },
    }
}

/// Moves `id` to status `to` through the state machine.
pub open spec fn set_status_spec(s: VaultState, id: u32, to: SubscriptionStatus) -> (VaultState, Result<(), Error>) {
    if !s.has(id) {
        (s, Err(Error::NotFound))
    } else if !transition_allowed(s.sub(id).status, to) {
        (s, Err(Error::InvalidStatusTransition))
    } else {
        (s.with_sub(id, Subscription { status: to, ..s.sub(id) }), Ok(()))
    }
}

/// Pauses `id` on behalf of `authorizer`.
pub open spec fn pause_spec(s: VaultState, id: u32, authorizer: Address) -> (VaultState, Result<(), Error>) {
    let (post, r) = set_status_spec(s, id, SubscriptionStatus::Paused);
    if r is Ok {
        (post.with_event(Event::Paused(SubscriptionPausedEvent { subscription_id: id, authorizer })), r)
    } else {
        (post, r)
    }
}

/// Resumes `id` on behalf of `authorizer`.
pub open spec fn resume_spec(s: VaultState, id: u32, authorizer: Address) -> (VaultState, Result<(), Error>) {
    let (post, r) = set_status_spec(s, id, SubscriptionStatus::Active);
    if r is Ok {
        (post.with_event(Event::Resumed(SubscriptionResumedEvent { subscription_id: id, authorizer })), r)
    } else {
        (post, r)
    }
}

/// Cancels `id`; the authorizer must be its subscriber or its merchant.
pub open spec fn cancel_spec(s: VaultState, id: u32, authorizer: Address) -> (VaultState, Result<(), Error>) {
    if !s.has(id) {
        (s, Err(Error::NotFound))
    } else if authorizer != s.sub(id).subscriber && authorizer != s.sub(id).merchant {
        (s, Err(Error::Unauthorized))
    } else {
        let (post, r) = set_status_spec(s, id, SubscriptionStatus::Cancelled);
        if r is Ok {
            (
                post.with_event(
                    Event::Cancelled(
                        SubscriptionCancelledEvent {
                            subscription_id: id,
                            authorizer,
                            refund_amount: s.sub(id).prepaid_balance,
                        },
                    ),
                ),
                r,
            )
        } else {
            (post, r)
        }
    }
}

/// Empties the balance of a cancelled subscription; the result is the refund.
pub open spec fn withdraw_subscriber_spec(s: VaultState, id: u32, subscriber: Address) -> (VaultState, Result<i128, Error>) {
    if !s.has(id) {
        (s, Err(Error::NotFound))
    } else if subscriber != s.sub(id).subscriber {
        (s, Err(Error::Unauthorized))
    } else if s.sub(id).status != SubscriptionStatus::Cancelled {
        (s, Err(Error::InvalidStatusTransition))
    } else if s.sub(id).prepaid_balance <= 0 {
        (s, Ok(0))
    } else if s.config is None {
        (s, Err(Error::NotFound))
    } else {
        (s.with_sub(id, Subscription { prepaid_balance: 0, ..s.sub(id) }), Ok(s.sub(id).prepaid_balance))
    }
}

/// The billing period of `now` for an interval.
pub open spec fn period_of(now: u64, interval_seconds: u64) -> int {
    now as int / interval_seconds as int
}

/// Charges one interval of `id` at time `now`.
///
/// In order: unknown id, not `Active`, a zero interval (`InvalidAmount`: no
/// billing period exists), a replayed idempotency token (success, no
/// change), a period already charged, an interval not yet elapsed, and a balance
/// below the amount (status becomes `InsufficientBalance`). Otherwise the amount is
/// debited, the payment time and period recorded, and the token kept.
pub open spec fn charge_spec(s: VaultState, id: u32, now: u64, key: Option<IdempotencyKey>) -> (VaultState, Result<(), Error>) {
    if !s.has(id) {
        (s, Err(Error::NotFound))
    } else {
        let sub = s.sub(id);
        let rp = s.replay[id as int];
        let period = period_of(now, sub.interval_seconds);
        if sub.status != SubscriptionStatus::Active {
            (s, Err(Error::NotActive))
        } else if sub.interval_seconds == 0 {
            (s, Err(Error::InvalidAmount))
        } else if token_replayed(key, rp.idempotency_key) {
            (s, Ok(()))
        } else if rp.charged_period matches Some(p) && period <= p {
            (s, Err(Error::Replay))
        } else if (now as int) < sub.last_payment_timestamp + sub.interval_seconds {
            (s, Err(Error::IntervalNotElapsed))
        } else if sub.prepaid_balance < sub.amount {
            (
                s.with_sub(id, Subscription { status: SubscriptionStatus::InsufficientBalance, ..sub }),
                Err(Error::InsufficientBalance),
            )
        } else if sub.prepaid_balance - sub.amount > i128::MAX {
            (s, Err(Error::Overflow))
        } else {
            let charged = Subscription {
                prepaid_balance: (sub.prepaid_balance - sub.amount) as i128,
                last_payment_timestamp: now,
                ..sub
            };
            let new_key = match key {
                Some(k) => Some(k),
                None => rp.idempotency_key,
            };
            (
                VaultState {
                    config: s.config,
                    subs: s.subs.update(id as int, charged),
                    replay: s.replay.update(
                        id as int,
                        ReplayState { charged_period: Some(period as u64), idempotency_key: new_key },
                    ),
                    events: s.events.push(
                        Event::Charged(
                            SubscriptionChargedEvent { subscription_id: id, merchant: sub.merchant, amount: sub.amount },
                        ),
                    ),
                },
                Ok(()),
            )
        }
    }
}

/// Debits a metered `usage_amount` from `id`; an emptied balance moves the
/// subscription to `InsufficientBalance`.
pub open spec fn usage_spec(s: VaultState, id: u32, usage_amount: i128) -> (VaultState, Result<(), Error>) {
    if !s.has(id) {
        (s, Err(Error::NotFound))
    } else {
        let sub = s.sub(id);
        if sub.status != SubscriptionStatus::Active {
            (s, Err(Error::NotActive))
        } else if !sub.usage_enabled {
            (s, Err(Error::UsageNotEnabled))
        } else if usage_amount <= 0 {
            (s, Err(Error::InvalidAmount))
        } else if sub.prepaid_balance < usage_amount {
            (s, Err(Error::InsufficientPrepaidBalance))
        } else {
            let b = (sub.prepaid_balance - usage_amount) as i128;
            let status = if b == 0 {
                SubscriptionStatus::InsufficientBalance
            } else {
                sub.status
            };
            (s.with_sub(id, Subscription { prepaid_balance: b, status, ..sub }), Ok(()))
        }
    }
}

/// Debits a merchant-initiated one-off `amount` from `id`; the status is kept.
pub open spec fn one_off_spec(s: VaultState, id: u32, merchant: Address, amount: i128) -> (VaultState, Result<(), Error>) {
    if !s.has(id) {
        (s, Err(Error::NotFound))
    } else {
        let sub = s.sub(id);
        if merchant != sub.merchant {
            (s, Err(Error::Unauthorized))
        } else if sub.status != SubscriptionStatus::Active && sub.status != SubscriptionStatus::Paused {
            (s, Err(Error::NotActive))
        } else if amount <= 0 {
            (s, Err(Error::InvalidAmount))
        } else if sub.prepaid_balance < amount {
            (s, Err(Error::InsufficientBalance))
        } else {
            let b = (sub.prepaid_balance - amount) as i128;
            (
                s.with_sub(id, Subscription { prepaid_balance: b, ..sub }).with_event(
                    Event::OneOffCharged(OneOffChargedEvent { subscription_id: id, merchant, amount }),
                ),
                Ok(()),
            )
        }
    }
}

/// Charges each id in turn, without a token, each against the state the previous
/// one left; the results in input order.
pub open spec fn batch_spec(s: VaultState, ids: Seq<u32>, now: u64) -> (VaultState, Seq<Result<(), Error>>)
    decreases ids.len(),
{
    if ids.len() == 0 {
        (s, Seq::empty())
    } else {
        let prev = batch_spec(s, ids.drop_last(), now);
        let step = charge_spec(prev.0, ids.last(), now, None);
        (step.0, prev.1.push(step.1))
    }
}

/// The estimated top-up for `n` intervals: `max(amount * n - balance, 0)`, or
/// `Overflow` when `amount * n` is not an `i128`.
pub open spec fn estimate_topup_spec(sub: Subscription, n: u32) -> Result<i128, Error> {
    if n == 0 {
        Ok(0)
    } else if sub.amount * n > i128::MAX || sub.amount * n < i128::MIN {
        Err(Error::Overflow)
    } else if sub.amount * n - sub.prepaid_balance <= 0 {
        Ok(0)
    } else {
        Ok((sub.amount * n - sub.prepaid_balance) as i128)
    }
}


/// Whether `caller` is the configured admin.
pub open spec fn is_admin(s: VaultState, caller: Address) -> bool {
    s.config matches Some(c) && c.admin == caller
}

/// An interval charge touches the record and replay state of its own id only, and
/// keeps every subscription's terms and the configuration.
pub proof fn lemma_charge_frame(s: VaultState, id: u32, now: u64, key: Option<IdempotencyKey>)
    requires
        s.wf(),
    ensures
        ({
            let post = charge_spec(s, id, now, key).0;
            &&& post.wf()
            &&& post.config == s.config
            &&& post.subs.len() == s.subs.len()
            &&& forall|j: int|
                0 <= j < s.subs.len() ==> {
                    &&& #[trigger] post.subs[j].interval_seconds == s.subs[j].interval_seconds
                    &&& post.subs[j].amount == s.subs[j].amount
                    &&& post.subs[j].subscriber == s.subs[j].subscriber
                    &&& post.subs[j].merchant == s.subs[j].merchant
                    &&& post.subs[j].usage_enabled == s.subs[j].usage_enabled
                }
            &&& forall|j: int|
                0 <= j < s.subs.len() && j != id ==> #[trigger] post.subs[j] == s.subs[j]
                    && post.replay[j] == s.replay[j]
        }),
{
}


/// Every id in a merchant's index is a subscription of that merchant, below `n`,
/// and the index is no longer than `n`.
pub proof fn lemma_merchant_ids_bounded(subs: Seq<Subscription>, merchant: Address, n: nat)
    requires
        n <= subs.len(),
        n <= u32::MAX + 1,
    ensures
        merchant_ids(subs, merchant, n).len() <= n,
        forall|k: int|
            0 <= k < merchant_ids(subs, merchant, n).len() ==> {
                &&& (#[trigger] merchant_ids(subs, merchant, n)[k] as int) < n
                &&& subs[merchant_ids(subs, merchant, n)[k] as int].merchant == merchant
            },
    decreases n,
{
    if n > 0 {
        lemma_merchant_ids_bounded(subs, merchant, (n - 1) as nat);
    }
}

/// Every id in `subscriber_ids` is below `n`, and there are at most `n` of them.
pub proof fn lemma_subscriber_ids_bounded(subs: Seq<Subscription>, subscriber: Address, start: nat, n: nat)
    requires
        n <= subs.len(),
        n <= u32::MAX + 1,
    ensures
        subscriber_ids(subs, subscriber, start, n).len() <= n,
        forall|k: int|
            0 <= k < subscriber_ids(subs, subscriber, start, n).len() ==> {
                &&& start <= (#[trigger] subscriber_ids(subs, subscriber, start, n)[k] as int) < n
                &&& subs[subscriber_ids(subs, subscriber, start, n)[k] as int].subscriber == subscriber
            },
    decreases n,
{
    if n > start {
        lemma_subscriber_ids_bounded(subs, subscriber, start, (n - 1) as nat);
    }
}

} // verus!
