//! The vault: configuration, subscriptions and replay state, and every operation
//! on them. Each operation is specified by the matching function of `model`.

use vstd::prelude::*;

use crate::model::{
    batch_spec, cancel_spec, charge_spec, create_spec, deposit_spec, estimate_topup_spec,
    init_spec, is_admin, lemma_charge_frame, lemma_merchant_ids_bounded,
    lemma_subscriber_ids_bounded, merchant_ids, one_off_spec, pause_spec, recover_spec,
    resume_spec, rotate_admin_spec, set_min_topup_spec, set_status_spec, subscriber_ids,
    usage_spec, withdraw_subscriber_spec, VaultState,
};
use crate::queries::{
    charge_expected, compute_next_charge_info, next_charge_time, page_of, SubscriptionsPage,
};
use crate::safe_math::{safe_add_balance, validate_non_negative, validate_non_negative_spec};
use crate::state_machine::validate_status_transition;
use crate::types::{
    batch_result_of, Address, AdminRotatedEvent, BatchChargeResult, Config, Error, Event,
    FundsDepositedEvent, IdempotencyKey, InitializedEvent, NextChargeInfo, OneOffChargedEvent,
    RecoveryEvent, RecoveryReason, ReplayState, Subscription, SubscriptionCancelledEvent,
    SubscriptionChargedEvent, SubscriptionCreatedEvent, SubscriptionPausedEvent,
    SubscriptionResumedEvent, SubscriptionStatus,
};

verus! {

/// The state that the hosting environment keeps for the vault.
pub struct SubscriptionVault {
    config: Option<Config>,
    /// Subscription `id` at position `id`.
    subscriptions: Vec<Subscription>,
    /// Replay protection of subscription `id` at position `id`.
    replay: Vec<ReplayState>,
    /// Notifications published so far.
    events: Vec<Event>,
}

impl View for SubscriptionVault {
    type V = VaultState;

    closed spec fn view(&self) -> VaultState {
        VaultState {
            config: self.config,
            subs: self.subscriptions@,
            replay: self.replay@,
            events: self.events@,
        }
    }
}

impl SubscriptionVault {
    /// What holds of the vault between operations (see `VaultState::wf`).
    pub open spec fn wf(&self) -> bool {
        self@.wf()
    }

    /// An empty, unconfigured vault.
    pub fn new() -> (r: Self)
        ensures
            r.wf(),
            r@.config is None,
            r@.subs.len() == 0,
            r@.events.len() == 0,
    {
        SubscriptionVault {
            config: None,
            subscriptions: Vec::new(),
            replay: Vec::new(),
            events: Vec::new(),
        }
    }

    /// Rebuilds a vault from the parts that `config`, `subscriptions` and
    /// `replay_states` hand out, with no notifications yet. `None` when the parts
    /// do not form a vault: lengths that differ, more than `u32::MAX`
    /// subscriptions, or a negative balance.
    pub fn restore(config: Option<Config>, subscriptions: Vec<Subscription>, replay: Vec<ReplayState>) -> (r: Option<Self>)
        ensures
            r is Some <==> ({
                &&& subscriptions@.len() == replay@.len()
                &&& subscriptions@.len() <= u32::MAX
                &&& forall|i: int| 0 <= i < subscriptions@.len() ==> subscriptions@[i].prepaid_balance >= 0
            }),
            r matches Some(v) ==> v.wf() && v@.config == config && v@.subs == subscriptions@
                && v@.replay == replay@ && v@.events.len() == 0,
    {
        if subscriptions.len() != replay.len() || subscriptions.len() > u32::MAX as usize {
            return None;
        }
        let mut i: usize = 0;
        while i < subscriptions.len()
            invariant
                0 <= i <= subscriptions@.len(),
                forall|j: int| 0 <= j < i ==> subscriptions@[j].prepaid_balance >= 0,
            decreases subscriptions@.len() - i,
        {
            if subscriptions[i].prepaid_balance < 0 {
                return None;
            }
            i = i + 1;
        }
        Some(SubscriptionVault { config, subscriptions, replay, events: Vec::new() })
    }

    /// The configuration, if the vault was initialized.
    pub fn config(&self) -> (r: Option<Config>)
        ensures
            r == self@.config,
    {
        self.config
    }

    /// All subscriptions, subscription `id` at position `id`.
    pub fn subscriptions(&self) -> (r: &Vec<Subscription>)
        ensures
            r@ == self@.subs,
    {
        &self.subscriptions
    }

    /// The replay protection of every subscription, by id.
    pub fn replay_states(&self) -> (r: &Vec<ReplayState>)
        ensures
            r@ == self@.replay,
    {
        &self.replay
    }

    /// The notifications published so far, oldest first.
    pub fn events(&self) -> (r: &Vec<Event>)
        ensures
            r@ == self@.events,
    {
        &self.events
    }

    /// Sets the funding asset, the admin and the minimum deposit.
    pub fn init(&mut self, token: Address, admin: Address, min_topup: i128)
        requires
            old(self).wf(),
        ensures
            final(self).wf(),
            final(self)@ == init_spec(old(self)@, token, admin, min_topup),
    {
        self.config = Some(Config { token, admin, min_topup });
        self.events.push(Event::Initialized(InitializedEvent { token, admin, min_topup }));
    }

    /// The admin, for operations that need one: `NotFound` when none is configured.
    fn require_admin(&self) -> (r: Result<Address, Error>)
        ensures
            match self@.config {
                None => r == Err::<Address, Error>(Error::NotFound),
                Some(c) => r == Ok::<Address, Error>(c.admin),
            },
    {
        match self.config {
            None => Err(Error::NotFound),
            Some(c) => Ok(c.admin),
        }
    }

    /// Changes the minimum deposit. Only the stored admin may.
    pub fn set_min_topup(&mut self, admin: Address, min_topup: i128) -> (r: Result<(), Error>)
        requires
            old(self).wf(),
        ensures
            final(self).wf(),
            (final(self)@, r) == set_min_topup_spec(old(self)@, admin, min_topup),
    {
        let stored = self.require_admin()?;
        if admin != stored {
            return Err(Error::Unauthorized);
        }
        let c = self.config.unwrap();
        self.config = Some(Config { token: c.token, admin: c.admin, min_topup });
        self.events.push(Event::MinTopupUpdated(min_topup));
        Ok(())
    }

    /// The minimum deposit; `NotFound` when the vault is not configured.
    pub fn get_min_topup(&self) -> (r: Result<i128, Error>)
        ensures
            match self@.config {
                None => r == Err::<i128, Error>(Error::NotFound),
                Some(c) => r == Ok::<i128, Error>(c.min_topup),
            },
    {
        match self.config {
            None => Err(Error::NotFound),
            Some(c) => Ok(c.min_topup),
        }
    }

    /// The current admin; `NotFound` when the vault is not configured.
    pub fn get_admin(&self) -> (r: Result<Address, Error>)
        ensures
            match self@.config {
                None => r == Err::<Address, Error>(Error::NotFound),
                Some(c) => r == Ok::<Address, Error>(c.admin),
            },
    {
        match self.config {
            None => Err(Error::NotFound),
            Some(c) => Ok(c.admin),
        }
    }

    /// The funding asset; `NotFound` when the vault is not configured.
    pub fn get_token(&self) -> (r: Result<Address, Error>)
        ensures
            match self@.config {
                None => r == Err::<Address, Error>(Error::NotFound),
                Some(c) => r == Ok::<Address, Error>(c.token),
            },
    {
        match self.config {
            None => Err(Error::NotFound),
            Some(c) => Ok(c.token),
        }
    }

    /// Hands admin authority to `new_admin`, effective at once. Only the current
    /// admin may.
    pub fn rotate_admin(&mut self, current_admin: Address, new_admin: Address, now: u64) -> (r: Result<(), Error>)
        requires
            old(self).wf(),
        ensures
            final(self).wf(),
            (final(self)@, r) == rotate_admin_spec(old(self)@, current_admin, new_admin, now),
    {
        let c = match self.config {
            None => return Err(Error::NotFound),
            Some(c) => c,
        };
        if current_admin != c.admin {
            return Err(Error::Unauthorized);
        }
        self.config = Some(Config { token: c.token, admin: new_admin, min_topup: c.min_topup });
        self.events.push(
            Event::AdminRotated(AdminRotatedEvent { old_admin: current_admin, new_admin, timestamp: now }),
        );
        Ok(())
    }

    /// Records the admin's recovery of `amount` stranded funds for `recipient`,
    /// with the reason. No subscription is read or changed.
    pub fn recover_stranded_funds(
        &mut self,
        admin: Address,
        recipient: Address,
        amount: i128,
        reason: RecoveryReason,
        now: u64,
    ) -> (r: Result<(), Error>)
        requires
            old(self).wf(),
        ensures
            final(self).wf(),
            (final(self)@, r) == recover_spec(old(self)@, admin, recipient, amount, reason, now),
    {
        let c = match self.config {
            None => return Err(Error::NotFound),
            Some(c) => c,
        };
        if admin != c.admin {
            return Err(Error::Unauthorized);
        }
        if amount <= 0 {
            return Err(Error::InvalidRecoveryAmount);
        }
        self.events.push(
            Event::Recovered(RecoveryEvent { admin, recipient, amount, reason, timestamp: now }),
        );
        Ok(())
    }

    /// Creates an `Active` subscription with an empty balance, paid at `now`, under
    /// the next sequential id, and lists it under its merchant.
    pub fn create_subscription(
        &mut self,
        subscriber: Address,
        merchant: Address,
        amount: i128,
        interval_seconds: u64,
        usage_enabled: bool,
        now: u64,
    ) -> (r: Result<u32, Error>)
        requires
            old(self).wf(),
        ensures
            final(self).wf(),
            (final(self)@, r) == create_spec(
                old(self)@,
                subscriber,
                merchant,
                amount,
                interval_seconds,
                usage_enabled,
                now,
            ),
    {
        if self.subscriptions.len() >= u32::MAX as usize {
            return Err(Error::Overflow);
        }
        let id = self.subscriptions.len() as u32;
        self.subscriptions.push(
            Subscription {
                subscriber,
                merchant,
                amount,
                interval_seconds,
                last_payment_timestamp: now,
                status: SubscriptionStatus::Active,
                prepaid_balance: 0,
                usage_enabled,
            },
        );
        self.replay.push(ReplayState { charged_period: None, idempotency_key: None });
        self.events.push(
            Event::Created(
                SubscriptionCreatedEvent { subscription_id: id, subscriber, merchant, amount, interval_seconds },
            ),
        );
        Ok(id)
    }

    /// The subscription `id`; `NotFound` when there is none.
    pub fn get_subscription(&self, subscription_id: u32) -> (r: Result<Subscription, Error>)
        ensures
            self@.has(subscription_id) ==> r == Ok::<Subscription, Error>(self@.sub(subscription_id)),
            !self@.has(subscription_id) ==> r == Err::<Subscription, Error>(Error::NotFound),
    {
        if (subscription_id as usize) < self.subscriptions.len() {
            Ok(self.subscriptions[subscription_id as usize])
        } else {
            Err(Error::NotFound)
        }
    }

    /// The number of subscriptions created so far, which is the next id.
    pub fn subscription_count(&self) -> (r: u32)
        requires
            self.wf(),
        ensures
            r == self@.subs.len(),
    {
        self.subscriptions.len() as u32
    }
    /// Adds `amount` to the prepaid balance of `subscription_id`.
    ///
    /// `NotFound` when the vault is not configured, `BelowMinimumTopup` under the
    /// minimum deposit, `NotFound` for an unknown id, `NotActive` for a cancelled
    /// subscription, and the checked addition's
    /// `Underflow` (negative amount) or `Overflow`.
    pub fn deposit_funds(&mut self, subscription_id: u32, subscriber: Address, amount: i128) -> (r: Result<(), Error>)
        requires
            old(self).wf(),
        ensures
            final(self).wf(),
            (final(self)@, r) == deposit_spec(old(self)@, subscription_id, subscriber, amount),
    {
        let min_topup = self.get_min_topup()?;
        if amount < min_topup {
            return Err(Error::BelowMinimumTopup);
        }
        let mut sub = self.get_subscription(subscription_id)?;
        if sub.status == SubscriptionStatus::Cancelled {
            return Err(Error::NotActive);
        }
        let b = safe_add_balance(sub.prepaid_balance, amount)?;
        sub.prepaid_balance = b;
        self.subscriptions.set(subscription_id as usize, sub);
        self.events.push(
            Event::Deposited(
                FundsDepositedEvent { subscription_id, subscriber, amount, new_balance: b },
            ),
        );
        Ok(())
    }

    /// Moves `subscription_id` to `to` after the state machine allows it.
    fn apply_transition(&mut self, subscription_id: u32, to: SubscriptionStatus) -> (r: Result<(), Error>)
        requires
            old(self).wf(),
        ensures
            final(self).wf(),
            (final(self)@, r) == set_status_spec(old(self)@, subscription_id, to),
    {
        let mut sub = self.get_subscription(subscription_id)?;
        validate_status_transition(&sub.status, &to)?;
        sub.status = to;
        self.subscriptions.set(subscription_id as usize, sub);
        Ok(())
    }

    /// Pauses `subscription_id`: allowed from `Active` (and `Paused`, as a no-op).
    pub fn pause_subscription(&mut self, subscription_id: u32, authorizer: Address) -> (r: Result<(), Error>)
        requires
            old(self).wf(),
        ensures
            final(self).wf(),
            (final(self)@, r) == pause_spec(old(self)@, subscription_id, authorizer),
    {
        self.apply_transition(subscription_id, SubscriptionStatus::Paused)?;
        self.events.push(
            Event::Paused(SubscriptionPausedEvent { subscription_id, authorizer }),
        );
        Ok(())
    }

    /// Resumes `subscription_id`: allowed from `Paused` and `InsufficientBalance`
    /// (and `Active`, as a no-op).
    pub fn resume_subscription(&mut self, subscription_id: u32, authorizer: Address) -> (r: Result<(), Error>)
        requires
            old(self).wf(),
        ensures
            final(self).wf(),
            (final(self)@, r) == resume_spec(old(self)@, subscription_id, authorizer),
    {
        self.apply_transition(subscription_id, SubscriptionStatus::Active)?;
        self.events.push(
            Event::Resumed(SubscriptionResumedEvent { subscription_id, authorizer }),
        );
        Ok(())
    }

    /// Cancels `subscription_id`, on behalf of its subscriber or its merchant.
    pub fn cancel_subscription(&mut self, subscription_id: u32, authorizer: Address) -> (r: Result<(), Error>)
        requires
            old(self).wf(),
        ensures
            final(self).wf(),
            (final(self)@, r) == cancel_spec(old(self)@, subscription_id, authorizer),
    {
        let sub = self.get_subscription(subscription_id)?;
        if authorizer != sub.subscriber && authorizer != sub.merchant {
            return Err(Error::Unauthorized);
        }
        self.apply_transition(subscription_id, SubscriptionStatus::Cancelled)?;
        self.events.push(
            Event::Cancelled(
                SubscriptionCancelledEvent {
                    subscription_id,
                    authorizer,
                    refund_amount: sub.prepaid_balance,
                },
            ),
        );
        Ok(())
    }

    /// Empties the balance of a cancelled subscription for its subscriber, and
    /// returns the amount to refund.
    pub fn withdraw_subscriber_funds(&mut self, subscription_id: u32, subscriber: Address) -> (r: Result<i128, Error>)
        requires
            old(self).wf(),
        ensures
            final(self).wf(),
            (final(self)@, r) == withdraw_subscriber_spec(old(self)@, subscription_id, subscriber),
    {
        let mut sub = self.get_subscription(subscription_id)?;
        if subscriber != sub.subscriber {
            return Err(Error::Unauthorized);
        }
        if sub.status != SubscriptionStatus::Cancelled {
            return Err(Error::InvalidStatusTransition);
        }
        let refund = sub.prepaid_balance;
        if refund <= 0 {
            return Ok(0);
        }
        if self.config.is_none() {
            return Err(Error::NotFound);
        }
        sub.prepaid_balance = 0;
        self.subscriptions.set(subscription_id as usize, sub);
        Ok(refund)
    }

    /// Debits a metered `usage_amount` from `subscription_id`. When the balance
    /// reaches zero the subscription moves to `InsufficientBalance`.
    pub fn charge_usage(&mut self, subscription_id: u32, usage_amount: i128) -> (r: Result<(), Error>)
        requires
            old(self).wf(),
        ensures
            final(self).wf(),
            (final(self)@, r) == usage_spec(old(self)@, subscription_id, usage_amount),
    {
        let mut sub = self.get_subscription(subscription_id)?;
        if sub.status != SubscriptionStatus::Active {
            return Err(Error::NotActive);
        }
        if !sub.usage_enabled {
            return Err(Error::UsageNotEnabled);
        }
        if usage_amount <= 0 {
            return Err(Error::InvalidAmount);
        }
        if sub.prepaid_balance < usage_amount {
            return Err(Error::InsufficientPrepaidBalance);
        }
        sub.prepaid_balance = sub.prepaid_balance - usage_amount;
        if sub.prepaid_balance == 0 {
            let ok = validate_status_transition(&sub.status, &SubscriptionStatus::InsufficientBalance);
            assert(ok is Ok);
            sub.status = SubscriptionStatus::InsufficientBalance;
        }
        self.subscriptions.set(subscription_id as usize, sub);
        Ok(())
    }

    /// Debits a one-off `amount` from `subscription_id` at its merchant's request.
    /// The subscription must be `Active` or `Paused`; its status is kept.
    pub fn charge_one_off(&mut self, subscription_id: u32, merchant: Address, amount: i128) -> (r: Result<(), Error>)
        requires
            old(self).wf(),
        ensures
            final(self).wf(),
            (final(self)@, r) == one_off_spec(old(self)@, subscription_id, merchant, amount),
    {
        let mut sub = self.get_subscription(subscription_id)?;
        if merchant != sub.merchant {
            return Err(Error::Unauthorized);
        }
        if sub.status != SubscriptionStatus::Active && sub.status != SubscriptionStatus::Paused {
            return Err(Error::NotActive);
        }
        if amount <= 0 {
            return Err(Error::InvalidAmount);
        }
        if sub.prepaid_balance < amount {
            return Err(Error::InsufficientBalance);
        }
        sub.prepaid_balance = sub.prepaid_balance - amount;
        self.subscriptions.set(subscription_id as usize, sub);
        self.events.push(
            Event::OneOffCharged(OneOffChargedEvent { subscription_id, merchant, amount }),
        );
        Ok(())
    }
    /// Charges one interval of `subscription_id` at time `now`, with an optional
    /// idempotency token.
    ///
    /// A zero interval has no billing period and fails with `InvalidAmount`. A
    /// token equal to the stored one makes the call a successful no-op. Otherwise
    /// the charge fails with `Replay` when the billing period `now / interval_seconds`
    /// was already charged, with `IntervalNotElapsed` before
    /// `last_payment_timestamp + interval_seconds`, and with `InsufficientBalance`
    /// (the status moving to `InsufficientBalance`) when the balance is below the
    /// amount. On success the amount is debited, `now` becomes the last payment,
    /// and the period and the token are recorded.
    pub fn charge_subscription(&mut self, subscription_id: u32, now: u64, idempotency_key: Option<IdempotencyKey>) -> (r: Result<(), Error>)
        requires
            old(self).wf(),
        ensures
            final(self).wf(),
            (final(self)@, r) == charge_spec(old(self)@, subscription_id, now, idempotency_key),
    {
        proof {
            lemma_charge_frame(self@, subscription_id, now, idempotency_key);
        }
        let mut sub = self.get_subscription(subscription_id)?;
        if sub.status != SubscriptionStatus::Active {
            return Err(Error::NotActive);
        }
        if sub.interval_seconds == 0 {
            return Err(Error::InvalidAmount);
        }
        let period = now / sub.interval_seconds;
        let rp = self.replay[subscription_id as usize];
        if let Some(k) = &idempotency_key {
            if let Some(stored) = &rp.idempotency_key {
                if same_key(k, stored) {
                    return Ok(());
                }
            }
        }
        if let Some(p) = rp.charged_period {
            if period <= p {
                return Err(Error::Replay);
            }
        }
        if sub.interval_seconds > now || sub.last_payment_timestamp > now - sub.interval_seconds {
            return Err(Error::IntervalNotElapsed);
        }
        if sub.prepaid_balance < sub.amount {
            let ok = validate_status_transition(&sub.status, &SubscriptionStatus::InsufficientBalance);
            assert(ok is Ok);
            sub.status = SubscriptionStatus::InsufficientBalance;
            self.subscriptions.set(subscription_id as usize, sub);
            return Err(Error::InsufficientBalance);
        }
        let balance = match sub.prepaid_balance.checked_sub(sub.amount) {
            None => return Err(Error::Overflow),
            Some(b) => b,
        };
        sub.prepaid_balance = balance;
        sub.last_payment_timestamp = now;
        self.subscriptions.set(subscription_id as usize, sub);
        let new_key = match idempotency_key {
            Some(k) => Some(k),
            None => rp.idempotency_key,
        };
        self.replay.set(
            subscription_id as usize,
            ReplayState { charged_period: Some(period), idempotency_key: new_key },
        );
        self.events.push(
            Event::Charged(
                SubscriptionChargedEvent { subscription_id, merchant: sub.merchant, amount: sub.amount },
            ),
        );
        Ok(())
    }

    /// Charges each id in turn, as the admin `caller`, with no idempotency token.
    ///
    /// Each charge commits on its own and sees what the earlier ones left; a
    /// failure is recorded as its error code and never stops the batch. The
    /// results have the length and order of the input. Nothing is charged when no
    /// admin is configured (`NotFound`) or `caller` is not the admin
    /// (`Unauthorized`).
    pub fn batch_charge(&mut self, caller: Address, subscription_ids: &Vec<u32>, now: u64) -> (r: Result<Vec<BatchChargeResult>, Error>)
        requires
            old(self).wf(),
        ensures
            final(self).wf(),
            old(self)@.config is None ==> r == Err::<Vec<BatchChargeResult>, Error>(Error::NotFound)
                && final(self)@ == old(self)@,
            old(self)@.config is Some && !is_admin(old(self)@, caller) ==> r == Err::<
                Vec<BatchChargeResult>,
                Error,
            >(Error::Unauthorized) && final(self)@ == old(self)@,
            is_admin(old(self)@, caller) ==> (r matches Ok(v) && v@ == batch_spec(old(self)@, subscription_ids@, now).1.map_values(
                |x: Result<(), Error>| batch_result_of(x),
            ) && final(self)@ == batch_spec(old(self)@, subscription_ids@, now).0),
    {
        let admin = self.require_admin()?;
        if caller != admin {
            return Err(Error::Unauthorized);
        }
        let ghost s0 = self@;
        let mut results: Vec<BatchChargeResult> = Vec::new();
        let mut i: usize = 0;
        while i < subscription_ids.len()
            invariant
                0 <= i <= subscription_ids@.len(),
                self.wf(),
                s0.wf(),
                self@ == batch_spec(s0, subscription_ids@.take(i as int), now).0,
                results@ == batch_spec(s0, subscription_ids@.take(i as int), now).1.map_values(
                    |x: Result<(), Error>| batch_result_of(x),
                ),
            decreases subscription_ids@.len() - i,
        {
            let id = subscription_ids[i];
            proof {
                lemma_charge_frame(self@, id, now, None);
            }
            let r = self.charge_subscription(id, now, None);
            let res = match r {
                Ok(()) => BatchChargeResult { success: true, error_code: 0 },
                Err(e) => BatchChargeResult { success: false, error_code: e.to_code() },
            };
            results.push(res);
            proof {
                assert(subscription_ids@.take(i + 1).drop_last() =~= subscription_ids@.take(i as int));
                assert(subscription_ids@.take(i + 1).last() == id);
                assert(results@ =~= batch_spec(s0, subscription_ids@.take(i + 1), now).1.map_values(
                    |x: Result<(), Error>| batch_result_of(x),
                ));
            }
            i = i + 1;
        }
        assert(subscription_ids@.take(subscription_ids@.len() as int) =~= subscription_ids@);
        Ok(results)
    }
    /// The estimated next charge of `subscription_id`; `NotFound` when there is none.
    pub fn get_next_charge_info(&self, subscription_id: u32) -> (r: Result<NextChargeInfo, Error>)
        ensures
            !self@.has(subscription_id) ==> r == Err::<NextChargeInfo, Error>(Error::NotFound),
            self@.has(subscription_id) ==> (r matches Ok(info) && info.next_charge_timestamp
                == next_charge_time(self@.sub(subscription_id)) && info.is_charge_expected
                == charge_expected(self@.sub(subscription_id).status)),
    {
        let sub = self.get_subscription(subscription_id)?;
        Ok(compute_next_charge_info(&sub))
    }

    /// How much must be deposited so that the balance covers `num_intervals`
    /// charges: `max(amount * num_intervals - prepaid_balance, 0)`, 0 for zero
    /// intervals, `Overflow` when the product is not an `i128`.
    pub fn estimate_topup_for_intervals(&self, subscription_id: u32, num_intervals: u32) -> (r: Result<i128, Error>)
        requires
            self.wf(),
        ensures
            !self@.has(subscription_id) ==> r == Err::<i128, Error>(Error::NotFound),
            self@.has(subscription_id) ==> r == estimate_topup_spec(self@.sub(subscription_id), num_intervals),
            r matches Ok(v) ==> v >= 0,
    {
        let sub = self.get_subscription(subscription_id)?;
        if num_intervals == 0 {
            return Ok(0);
        }
        let required = match sub.amount.checked_mul(num_intervals as i128) {
            None => return Err(Error::Overflow),
            Some(v) => v,
        };
        let topup = match required.checked_sub(sub.prepaid_balance) {
            None => 0,
            Some(d) => if d > 0 {
                d
            } else {
                0
            },
        };
        Ok(topup)
    }

    /// The merchant index: ids of `merchant`'s subscriptions in order of creation.
    fn merchant_subscription_ids(&self, merchant: Address) -> (r: Vec<u32>)
        requires
            self.wf(),
        ensures
            r@ == self@.merchant_index(merchant),
    {
        let mut ids: Vec<u32> = Vec::new();
        let mut j: usize = 0;
        while j < self.subscriptions.len()
            invariant
                self.wf(),
                0 <= j <= self@.subs.len(),
                ids@ == merchant_ids(self@.subs, merchant, j as nat),
            decreases self@.subs.len() - j,
        {
            if self.subscriptions[j].merchant == merchant {
                ids.push(j as u32);
            }
            j = j + 1;
        }
        ids
    }

    /// Up to `limit` subscriptions of `merchant`, from position `start` of its
    /// index, in order of creation; empty when `start` is past the end or `limit`
    /// is zero.
    pub fn get_subscriptions_by_merchant(&self, merchant: Address, start: u32, limit: u32) -> (r: Vec<Subscription>)
        requires
            self.wf(),
        ensures
            r@ == page_of(self@.merchant_index(merchant), start, limit).map_values(
                |id: u32| self@.subs[id as int],
            ),
    {
        let ids = self.merchant_subscription_ids(merchant);
        proof {
            lemma_merchant_ids_bounded(self@.subs, merchant, self@.subs.len());
        }
        let ghost page = page_of(ids@, start, limit);
        let mut result: Vec<Subscription> = Vec::new();
        let len = ids.len();
        if start as usize >= len || limit == 0 {
            assert(result@ =~= page.map_values(|id: u32| self@.subs[id as int]));
            return result;
        }
        let end: usize = if start as u64 + limit as u64 > len as u64 {
            len
        } else {
            (start + limit) as usize
        };
        assert(page =~= ids@.subrange(start as int, end as int));
        let mut i: usize = start as usize;
        while i < end
            invariant
                self.wf(),
                start <= i <= end <= ids@.len(),
                ids@ == self@.merchant_index(merchant),
                forall|k: int| 0 <= k < ids@.len() ==> (#[trigger] ids@[k] as int) < self@.subs.len(),
                result@ =~= ids@.subrange(start as int, i as int).map_values(|id: u32| self@.subs[id as int]),
            decreases end - i,
        {
            let id = ids[i];
            result.push(self.subscriptions[id as usize]);
            i = i + 1;
        }
        result
    }

    /// The number of subscriptions listed under `merchant`.
    pub fn get_merchant_subscription_count(&self, merchant: Address) -> (r: u32)
        requires
            self.wf(),
        ensures
            r == self@.merchant_index(merchant).len(),
    {
        let ids = self.merchant_subscription_ids(merchant);
        proof {
            lemma_merchant_ids_bounded(self@.subs, merchant, self@.subs.len());
        }
        ids.len() as u32
    }

    /// Ids of `subscriber`'s subscriptions from `start_from_id` on, ascending, at most
    /// `limit` of them, and whether more follow. `NotFound` when `limit` is zero.
    pub fn list_subscriptions_by_subscriber(&self, subscriber: Address, start_from_id: u32, limit: u32) -> (r: Result<SubscriptionsPage, Error>)
        requires
            self.wf(),
        ensures
            limit == 0 ==> (r matches Err(e) && e == Error::NotFound),
            limit > 0 ==> (r matches Ok(page) && {
                let all = subscriber_ids(self@.subs, subscriber, start_from_id as nat, self@.subs.len());
                &&& page.subscription_ids@ == all.take(if all.len() < limit { all.len() as int } else { limit as int })
                &&& page.has_next == (all.len() > limit)
            }),
    {
        if limit == 0 {
            return Err(Error::NotFound);
        }
        let mut all: Vec<u32> = Vec::new();
        let mut j: usize = start_from_id as usize;
        proof {
            lemma_subscriber_ids_bounded(self@.subs, subscriber, start_from_id as nat, self@.subs.len());
        }
        if j >= self.subscriptions.len() {
            let page = SubscriptionsPage { subscription_ids: all, has_next: false };
            assert(page.subscription_ids@ =~= subscriber_ids(self@.subs, subscriber, start_from_id as nat, self@.subs.len()).take(0));
            return Ok(page);
        }
        while j < self.subscriptions.len()
            invariant
                self.wf(),
                start_from_id <= j <= self@.subs.len(),
                all@ == subscriber_ids(self@.subs, subscriber, start_from_id as nat, j as nat),
                all@.len() <= j,
            decreases self@.subs.len() - j,
        {
            if self.subscriptions[j].subscriber == subscriber {
                all.push(j as u32);
            }
            j = j + 1;
        }
        let mut ids: Vec<u32> = Vec::new();
        let mut k: usize = 0;
        while k < all.len() && k < limit as usize
            invariant
                0 <= k <= all@.len(),
                k <= limit,
                ids@ =~= all@.take(k as int),
            decreases all@.len() - k,
        {
            ids.push(all[k]);
            k = k + 1;
        }
        let has_next = all.len() > limit as usize;
        Ok(SubscriptionsPage { subscription_ids: ids, has_next })
    }

    /// Merchant payout: accepts a non-negative amount (`Underflow` otherwise); the
    /// vault keeps no merchant balance, so nothing else changes.
    pub fn withdraw_merchant_funds(&self, merchant: Address, amount: i128) -> (r: Result<(), Error>)
        ensures
            r == validate_non_negative_spec(amount),
    {
        validate_non_negative(amount)
    }
}

/// Whether two idempotency tokens are equal.
fn same_key(a: &IdempotencyKey, b: &IdempotencyKey) -> (r: bool)
    ensures
        r == (a@ == b@),
{
    let mut i: usize = 0;
    while i < 32
        invariant
            0 <= i <= 32,
            a@.len() == 32,
            b@.len() == 32,
            forall|j: int| 0 <= j < i ==> a@[j] == b@[j],
        decreases 32 - i,
    {
        if a[i] != b[i] {
            return false;
        }
        i = i + 1;
    }
    assert(a@ =~= b@);
    true
}

} // verus!
