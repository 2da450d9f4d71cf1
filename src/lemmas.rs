//! Facts about charging that hold across calls.

use vstd::prelude::*;

use crate::model::{
    batch_spec, cancel_spec, charge_spec, create_spec, deposit_spec, estimate_topup_spec,
    lemma_charge_frame, one_off_spec, pause_spec, period_of, recover_spec, resume_spec,
    rotate_admin_spec, set_min_topup_spec, token_replayed, usage_spec, withdraw_subscriber_spec,
    VaultState,
};
use crate::types::{Address, Error, IdempotencyKey, RecoveryReason, Subscription, SubscriptionStatus};

verus! {

/// A charge with too little balance, once it gets past the status, interval,
/// replay and timing checks, fails with `InsufficientBalance`, moves the subscription to
/// `InsufficientBalance`, and leaves its balance and last payment time as they were.
pub proof fn lemma_insufficient_balance_charge(s: VaultState, id: u32, now: u64, key: Option<IdempotencyKey>)
    requires
        s.wf(),
        s.has(id),
        s.sub(id).status == SubscriptionStatus::Active,
        s.sub(id).interval_seconds > 0,
        !token_replayed(key, s.replay[id as int].idempotency_key),
        !(s.replay[id as int].charged_period matches Some(p) && period_of(now, s.sub(id).interval_seconds) <= p),
        now >= s.sub(id).last_payment_timestamp + s.sub(id).interval_seconds,
        s.sub(id).prepaid_balance < s.sub(id).amount,
    ensures
        ({
            let (post, r) = charge_spec(s, id, now, key);
            &&& r == Err::<(), Error>(Error::InsufficientBalance)
            &&& post.sub(id).status == SubscriptionStatus::InsufficientBalance
            &&& post.sub(id).prepaid_balance == s.sub(id).prepaid_balance
            &&& post.sub(id).last_payment_timestamp == s.sub(id).last_payment_timestamp
        }),
{
}

/// Charging again with the same token, on the state a successful charge with that
/// token left, succeeds and changes nothing: the balance stays the same.
pub proof fn lemma_idempotent_retry(s: VaultState, id: u32, now: u64, later: u64, key: IdempotencyKey)
    requires
        s.wf(),
        charge_spec(s, id, now, Some(key)).1 is Ok,
    ensures
        ({
            let first = charge_spec(s, id, now, Some(key)).0;
            let (second, r) = charge_spec(first, id, later, Some(key));
            &&& r is Ok
            &&& second == first
            &&& second.sub(id).prepaid_balance == first.sub(id).prepaid_balance
        }),
{
}

/// After an interval charge that debited, a second interval charge in the same
/// billing period fails with `Replay` and changes nothing, unless it brings the
/// token that the first one stored.
pub proof fn lemma_same_period_replay(
    s: VaultState,
    id: u32,
    now: u64,
    later: u64,
    key: Option<IdempotencyKey>,
    key2: Option<IdempotencyKey>,
)
    requires
        s.wf(),
        s.has(id),
        !token_replayed(key, s.replay[id as int].idempotency_key),
        charge_spec(s, id, now, key).1 is Ok,
        period_of(later, s.sub(id).interval_seconds) == period_of(now, s.sub(id).interval_seconds),
        !token_replayed(key2, charge_spec(s, id, now, key).0.replay[id as int].idempotency_key),
    ensures
        ({
            let first = charge_spec(s, id, now, key).0;
            charge_spec(first, id, later, key2) == (first, Err::<(), Error>(Error::Replay))
        }),
{
}

/// The top-up estimate for zero intervals is 0, and no estimate is negative.
pub proof fn lemma_estimate_topup_non_negative(sub: Subscription, n: u32)
    requires
        sub.prepaid_balance >= 0,
    ensures
        estimate_topup_spec(sub, 0) == Ok::<i128, Error>(0),
        estimate_topup_spec(sub, n) matches Ok(v) ==> v >= 0,
{
}

/// A charge's outcome depends only on the record and replay state of its own id.
proof fn lemma_charge_depends_on_own_id(s: VaultState, t: VaultState, id: u32, now: u64, key: Option<IdempotencyKey>)
    requires
        s.subs.len() == t.subs.len(),
        s.has(id) ==> s.subs[id as int] == t.subs[id as int] && s.replay[id as int] == t.replay[id as int],
    ensures
        charge_spec(s, id, now, key).1 == charge_spec(t, id, now, key).1,
{
}

/// A batch changes the record and replay state of the ids it charges only.
proof fn lemma_batch_frame(s: VaultState, ids: Seq<u32>, now: u64)
    requires
        s.wf(),
    ensures
        ({
            let post = batch_spec(s, ids, now).0;
            &&& post.wf()
            &&& post.subs.len() == s.subs.len()
            &&& forall|j: int|
                0 <= j < s.subs.len() && !ids.contains(j as u32) ==> #[trigger] post.subs[j]
                    == s.subs[j] && post.replay[j] == s.replay[j]
        }),
        batch_spec(s, ids, now).1.len() == ids.len(),
    decreases ids.len(),
{
    if ids.len() > 0 {
        let prev = batch_spec(s, ids.drop_last(), now);
        lemma_batch_frame(s, ids.drop_last(), now);
        lemma_charge_frame(prev.0, ids.last(), now, None);
        assert forall|j: int|
            0 <= j < s.subs.len() && !ids.contains(j as u32) implies #[trigger] batch_spec(
            s,
            ids,
            now,
        ).0.subs[j] == s.subs[j] && batch_spec(s, ids, now).0.replay[j] == s.replay[j] by {
            if ids.drop_last().contains(j as u32) {
                let k = choose|k: int| 0 <= k < ids.drop_last().len() && ids.drop_last()[k] == j as u32;
                assert(ids[k] == j as u32);
            }
            assert(ids[ids.len() - 1] == ids.last());
            assert(j != ids.last());
        }
    }
}

/// An interval charge in a billing period that was already charged fails with
/// `Replay` and changes nothing, with or without a token, unless the token is the
/// stored one.
pub proof fn lemma_period_already_charged(s: VaultState, id: u32, now: u64, key: Option<IdempotencyKey>)
    requires
        s.wf(),
        s.has(id),
        s.sub(id).status == SubscriptionStatus::Active,
        s.sub(id).interval_seconds > 0,
        s.replay[id as int].charged_period matches Some(p) && period_of(now, s.sub(id).interval_seconds) <= p,
        !token_replayed(key, s.replay[id as int].idempotency_key),
    ensures
        charge_spec(s, id, now, key) == (s, Err::<(), Error>(Error::Replay)),
{
}

/// Within a batch, the result of an id that no earlier entry repeats is what
/// charging it alone on the starting state gives: the other ids' failures or
/// successes never alter it. The results keep the input's length and order.
pub proof fn lemma_batch_results_independent(s: VaultState, ids: Seq<u32>, now: u64)
    requires
        s.wf(),
    ensures
        batch_spec(s, ids, now).1.len() == ids.len(),
        forall|k: int|
            0 <= k < ids.len() && (forall|j: int| 0 <= j < k ==> ids[j] != ids[k]) ==> #[trigger] batch_spec(
                s,
                ids,
                now,
            ).1[k] == charge_spec(s, ids[k], now, None).1,
    decreases ids.len(),
{
    lemma_batch_frame(s, ids, now);
    if ids.len() > 0 {
        let init = ids.drop_last();
        lemma_batch_results_independent(s, init, now);
        lemma_batch_frame(s, init, now);
        let prev = batch_spec(s, init, now).0;
        let last = ids.last();
        assert forall|k: int|
            0 <= k < ids.len() && (forall|j: int| 0 <= j < k ==> ids[j] != ids[k]) implies #[trigger] batch_spec(
            s,
            ids,
            now,
        ).1[k] == charge_spec(s, ids[k], now, None).1 by {
            if k < ids.len() - 1 {
                assert(forall|j: int| 0 <= j < k ==> init[j] != init[k]);
                assert(batch_spec(s, init, now).1[k] == charge_spec(s, init[k], now, None).1);
            } else {
                assert(!init.contains(last)) by {
                    if init.contains(last) {
                        let m = choose|m: int| 0 <= m < init.len() && init[m] == last;
                        assert(ids[m] == ids[k]);
                    }
                }
                if s.has(last) {
                    assert(prev.subs[last as int] == s.subs[last as int]);
                }
                lemma_charge_depends_on_own_id(prev, s, last, now, None);
            }
        }
    }
}

/// A cancelled subscription keeps every field through interval, usage and one-off
/// charges, deposits, and pause, resume and cancel requests.
pub proof fn lemma_cancelled_is_terminal(
    s: VaultState,
    id: u32,
    now: u64,
    key: Option<IdempotencyKey>,
    amount: i128,
    who: Address,
)
    requires
        s.wf(),
        s.has(id),
        s.sub(id).status == SubscriptionStatus::Cancelled,
    ensures
        charge_spec(s, id, now, key).0.sub(id) == s.sub(id),
        usage_spec(s, id, amount).0.sub(id) == s.sub(id),
        one_off_spec(s, id, who, amount).0.sub(id) == s.sub(id),
        pause_spec(s, id, who).0.sub(id) == s.sub(id),
        resume_spec(s, id, who).0.sub(id) == s.sub(id),
        cancel_spec(s, id, who).0.sub(id) == s.sub(id),
        deposit_spec(s, id, who, amount).0.sub(id) == s.sub(id),
{
}

/// An operation that fails leaves the vault as it was. The one exception is an
/// interval charge refused for want of balance, which records the status change.
pub proof fn lemma_failure_changes_nothing(
    s: VaultState,
    id: u32,
    who: Address,
    other: Address,
    amount: i128,
    interval_seconds: u64,
    flag: bool,
    reason: RecoveryReason,
    now: u64,
    key: Option<IdempotencyKey>,
)
    requires
        s.wf(),
    ensures
        charge_spec(s, id, now, key).1 matches Err(e) && e != Error::InsufficientBalance ==> charge_spec(
            s,
            id,
            now,
            key,
        ).0 == s,
        usage_spec(s, id, amount).1 is Err ==> usage_spec(s, id, amount).0 == s,
        one_off_spec(s, id, who, amount).1 is Err ==> one_off_spec(s, id, who, amount).0 == s,
        deposit_spec(s, id, who, amount).1 is Err ==> deposit_spec(s, id, who, amount).0 == s,
        pause_spec(s, id, who).1 is Err ==> pause_spec(s, id, who).0 == s,
        resume_spec(s, id, who).1 is Err ==> resume_spec(s, id, who).0 == s,
        cancel_spec(s, id, who).1 is Err ==> cancel_spec(s, id, who).0 == s,
        withdraw_subscriber_spec(s, id, who).1 is Err ==> withdraw_subscriber_spec(s, id, who).0 == s,
        create_spec(s, who, other, amount, interval_seconds, flag, now).1 is Err ==> create_spec(
            s,
            who,
            other,
            amount,
            interval_seconds,
            flag,
            now,
        ).0 == s,
        set_min_topup_spec(s, who, amount).1 is Err ==> set_min_topup_spec(s, who, amount).0 == s,
        rotate_admin_spec(s, who, other, now).1 is Err ==> rotate_admin_spec(s, who, other, now).0 == s,
        recover_spec(s, who, other, amount, reason, now).1 is Err ==> recover_spec(
            s,
            who,
            other,
            amount,
            reason,
            now,
        ).0 == s,
{
}

} // verus!
