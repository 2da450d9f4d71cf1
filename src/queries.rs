//! Read-only views of subscriptions: next charge projection and paging results.

use vstd::prelude::*;

use crate::types::{NextChargeInfo, Subscription, SubscriptionStatus};

verus! {

/// When the next charge of `sub` is due: `last_payment_timestamp + interval_seconds`,
/// saturating at `u64::MAX`.
pub open spec fn next_charge_time(sub: Subscription) -> u64 {
    if sub.last_payment_timestamp + sub.interval_seconds > u64::MAX {
        u64::MAX
    } else {
        (sub.last_payment_timestamp + sub.interval_seconds) as u64
    }
}

/// Whether a charge is expected in `status`: for `Active` and `InsufficientBalance`.
pub open spec fn charge_expected(status: SubscriptionStatus) -> bool {
    status == SubscriptionStatus::Active || status == SubscriptionStatus::InsufficientBalance
}

/// Computes the estimated next charge of a subscription.
pub fn compute_next_charge_info(subscription: &Subscription) -> (r: NextChargeInfo)
    ensures
        r.next_charge_timestamp == next_charge_time(*subscription),
        r.is_charge_expected == charge_expected(subscription.status),
{
    let next_charge_timestamp = subscription.last_payment_timestamp.saturating_add(
        subscription.interval_seconds,
    );
    let is_charge_expected = match subscription.status {
        SubscriptionStatus::Active => true,
        SubscriptionStatus::InsufficientBalance => true,
        SubscriptionStatus::Paused => false,
        SubscriptionStatus::Cancelled => false,
    };
    NextChargeInfo { next_charge_timestamp, is_charge_expected }
}

/// One page of a subscriber's subscription ids.
#[derive(Clone, Debug)]
pub struct SubscriptionsPage {
    /// Ids of the subscriber's subscriptions, ascending.
    pub subscription_ids: Vec<u32>,
    /// Whether more of the subscriber's subscriptions follow this page.
    pub has_next: bool,
}

/// The window `[start, start + limit)` of `ids`, cut at its end; empty when
/// `start` is past the end or `limit` is zero.
pub open spec fn page_of(ids: Seq<u32>, start: u32, limit: u32) -> Seq<u32> {
    if start >= ids.len() || limit == 0 {
        Seq::empty()
    } else if start + limit > ids.len() {
        ids.subrange(start as int, ids.len() as int)
    } else {
        ids.subrange(start as int, start + limit)
    }
}

} // verus!
