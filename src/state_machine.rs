//! Subscription status transitions and their validation.

use vstd::prelude::*;

use crate::types::{Error, SubscriptionStatus};

verus! {

/// The transition table: `to` is an allowed next status of `from`, not counting
/// staying in place.
pub open spec fn in_transition_table(from: SubscriptionStatus, to: SubscriptionStatus) -> bool {
    match from {
        SubscriptionStatus::Active => to == SubscriptionStatus::Paused || to
            == SubscriptionStatus::Cancelled || to == SubscriptionStatus::InsufficientBalance,
        SubscriptionStatus::Paused => to == SubscriptionStatus::Active || to
            == SubscriptionStatus::Cancelled,
        SubscriptionStatus::InsufficientBalance => to == SubscriptionStatus::Active || to
            == SubscriptionStatus::Cancelled,
        SubscriptionStatus::Cancelled => false,
    }
}

/// A transition is allowed when it stays in place or is in the table.
pub open spec fn transition_allowed(from: SubscriptionStatus, to: SubscriptionStatus) -> bool {
    from == to || in_transition_table(from, to)
}

/// Validates a status transition against the state machine.
///
/// Returns `Ok(())` for a self-transition or a transition in the table, and
/// `Err(InvalidStatusTransition)` otherwise.
pub fn validate_status_transition(from: &SubscriptionStatus, to: &SubscriptionStatus) -> (r: Result<
    (),
    Error,
>)
    ensures
        transition_allowed(*from, *to) ==> r == Ok::<(), Error>(()),
        !transition_allowed(*from, *to) ==> r == Err::<(), Error>(Error::InvalidStatusTransition),
{
    if *from == *to {
        return Ok(());
    }
    let valid = match from {
        SubscriptionStatus::Active => match to {
            SubscriptionStatus::Paused => true,
            SubscriptionStatus::Cancelled => true,
            SubscriptionStatus::InsufficientBalance => true,
            SubscriptionStatus::Active => false,
        },
        SubscriptionStatus::Paused => match to {
            SubscriptionStatus::Active => true,
            SubscriptionStatus::Cancelled => true,
            _ => false,
        },
        SubscriptionStatus::Cancelled => false,
        SubscriptionStatus::InsufficientBalance => match to {
            SubscriptionStatus::Active => true,
            SubscriptionStatus::Cancelled => true,
            _ => false,
        },
    };
    if valid {
        Ok(())
    } else {
        Err(Error::InvalidStatusTransition)
    }
}

/// Returns every status that `status` may move to (self-transitions not listed).
pub fn get_allowed_transitions(status: &SubscriptionStatus) -> (r: Vec<SubscriptionStatus>)
    ensures
        forall|to: SubscriptionStatus| r@.contains(to) <==> in_transition_table(*status, to),
        r@.no_duplicates(),
{
    let r = match status {
        SubscriptionStatus::Active => vec![
            SubscriptionStatus::Paused,
            SubscriptionStatus::Cancelled,
            SubscriptionStatus::InsufficientBalance,
        ],
        SubscriptionStatus::Paused => vec![SubscriptionStatus::Active, SubscriptionStatus::Cancelled],
        SubscriptionStatus::Cancelled => vec![],
        SubscriptionStatus::InsufficientBalance => vec![
            SubscriptionStatus::Active,
            SubscriptionStatus::Cancelled,
        ],
    };
    proof {
        assert forall|to: SubscriptionStatus| r@.contains(to) <==> in_transition_table(
            *status,
            to,
        ) by {
            if in_transition_table(*status, to) {
                match *status {
                    SubscriptionStatus::Active => {
                        if to == SubscriptionStatus::Paused {
                            assert(r@[0] == to);
                        } else if to == SubscriptionStatus::Cancelled {
                            assert(r@[1] == to);
                        } else {
                            assert(r@[2] == to);
                        }
                    },
                    _ => {
                        if to == SubscriptionStatus::Active {
                            assert(r@[0] == to);
                        } else {
                            assert(r@[1] == to);
                        }
                    },
                }
            }
        }
    }
    r
}

/// Checks whether a transition is allowed, without an error value.
pub fn can_transition(from: &SubscriptionStatus, to: &SubscriptionStatus) -> (r: bool)
    ensures
        r == transition_allowed(*from, *to),
{
    validate_status_transition(from, to).is_ok()
}

/// Every transition outside the table between two different statuses is refused,
/// and every status may stay in place.
pub proof fn lemma_transition_table(from: SubscriptionStatus, to: SubscriptionStatus)
    ensures
        from != to && !in_transition_table(from, to) ==> !transition_allowed(from, to),
        transition_allowed(from, from),
        transition_allowed(from, to) && from == SubscriptionStatus::Cancelled ==> to
            == SubscriptionStatus::Cancelled,
{
}

} // verus!
