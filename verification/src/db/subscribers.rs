use vstd::prelude::*;

verus! {

/// What a subscription does with the store.
#[derive(Debug, Clone, Copy, PartialEq, Eq, Structural)]
pub enum SubscriptionStep {
    /// The address is recorded already: nothing is written.
    AlreadySubscribed,
    /// The address is new: it is recorded.
    Record,
}

/// The step for an address that is, or is not, recorded already.
pub open spec fn step_for(already_subscribed: bool) -> SubscriptionStep {
    if already_subscribed {
        SubscriptionStep::AlreadySubscribed
    } else {
        SubscriptionStep::Record
    }
}

/// The step for an address that is, or is not, recorded already.
pub fn subscription_step(already_subscribed: bool) -> (r: SubscriptionStep)
    ensures
        r == step_for(already_subscribed),
{
    if already_subscribed {
        SubscriptionStep::AlreadySubscribed
    } else {
        SubscriptionStep::Record
    }
}

/// The recorded addresses after `email` subscribes: the step is chosen by
/// whether it is recorded, and a recorded address is appended.
pub open spec fn after_subscribing(recorded: Seq<Seq<char>>, email: Seq<char>) -> Seq<Seq<char>> {
    match step_for(recorded.contains(email)) {
        SubscriptionStep::AlreadySubscribed => recorded,
        SubscriptionStep::Record => recorded.push(email),
    }
}

/// Subscribing is idempotent: subscribing the same address a second time
/// changes nothing, and after it the address is recorded.
pub proof fn lemma_subscribe_idempotent(recorded: Seq<Seq<char>>, email: Seq<char>)
    ensures
        after_subscribing(after_subscribing(recorded, email), email) == after_subscribing(
            recorded,
            email,
        ),
        after_subscribing(recorded, email).contains(email),
{
    if !recorded.contains(email) {
        let r = recorded.push(email);
        assert(r[r.len() - 1] == email);
    }
}

/// Subscribing never records an address twice: a store without repeats
/// stays without repeats.
pub proof fn lemma_subscribe_keeps_unique(recorded: Seq<Seq<char>>, email: Seq<char>)
    requires
        recorded.no_duplicates(),
    ensures
        after_subscribing(recorded, email).no_duplicates(),
{
    if !recorded.contains(email) {
        let r = recorded.push(email);
        assert forall|i: int, j: int| 0 <= i < r.len() && 0 <= j < r.len() && i != j implies r[i]
            != r[j] by {
            if i < recorded.len() && j < recorded.len() {
                assert(r[i] == recorded[i] && r[j] == recorded[j]);
            } else if i < recorded.len() {
                assert(r[i] == recorded[i]);
            } else if j < recorded.len() {
                assert(r[j] == recorded[j]);
            }
        }
    }
}

} // verus!
