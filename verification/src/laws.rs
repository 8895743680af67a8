//! Laws that tie the registry's contracts to the dispatcher's routing.
//!
//! `subscribe` appends a session to a topic's recorded list, `publish`
//! snapshots that list into the job it creates, and `delivery_targets`
//! hands the snapshot back verbatim; the lemmas here count what that
//! chain delivers to whom.

use vstd::prelude::*;

use crate::registry::count_session;

verus! {

/// Law: one delivery per recorded subscription. When subscribing has
/// appended session `s` to a topic's list `n` more times, a publish on
/// that topic is delivered to `s` exactly `n` more times than the old
/// list alone would have — exactly once for a session that subscribed
/// once and was not recorded before.
pub proof fn lemma_one_delivery_per_subscription(before: Seq<u64>, s: u64, n: nat)
    ensures
        count_session(before + Seq::new(n, |_k: int| s), s) == count_session(before, s) + n,
    decreases n,
{
    if n == 0 {
        assert(before + Seq::new(0, |_k: int| s) =~= before);
    } else {
        lemma_one_delivery_per_subscription(before, s, (n - 1) as nat);
        let prev = before + Seq::new((n - 1) as nat, |_k: int| s);
        let cur = before + Seq::new(n, |_k: int| s);
        assert(cur.drop_last() =~= prev);
        assert(cur.last() == s);
    }
}

/// Law: subscribing never redirects anyone else's deliveries. Appending
/// subscriptions of session `s` to a topic's list leaves the number of
/// deliveries every other session receives from a publish on that topic
/// unchanged.
pub proof fn lemma_no_delivery_for_others(before: Seq<u64>, s: u64, x: u64, n: nat)
    requires
        x != s,
    ensures
        count_session(before + Seq::new(n, |_k: int| s), x) == count_session(before, x),
    decreases n,
{
    if n == 0 {
        assert(before + Seq::new(0, |_k: int| s) =~= before);
    } else {
        lemma_no_delivery_for_others(before, s, x, (n - 1) as nat);
        let prev = before + Seq::new((n - 1) as nat, |_k: int| s);
        let cur = before + Seq::new(n, |_k: int| s);
        assert(cur.drop_last() =~= prev);
        assert(cur.last() == s);
    }
}

} // verus!
