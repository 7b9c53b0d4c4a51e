//! What a run of days makes of an item, and what holds of every such run.

use crate::update_strategy::{next_day, ItemState, Policy, QUALITY_CAP, QUALITY_FLOOR};
use vstd::prelude::*;

verus! {

/// `quality` lies between the floor and the cap, both included.
pub open spec fn within_bounds(quality: int) -> bool {
    QUALITY_FLOOR <= quality <= QUALITY_CAP
}

/// The numbers of an item that started at `start`, after `days` days under
/// `policy`.
pub open spec fn after_days(policy: Policy, start: ItemState, days: nat) -> ItemState
    decreases days,
{
    if days == 0 {
        start
    } else {
        next_day(policy, after_days(policy, start, (days - 1) as nat))
    }
}

/// Under every rule, a quality between floor and cap is still between them
/// a day later.
pub proof fn lemma_next_day_keeps_bounds(policy: Policy, today: ItemState)
    requires
        within_bounds(today.quality),
    ensures
        within_bounds(next_day(policy, today).quality),
{
}

/// Once the quality of an item lies between floor and cap, it does so on
/// every later day. With `from == 0` this speaks of an item that starts
/// within the bounds; with `from == 1` of one that starts outside them and
/// is brought inside by its first day.
pub proof fn lemma_quality_bounds_persist(policy: Policy, start: ItemState, from: nat, to: nat)
    requires
        from <= to,
        within_bounds(after_days(policy, start, from).quality),
    ensures
        within_bounds(after_days(policy, start, to).quality),
    decreases to,
{
    if from < to {
        let eve = (to - 1) as nat;
        lemma_quality_bounds_persist(policy, start, from, eve);
        lemma_next_day_keeps_bounds(policy, after_days(policy, start, eve));
    }
}

/// A legendary item has the numbers it started with on every day.
pub proof fn lemma_legendary_never_changes(start: ItemState, days: nat)
    ensures
        after_days(Policy::Legendary, start, days) == start,
    decreases days,
{
    if days > 0 {
        lemma_legendary_never_changes(start, (days - 1) as nat);
    }
}

/// Under every rule but the legendary one the days left go down by one each
/// day, without end: past the date they count the days since.
pub proof fn lemma_sell_in_counts_down(policy: Policy, start: ItemState, days: nat)
    requires
        policy != Policy::Legendary,
    ensures
        after_days(policy, start, days).sell_in == start.sell_in - days,
    decreases days,
{
    if days > 0 {
        lemma_sell_in_counts_down(policy, start, (days - 1) as nat);
    }
}

} // verus!
