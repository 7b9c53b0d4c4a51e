//! The rules by which an item's numbers move from one day to the next, first
//! as mathematics over unbounded integers, then as the strategies that carry
//! them out on an [`Item`].

use crate::gildedrose::Item;
use vstd::prelude::*;

verus! {

/// The kinds of rule an item can be bound to.
#[derive(Clone, Copy, PartialEq, Eq, Debug, Structural)]
pub enum Policy {
    Standard,
    AgedCheese,
    Legendary,
    EventTicket,
    Conjured,
}

/// The two numbers of an item, as unbounded integers.
pub struct ItemState {
    pub sell_in: int,
    pub quality: int,
}

/// The lowest quality a rule will degrade an item to.
pub const QUALITY_FLOOR: i32 = 0;

/// The highest quality a rule will raise an item to.
pub const QUALITY_CAP: i32 = 50;

/// An item past its date on the day after `sell_in`: the date counts as passed
/// once the day's decrement has left fewer than zero days.
pub open spec fn expires_today(sell_in: int) -> bool {
    sell_in - 1 < 0
}

/// `quality` lowered by `by`, though never below the floor. A quality that is
/// already at or under the floor is left as it is.
pub open spec fn degraded(quality: int, by: int) -> int {
    if quality <= QUALITY_FLOOR {
        quality
    } else if quality - by < QUALITY_FLOOR {
        QUALITY_FLOOR as int
    } else {
        quality - by
    }
}

/// `quality` raised by `by`, though never above the cap. A quality that is
/// already at or over the cap is left as it is.
pub open spec fn improved(quality: int, by: int) -> int {
    if quality >= QUALITY_CAP {
        quality
    } else if quality + by > QUALITY_CAP {
        QUALITY_CAP as int
    } else {
        quality + by
    }
}

/// Ordinary goods lose one point of quality a day, two once the date has passed.
pub open spec fn standard_next_day(today: ItemState) -> ItemState {
    ItemState {
        sell_in: today.sell_in - 1,
        quality: degraded(
            today.quality,
            if expires_today(today.sell_in) {
                2
            } else {
                1
            },
        ),
    }
}

/// Aged cheese gains one point of quality a day, two once the date has passed.
pub open spec fn aged_cheese_next_day(today: ItemState) -> ItemState {
    ItemState {
        sell_in: today.sell_in - 1,
        quality: improved(
            today.quality,
            if expires_today(today.sell_in) {
                2
            } else {
                1
            },
        ),
    }
}

/// The points an event ticket gains on a day with `sell_in` days to go: one,
/// two from ten days before the event, three from five days before.
pub open spec fn ticket_gain(sell_in: int) -> int {
    if sell_in < 6 {
        3
    } else if sell_in < 11 {
        2
    } else {
        1
    }
}

/// An event ticket gains quality as the event comes closer and is worth
/// nothing once it is over.
pub open spec fn event_ticket_next_day(today: ItemState) -> ItemState {
    ItemState {
        sell_in: today.sell_in - 1,
        quality: if expires_today(today.sell_in) {
            0
        } else {
            improved(today.quality, ticket_gain(today.sell_in))
        },
    }
}

/// What one day makes of `today` under `policy`.
pub open spec fn next_day(policy: Policy, today: ItemState) -> ItemState {
    match policy {
        Policy::Standard | Policy::Conjured => standard_next_day(today),
        Policy::AgedCheese => aged_cheese_next_day(today),
        Policy::Legendary => today,
        Policy::EventTicket => event_ticket_next_day(today),
    }
}

/// Both numbers of `state` fit the machine integers an [`Item`] stores.
pub open spec fn representable(state: ItemState) -> bool {
    &&& i32::MIN <= state.sell_in <= i32::MAX
    &&& i32::MIN <= state.quality <= i32::MAX
}

/// A rule that moves an item forward by one day.
pub trait UpdateStrategy {
    /// The rule itself: today's numbers mapped to tomorrow's.
    spec fn next_day(&self, today: ItemState) -> ItemState;

    /// Carries the rule out on `item`. The name is not touched.
    fn update_item(&self, item: &mut Item)
        requires
            representable(self.next_day(old(item)@.state)),
        ensures
            final(item)@.name == old(item)@.name,
            final(item)@.state == self.next_day(old(item)@.state),
    ;
}

/// The rule of legendary items: nothing ever changes.
pub struct EmptyUpdate;

impl UpdateStrategy for EmptyUpdate {
    open spec fn next_day(&self, today: ItemState) -> ItemState {
        today
    }

    fn update_item(&self, _item: &mut Item)
        ensures
            *final(_item) == *old(_item),
    {
    }
}

/// The rule of ordinary goods.
pub struct DefaultUpdate;

impl UpdateStrategy for DefaultUpdate {
    open spec fn next_day(&self, today: ItemState) -> ItemState {
        standard_next_day(today)
    }

    fn update_item(&self, item: &mut Item) {
        if item.quality > QUALITY_FLOOR {
            item.decrement_quality()
        }
        item.decrement_sell_in();

        if item.sell_in < 0 && item.quality > QUALITY_FLOOR {
            item.decrement_quality()
        }
    }
}

/// The rule of aged cheese.
pub struct AgedBrieUpdate;

impl UpdateStrategy for AgedBrieUpdate {
    open spec fn next_day(&self, today: ItemState) -> ItemState {
        aged_cheese_next_day(today)
    }

    fn update_item(&self, item: &mut Item) {
        if item.quality < QUALITY_CAP {
            item.increment_quality();
        }
        item.decrement_sell_in();

        if item.sell_in < 0 && item.quality < QUALITY_CAP {
            item.increment_quality();
        }
    }
}

/// The rule of event tickets.
pub struct BackstgeUpdate;

impl UpdateStrategy for BackstgeUpdate {
    open spec fn next_day(&self, today: ItemState) -> ItemState {
        event_ticket_next_day(today)
    }

    fn update_item(&self, item: &mut Item) {
        if item.quality < QUALITY_CAP {
            item.increment_quality();
        }
        if item.quality < QUALITY_CAP && item.sell_in < 11 {
            item.increment_quality();
        }
        if item.quality < QUALITY_CAP && item.sell_in < 6 {
            item.increment_quality();
        }
        item.decrement_sell_in();

        if item.sell_in < 0 {
            item.quality = 0;
        }
    }
}

} // verus!
