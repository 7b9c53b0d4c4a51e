//! The shop: its items, the binding of each item to its rule, and the step
//! that moves every item forward by one day.

use crate::forecast::within_bounds;
use crate::listing::{append_decimal, append_separator, item_line};
use crate::update_strategy::{
    next_day, representable, AgedBrieUpdate, BackstgeUpdate, DefaultUpdate, EmptyUpdate, ItemState,
    Policy, UpdateStrategy,
};
use vstd::prelude::*;

verus! {

/// One stock-keeping unit.
pub struct Item {
    pub name: String,
    pub sell_in: i32,
    pub quality: i32,
}

/// What an item stands for in contracts: its name as a sequence of
/// characters and its two numbers as unbounded integers.
pub struct ItemView {
    pub name: Seq<char>,
    pub state: ItemState,
}

impl View for Item {
    type V = ItemView;

    open spec fn view(&self) -> ItemView {
        ItemView {
            name: self.name@,
            state: ItemState { sell_in: self.sell_in as int, quality: self.quality as int },
        }
    }
}

impl Item {
    /// An item called `name` with the given numbers. Nothing is asked of the
    /// numbers: the days left may be negative and the quality out of bounds.
    pub fn new(name: &str, sell_in: i32, quality: i32) -> (item: Item)
        ensures
            item.name@ == name@,
            item.sell_in == sell_in,
            item.quality == quality,
    {
        Item { name: name.to_owned(), sell_in, quality }
    }

    /// The item's line in the shop's listing: name, days left and quality.
    pub fn listing(&self) -> (line: String)
        ensures
            line@ == item_line(self@.name, self@.state.sell_in, self@.state.quality),
    {
        let mut line = self.name.clone();
        append_separator(&mut line);
        append_decimal(&mut line, self.sell_in);
        append_separator(&mut line);
        append_decimal(&mut line, self.quality);
        line
    }

    /// Takes one point off the quality, whatever it is.
    pub fn decrement_quality(&mut self)
        requires
            old(self).quality > i32::MIN,
        ensures
            final(self).quality == old(self).quality - 1,
            final(self).sell_in == old(self).sell_in,
            final(self).name == old(self).name,
    {
        self.quality = self.quality - 1;
    }

    /// Adds one point to the quality, whatever it is.
    pub fn increment_quality(&mut self)
        requires
            old(self).quality < i32::MAX,
        ensures
            final(self).quality == old(self).quality + 1,
            final(self).sell_in == old(self).sell_in,
            final(self).name == old(self).name,
    {
        self.quality = self.quality + 1;
    }

    /// Takes one day off the days left, whatever they are.
    pub fn decrement_sell_in(&mut self)
        requires
            old(self).sell_in > i32::MIN,
        ensures
            final(self).sell_in == old(self).sell_in - 1,
            final(self).quality == old(self).quality,
            final(self).name == old(self).name,
    {
        self.sell_in = self.sell_in - 1;
    }
}

/// An item together with the rule that governs it. The rule is chosen when
/// the holder is made and stays the same from then on.
pub struct ItemHolder {
    pub item: Item,
    policy: Policy,
}

/// What a holder stands for in contracts: the item and the rule it is bound
/// to.
pub struct ItemHolderView {
    pub item: ItemView,
    pub policy: Policy,
}

impl ItemHolderView {
    /// The same item one day later: same name, same rule, and the numbers
    /// that the rule makes of today's.
    pub open spec fn next_day(self) -> ItemHolderView {
        ItemHolderView {
            item: ItemView { state: next_day(self.policy, self.item.state), ..self.item },
            ..self
        }
    }

    /// The numbers of the item after one more day fit its machine integers.
    pub open spec fn can_update(self) -> bool {
        representable(next_day(self.policy, self.item.state))
    }
}

impl View for ItemHolder {
    type V = ItemHolderView;

    closed spec fn view(&self) -> ItemHolderView {
        ItemHolderView { item: self.item@, policy: self.policy }
    }
}

impl ItemHolder {
    /// The item as it stands.
    pub fn item(&self) -> (item: &Item)
        ensures
            item@ == self@.item,
    {
        &self.item
    }

    /// The rule the item is bound to.
    pub fn policy(&self) -> (policy: Policy)
        ensures
            policy == self@.policy,
    {
        self.policy
    }

    /// Whether the item can be moved forward by one day: it can unless the
    /// days left would fall below what the machine integer holds.
    pub fn can_update(&self) -> (ok: bool)
        ensures
            ok == self@.can_update(),
    {
        match self.policy {
            Policy::Legendary => true,
            _ => self.item.sell_in > i32::MIN,
        }
    }

    /// Moves the item forward by one day under its rule.
    pub fn update_item(&mut self)
        requires
            old(self)@.can_update(),
        ensures
            final(self)@ == old(self)@.next_day(),
            old(self)@.policy == Policy::Legendary ==> final(self)@ == old(self)@,
            within_bounds(old(self)@.item.state.quality) ==> within_bounds(
                final(self)@.item.state.quality,
            ),
    {
        match self.policy {
            Policy::Standard | Policy::Conjured => DefaultUpdate.update_item(&mut self.item),
            Policy::AgedCheese => AgedBrieUpdate.update_item(&mut self.item),
            Policy::Legendary => EmptyUpdate.update_item(&mut self.item),
            Policy::EventTicket => BackstgeUpdate.update_item(&mut self.item),
        }
    }
}

/// The goods the shop trades in.
#[non_exhaustive]
pub enum ItemType {
    DexterityVext,
    AgedBrie,
    ElixierOfTheMongoose,
    SulfurasHandOfRagnaros,
    BackstagePassesTAFKAL80ETCConcert,
    ConjuredManaCake,
}

impl ItemType {
    /// The name under which goods of this type are listed.
    pub open spec fn catalogue_name(self) -> Seq<char> {
        match self {
            ItemType::DexterityVext => "+5 Dexterity Vest"@,
            ItemType::AgedBrie => "Aged Brie"@,
            ItemType::ElixierOfTheMongoose => "Elixir of the Mongoose"@,
            ItemType::SulfurasHandOfRagnaros => "Sulfuras, Hand of Ragnaros"@,
            ItemType::BackstagePassesTAFKAL80ETCConcert => "Backstage passes to a TAFKAL80ETC concert"@,
            ItemType::ConjuredManaCake => "Conjured Mana Cake"@,
        }
    }

    /// The rule that governs goods of this type.
    pub open spec fn catalogue_policy(self) -> Policy {
        match self {
            ItemType::DexterityVext => Policy::Standard,
            ItemType::AgedBrie => Policy::AgedCheese,
            ItemType::ElixierOfTheMongoose => Policy::Standard,
            ItemType::SulfurasHandOfRagnaros => Policy::Legendary,
            ItemType::BackstagePassesTAFKAL80ETCConcert => Policy::EventTicket,
            ItemType::ConjuredManaCake => Policy::Conjured,
        }
    }
}

/// Makes holders for the goods of the catalogue.
pub struct ItemHolderFactory;

impl ItemHolderFactory {
    /// A holder for one piece of `item_type` with the given numbers, under the
    /// type's listed name and bound to the type's rule.
    pub fn create_item_holder(item_type: ItemType, sell_in: i32, quality: i32) -> (holder:
        ItemHolder)
        ensures
            holder@ == (ItemHolderView {
                item: ItemView {
                    name: item_type.catalogue_name(),
                    state: ItemState { sell_in: sell_in as int, quality: quality as int },
                },
                policy: item_type.catalogue_policy(),
            }),
    {
        match item_type {
            ItemType::DexterityVext => ItemHolder {
                item: Item::new("+5 Dexterity Vest", sell_in, quality),
                policy: Policy::Standard,
            },
            ItemType::AgedBrie => ItemHolder {
                item: Item::new("Aged Brie", sell_in, quality),
                policy: Policy::AgedCheese,
            },
            ItemType::ElixierOfTheMongoose => ItemHolder {
                item: Item::new("Elixir of the Mongoose", sell_in, quality),
                policy: Policy::Standard,
            },
            ItemType::SulfurasHandOfRagnaros => ItemHolder {
                item: Item::new("Sulfuras, Hand of Ragnaros", sell_in, quality),
                policy: Policy::Legendary,
            },
            ItemType::BackstagePassesTAFKAL80ETCConcert => ItemHolder {
                item: Item::new("Backstage passes to a TAFKAL80ETC concert", sell_in, quality),
                policy: Policy::EventTicket,
            },
            ItemType::ConjuredManaCake => ItemHolder {
                item: Item::new("Conjured Mana Cake", sell_in, quality),
                policy: Policy::Conjured,
            },
        }
    }
}

/// The shop: its holders, in the order in which they were handed over.
pub struct GildedRose {
    pub item_holders: Vec<ItemHolder>,
}

/// Every item of `shop` can be moved forward by one day.
pub open spec fn all_can_update(shop: Seq<ItemHolderView>) -> bool {
    forall|i: int| 0 <= i < shop.len() ==> (#[trigger] shop[i]).can_update()
}

impl View for GildedRose {
    type V = Seq<ItemHolderView>;

    open spec fn view(&self) -> Seq<ItemHolderView> {
        self.item_holders@.map_values(|holder: ItemHolder| holder@)
    }
}

impl GildedRose {
    /// A shop that holds `item_holders`, in the order given.
    pub fn new(item_holders: Vec<ItemHolder>) -> (shop: GildedRose)
        ensures
            shop.item_holders == item_holders,
    {
        GildedRose { item_holders }
    }

    /// Whether every item of the shop can be moved forward by one day.
    pub fn can_update(&self) -> (ok: bool)
        ensures
            ok == all_can_update(self@),
    {
        let count: usize = self.item_holders.len();
        let mut seen: usize = 0;
        while seen < count
            invariant
                seen <= count,
                self.item_holders@.len() == count,
                forall|i: int| 0 <= i < seen ==> (#[trigger] self@[i]).can_update(),
            decreases count - seen,
        {
            if !self.item_holders[seen].can_update() {
                assert(!self@[seen as int].can_update());
                return false;
            }
            seen = seen + 1;
        }
        true
    }

    /// The shop's listing: the line of each item, in the order of the holders.
    pub fn listing(&self) -> (lines: Vec<String>)
        ensures
            lines@.len() == self@.len(),
            forall|i: int|
                0 <= i < self@.len() ==> (#[trigger] lines@[i])@ == item_line(
                    self@[i].item.name,
                    self@[i].item.state.sell_in,
                    self@[i].item.state.quality,
                ),
    {
        let count: usize = self.item_holders.len();
        let mut lines: Vec<String> = Vec::new();
        let mut seen: usize = 0;
        while seen < count
            invariant
                seen <= count,
                self.item_holders@.len() == count,
                lines@.len() == seen,
                forall|i: int|
                    0 <= i < seen ==> (#[trigger] lines@[i])@ == item_line(
                        self@[i].item.name,
                        self@[i].item.state.sell_in,
                        self@[i].item.state.quality,
                    ),
            decreases count - seen,
        {
            lines.push(self.item_holders[seen].item.listing());
            seen = seen + 1;
        }
        lines
    }

    /// Moves every item of the shop forward by one day, each under its own
    /// rule. No holder is added, dropped or moved.
    pub fn update_quality(&mut self)
        requires
            all_can_update(old(self)@),
        ensures
            final(self)@ == old(self)@.map_values(|holder: ItemHolderView| holder.next_day()),
            forall|i: int|
                0 <= i < old(self)@.len() && old(self)@[i].policy == Policy::Legendary ==> (
                #[trigger] final(self)@[i]) == old(self)@[i],
            forall|i: int|
                0 <= i < old(self)@.len() && within_bounds(old(self)@[i].item.state.quality)
                    ==> within_bounds((#[trigger] final(self)@[i]).item.state.quality),
    {
        let count: usize = self.item_holders.len();
        let mut done: usize = 0;
        while done < count
            invariant
                done <= count,
                self.item_holders@.len() == count,
                old(self).item_holders@.len() == count,
                all_can_update(old(self)@),
                forall|i: int|
                    0 <= i < done ==> (#[trigger] self.item_holders@[i])@
                        == old(self).item_holders@[i]@.next_day(),
                forall|i: int|
                    done <= i < count ==> #[trigger] self.item_holders@[i]
                        == old(self).item_holders@[i],
            decreases count - done,
        {
            assert(old(self)@[done as int].can_update());
            self.item_holders[done].update_item();
            done = done + 1;
        }
        assert(self@ =~= old(self)@.map_values(|holder: ItemHolderView| holder.next_day()));
    }
}

} // verus!
