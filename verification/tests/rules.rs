use gilded_rose::gildedrose::{GildedRose, Item, ItemHolder, ItemHolderFactory, ItemType};
use gilded_rose::update_strategy::{
    AgedBrieUpdate, BackstgeUpdate, DefaultUpdate, EmptyUpdate, Policy, UpdateStrategy,
    QUALITY_CAP, QUALITY_FLOOR,
};

fn numbers(item: &Item) -> (i32, i32) {
    (item.sell_in, item.quality)
}

fn one_day(strategy: &dyn UpdateStrategy, sell_in: i32, quality: i32) -> (i32, i32) {
    let mut item = Item::new("thing", sell_in, quality);
    strategy.update_item(&mut item);
    assert_eq!("thing", item.name);
    numbers(&item)
}

fn every_type() -> Vec<ItemType> {
    vec![
        ItemType::DexterityVext,
        ItemType::AgedBrie,
        ItemType::ElixierOfTheMongoose,
        ItemType::SulfurasHandOfRagnaros,
        ItemType::BackstagePassesTAFKAL80ETCConcert,
        ItemType::ConjuredManaCake,
    ]
}

fn holder_of(index: usize, sell_in: i32, quality: i32) -> ItemHolder {
    let item_type = every_type().swap_remove(index);
    ItemHolderFactory::create_item_holder(item_type, sell_in, quality)
}

#[test]
fn standard_loses_one_before_the_date() {
    assert_eq!((9, 19), one_day(&DefaultUpdate, 10, 20));
    assert_eq!((0, 19), one_day(&DefaultUpdate, 1, 20));
}

#[test]
fn standard_loses_two_past_the_date() {
    assert_eq!((-1, 4), one_day(&DefaultUpdate, 0, 6));
    assert_eq!((-8, 18), one_day(&DefaultUpdate, -7, 20));
}

#[test]
fn standard_stops_at_the_floor() {
    assert_eq!((4, 0), one_day(&DefaultUpdate, 5, 0));
    assert_eq!((4, 0), one_day(&DefaultUpdate, 5, 1));
    assert_eq!((-1, 0), one_day(&DefaultUpdate, 0, 1));
    assert_eq!((-1, 0), one_day(&DefaultUpdate, 0, 2));
    assert_eq!((-1, 0), one_day(&DefaultUpdate, 0, 0));
}

#[test]
fn standard_leaves_a_quality_under_the_floor_alone() {
    assert_eq!((4, -3), one_day(&DefaultUpdate, 5, -3));
    assert_eq!((-1, -3), one_day(&DefaultUpdate, 0, -3));
}

#[test]
fn standard_degrades_a_quality_over_the_cap() {
    assert_eq!((9, 79), one_day(&DefaultUpdate, 10, 80));
    assert_eq!((-1, 78), one_day(&DefaultUpdate, 0, 80));
}

#[test]
fn aged_cheese_gains_one_before_the_date() {
    assert_eq!((1, 1), one_day(&AgedBrieUpdate, 2, 0));
    assert_eq!((0, 11), one_day(&AgedBrieUpdate, 1, 10));
}

#[test]
fn aged_cheese_gains_two_past_the_date() {
    assert_eq!((-1, 12), one_day(&AgedBrieUpdate, 0, 10));
    assert_eq!((-5, 50), one_day(&AgedBrieUpdate, -4, 48));
}

#[test]
fn aged_cheese_stops_at_the_cap() {
    assert_eq!((4, 50), one_day(&AgedBrieUpdate, 5, 50));
    assert_eq!((4, 50), one_day(&AgedBrieUpdate, 5, 49));
    assert_eq!((-1, 50), one_day(&AgedBrieUpdate, 0, 49));
    assert_eq!((-1, 50), one_day(&AgedBrieUpdate, 0, 50));
    assert_eq!((-1, 60), one_day(&AgedBrieUpdate, 0, 60));
}

#[test]
fn legendary_is_never_touched() {
    assert_eq!((0, 80), one_day(&EmptyUpdate, 0, 80));
    assert_eq!((-1, 80), one_day(&EmptyUpdate, -1, 80));
    assert_eq!((i32::MIN, i32::MAX), one_day(&EmptyUpdate, i32::MIN, i32::MAX));
    assert_eq!((i32::MAX, i32::MIN), one_day(&EmptyUpdate, i32::MAX, i32::MIN));
}

#[test]
fn legendary_keeps_its_numbers_over_many_days() {
    let mut holder =
        ItemHolderFactory::create_item_holder(ItemType::SulfurasHandOfRagnaros, -1, 80);
    for _ in 0..1000 {
        holder.update_item();
        assert_eq!((-1, 80), numbers(&holder.item));
    }
}

#[test]
fn ticket_gains_one_far_from_the_event() {
    assert_eq!((14, 21), one_day(&BackstgeUpdate, 15, 20));
    assert_eq!((10, 21), one_day(&BackstgeUpdate, 11, 20));
}

#[test]
fn ticket_gains_two_within_ten_days() {
    assert_eq!((9, 22), one_day(&BackstgeUpdate, 10, 20));
    assert_eq!((5, 22), one_day(&BackstgeUpdate, 6, 20));
}

#[test]
fn ticket_gains_three_within_five_days() {
    assert_eq!((4, 23), one_day(&BackstgeUpdate, 5, 20));
    assert_eq!((0, 23), one_day(&BackstgeUpdate, 1, 20));
}

#[test]
fn ticket_stops_at_the_cap() {
    assert_eq!((4, 50), one_day(&BackstgeUpdate, 5, 49));
    assert_eq!((4, 50), one_day(&BackstgeUpdate, 5, 48));
    assert_eq!((4, 50), one_day(&BackstgeUpdate, 5, 47));
    assert_eq!((9, 50), one_day(&BackstgeUpdate, 10, 49));
    assert_eq!((14, 50), one_day(&BackstgeUpdate, 15, 50));
    assert_eq!((14, 70), one_day(&BackstgeUpdate, 15, 70));
}

#[test]
fn ticket_is_worth_nothing_after_the_event() {
    assert_eq!((-1, 0), one_day(&BackstgeUpdate, 0, 20));
    assert_eq!((-1, 0), one_day(&BackstgeUpdate, 0, 50));
    assert_eq!((-3, 0), one_day(&BackstgeUpdate, -2, 70));
    assert_eq!((-3, 0), one_day(&BackstgeUpdate, -2, -5));
}

#[test]
fn conjured_degrades_like_standard() {
    for sell_in in -3..4 {
        for quality in -2..55 {
            let mut conjured =
                ItemHolderFactory::create_item_holder(ItemType::ConjuredManaCake, sell_in, quality);
            conjured.update_item();
            assert_eq!(one_day(&DefaultUpdate, sell_in, quality), numbers(&conjured.item));
        }
    }
}

#[test]
fn conjured_after_thirty_days() {
    let mut holder = ItemHolderFactory::create_item_holder(ItemType::ConjuredManaCake, 3, 6);
    for _ in 0..30 {
        holder.update_item();
    }
    assert_eq!((-27, 0), numbers(&holder.item));
}

#[test]
fn quality_stays_between_floor_and_cap() {
    for index in 0..6 {
        if index == 3 {
            continue;
        }
        for sell_in in -3..20 {
            for quality in QUALITY_FLOOR..=QUALITY_CAP {
                let mut holder = holder_of(index, sell_in, quality);
                for _ in 0..60 {
                    holder.update_item();
                    assert!(QUALITY_FLOOR <= holder.item.quality);
                    assert!(holder.item.quality <= QUALITY_CAP);
                }
            }
        }
    }
}

#[test]
fn quality_brought_within_bounds_stays_there() {
    let mut holder = ItemHolderFactory::create_item_holder(ItemType::DexterityVext, 0, 52);
    for _ in 0..40 {
        holder.update_item();
        assert!(0 <= holder.item.quality && holder.item.quality <= 50);
    }
    assert_eq!((-40, 0), numbers(&holder.item));
}

#[test]
fn days_left_go_down_without_end() {
    for index in 0..6 {
        if index == 3 {
            continue;
        }
        let mut holder = holder_of(index, 2, 10);
        for day in 1..=100 {
            holder.update_item();
            assert_eq!(2 - day, holder.item.sell_in);
        }
    }
}

#[test]
fn factory_binds_each_type_to_its_rule() {
    let expected = [
        ("+5 Dexterity Vest", Policy::Standard),
        ("Aged Brie", Policy::AgedCheese),
        ("Elixir of the Mongoose", Policy::Standard),
        ("Sulfuras, Hand of Ragnaros", Policy::Legendary),
        ("Backstage passes to a TAFKAL80ETC concert", Policy::EventTicket),
        ("Conjured Mana Cake", Policy::Conjured),
    ];
    for (index, (name, policy)) in expected.iter().enumerate() {
        let holder = holder_of(index, 7, 9);
        assert_eq!(*name, holder.item.name);
        assert_eq!(*name, holder.item().name);
        assert_eq!(*policy, holder.policy());
        assert_eq!((7, 9), numbers(holder.item()));
    }
}

#[test]
fn update_keeps_name_and_rule() {
    let mut holder =
        ItemHolderFactory::create_item_holder(ItemType::BackstagePassesTAFKAL80ETCConcert, 1, 9);
    holder.update_item();
    holder.update_item();
    assert_eq!("Backstage passes to a TAFKAL80ETC concert", holder.item.name);
    assert_eq!(Policy::EventTicket, holder.policy());
    assert_eq!((-1, 0), numbers(&holder.item));
}

#[test]
fn can_update_until_the_days_run_out_of_range() {
    for index in 0..6 {
        let legendary = index == 3;
        assert!(holder_of(index, i32::MIN + 1, 10).can_update());
        assert_eq!(legendary, holder_of(index, i32::MIN, 10).can_update());
        assert!(holder_of(index, i32::MAX, i32::MAX).can_update());
        assert!(holder_of(index, i32::MAX, i32::MIN).can_update());
    }
}

#[test]
fn last_possible_day() {
    let mut holder =
        ItemHolderFactory::create_item_holder(ItemType::AgedBrie, i32::MIN + 1, i32::MIN);
    assert!(holder.can_update());
    holder.update_item();
    assert_eq!((i32::MIN, i32::MIN + 2), numbers(&holder.item));
    assert!(!holder.can_update());
}

#[test]
fn shop_can_update_when_every_item_can() {
    let shop = GildedRose::new(vec![holder_of(0, 1, 1), holder_of(3, i32::MIN, 80)]);
    assert!(shop.can_update());
    let shop = GildedRose::new(vec![holder_of(0, 1, 1), holder_of(1, i32::MIN, 8)]);
    assert!(!shop.can_update());
    let shop = GildedRose::new(vec![holder_of(1, i32::MIN, 8), holder_of(0, 1, 1)]);
    assert!(!shop.can_update());
    assert!(GildedRose::new(Vec::new()).can_update());
}

#[test]
fn shop_updates_every_item_in_place() {
    let mut shop = GildedRose::new(vec![
        holder_of(5, 0, 6),
        holder_of(3, 0, 80),
        holder_of(1, 0, 6),
        holder_of(4, 3, 6),
        holder_of(0, 3, 6),
    ]);
    shop.update_quality();
    assert_eq!(5, shop.item_holders.len());
    assert_eq!("Conjured Mana Cake", shop.item_holders[0].item.name);
    assert_eq!((-1, 4), numbers(&shop.item_holders[0].item));
    assert_eq!("Sulfuras, Hand of Ragnaros", shop.item_holders[1].item.name);
    assert_eq!((0, 80), numbers(&shop.item_holders[1].item));
    assert_eq!("Aged Brie", shop.item_holders[2].item.name);
    assert_eq!((-1, 8), numbers(&shop.item_holders[2].item));
    assert_eq!("Backstage passes to a TAFKAL80ETC concert", shop.item_holders[3].item.name);
    assert_eq!((2, 9), numbers(&shop.item_holders[3].item));
    assert_eq!("+5 Dexterity Vest", shop.item_holders[4].item.name);
    assert_eq!((2, 5), numbers(&shop.item_holders[4].item));
}

#[test]
fn empty_shop_updates_to_itself() {
    let mut shop = GildedRose::new(Vec::new());
    shop.update_quality();
    assert!(shop.item_holders.is_empty());
}
