//! Daily stock keeping for a small shop: every item carries the days left to
//! sell it and a quality, and each day both move by the rule of the item's kind.

pub mod forecast;
pub mod gildedrose;
pub mod listing;
pub mod update_strategy;
