//! Items and orders, as the service lists them.

use crate::text::{clone_optional_text, clone_texts};
use crate::types::user::MinimalUser;
use vstd::prelude::*;

verus! {

/// The side of an order.
#[derive(Debug, Clone, Copy, PartialEq, Eq, Structural)]
pub enum OrderType {
    Buy,
    Sell,
}

/// An order.
#[derive(Debug, PartialEq, Eq)]
pub struct Order {
    pub id: String,
    pub order_type: OrderType,
    /// The price.
    pub platinum: u32,
    pub quantity: u32,
    /// The number of items per trade.
    pub per_trade: Option<u8>,
    /// The variant of the item, where it has variants.
    pub subtype: Option<String>,
    /// The rank, for a mod.
    pub rank: Option<u8>,
    /// The charges left, for a mod that has charges.
    pub charges: Option<u8>,
    /// The amber stars installed, for a sculpture.
    pub amber_stars: Option<u8>,
    /// The cyan stars installed, for a sculpture.
    pub cyan_stars: Option<u8>,
    /// Whether other players see the order.
    pub visible: bool,
    pub item_id: String,
    /// When the order was created, as the service wrote it.
    pub created_at: String,
    /// When the order was last changed, as the service wrote it.
    pub updated_at: String,
}

impl Clone for Order {
    fn clone(&self) -> (copy: Self)
        ensures
            copy == *self,
    {
        Order {
            id: self.id.clone(),
            order_type: self.order_type,
            platinum: self.platinum,
            quantity: self.quantity,
            per_trade: self.per_trade,
            subtype: clone_optional_text(&self.subtype),
            rank: self.rank,
            charges: self.charges,
            amber_stars: self.amber_stars,
            cyan_stars: self.cyan_stars,
            visible: self.visible,
            item_id: self.item_id.clone(),
            created_at: self.created_at.clone(),
            updated_at: self.updated_at.clone(),
        }
    }
}

/// The names of an item in one language.
#[derive(Debug, PartialEq, Eq)]
pub struct ItemTranslation {
    pub name: String,
    pub description: Option<String>,
    pub wiki_link: Option<String>,
    pub icon: String,
}

impl Clone for ItemTranslation {
    fn clone(&self) -> (copy: Self)
        ensures
            copy == *self,
    {
        ItemTranslation {
            name: self.name.clone(),
            description: clone_optional_text(&self.description),
            wiki_link: clone_optional_text(&self.wiki_link),
            icon: self.icon.clone(),
        }
    }
}

/// An item.
#[derive(Debug, PartialEq, Eq)]
pub struct Item {
    pub id: String,
    pub tags: Vec<String>,
    pub slug: String,
    pub tradable: Option<bool>,
    pub rarity: Option<String>,
    pub vaulted: Option<bool>,
    pub ducats: Option<u32>,
    /// The highest rank, for a mod.
    pub max_rank: Option<u32>,
    /// The most charges, for a mod that has charges.
    pub max_charges: Option<u32>,
    /// The amber sockets, for a sculpture.
    pub max_amber_stars: Option<u32>,
    /// The cyan sockets, for a sculpture.
    pub max_cyan_stars: Option<u32>,
    /// The endo of the empty sculpture.
    pub base_endo: Option<u32>,
    /// The endo multiplier of a sculpture, as the bits of a 32-bit IEEE 754 number.
    pub endo_multiplier_bits: Option<u32>,
    pub mastery_rank: Option<u32>,
    /// The translations, one entry per language code.
    pub i18n: Vec<(String, ItemTranslation)>,
}

/// The mathematical content of an `Item`: the lists are sequences.
pub struct ItemView {
    pub id: String,
    pub tags: Seq<String>,
    pub slug: String,
    pub tradable: Option<bool>,
    pub rarity: Option<String>,
    pub vaulted: Option<bool>,
    pub ducats: Option<u32>,
    pub max_rank: Option<u32>,
    pub max_charges: Option<u32>,
    pub max_amber_stars: Option<u32>,
    pub max_cyan_stars: Option<u32>,
    pub base_endo: Option<u32>,
    pub endo_multiplier_bits: Option<u32>,
    pub mastery_rank: Option<u32>,
    pub i18n: Seq<(String, ItemTranslation)>,
}

impl View for Item {
    type V = ItemView;

    open spec fn view(&self) -> ItemView {
        ItemView {
            id: self.id,
            tags: self.tags@,
            slug: self.slug,
            tradable: self.tradable,
            rarity: self.rarity,
            vaulted: self.vaulted,
            ducats: self.ducats,
            max_rank: self.max_rank,
            max_charges: self.max_charges,
            max_amber_stars: self.max_amber_stars,
            max_cyan_stars: self.max_cyan_stars,
            base_endo: self.base_endo,
            endo_multiplier_bits: self.endo_multiplier_bits,
            mastery_rank: self.mastery_rank,
            i18n: self.i18n@,
        }
    }
}

/// Copies a list of translations.
fn clone_translations(entries: &Vec<(String, ItemTranslation)>) -> (copy: Vec<
    (String, ItemTranslation),
>)
    ensures
        copy@ == entries@,
{
    let mut copy: Vec<(String, ItemTranslation)> = Vec::new();
    let mut i: usize = 0;
    while i < entries.len()
        invariant
            i <= entries.len(),
            copy@ == entries@.take(i as int),
        decreases entries.len() - i,
    {
        let entry = &entries[i];
        copy.push((entry.0.clone(), entry.1.clone()));
        assert(entries@.take(i + 1) =~= entries@.take(i as int).push(entries@[i as int]));
        i += 1;
    }
    assert(entries@.take(entries.len() as int) =~= entries@);
    copy
}

impl Clone for Item {
    fn clone(&self) -> (copy: Self)
        ensures
            copy@ == self@,
    {
        Item {
            id: self.id.clone(),
            tags: clone_texts(&self.tags),
            slug: self.slug.clone(),
            tradable: self.tradable,
            rarity: clone_optional_text(&self.rarity),
            vaulted: self.vaulted,
            ducats: self.ducats,
            max_rank: self.max_rank,
            max_charges: self.max_charges,
            max_amber_stars: self.max_amber_stars,
            max_cyan_stars: self.max_cyan_stars,
            base_endo: self.base_endo,
            endo_multiplier_bits: self.endo_multiplier_bits,
            mastery_rank: self.mastery_rank,
            i18n: clone_translations(&self.i18n),
        }
    }
}

/// An order together with its author.
#[derive(Debug, PartialEq, Eq)]
pub struct OrderWithUser {
    pub order: Order,
    pub user: MinimalUser,
}

impl OrderWithUser {
    /// The order alone, without its author.
    pub fn downgrade(&self) -> (order: Order)
        ensures
            order == self.order,
    {
        self.order.clone()
    }
}

/// The best orders for an item, by side.
#[derive(Debug, PartialEq, Eq)]
pub struct OrdersTopResult {
    pub buy: Vec<OrderWithUser>,
    pub sell: Vec<OrderWithUser>,
}

} // verus!
