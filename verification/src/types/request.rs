//! What the client sends to create or change an order.

use crate::types::item::OrderType;
use vstd::prelude::*;

verus! {

/// The fields of an order that can be changed; an absent field stays as it is.
#[derive(Debug, Default, PartialEq, Eq)]
pub struct OrderUpdateParams {
    pub platinum: Option<u32>,
    pub quantity: Option<u32>,
    pub per_trade: Option<u32>,
    pub rank: Option<u32>,
    pub visible: Option<bool>,
}

/// A new order.
#[derive(Debug, PartialEq, Eq)]
pub struct OrderCreationRequest {
    pub item_id: String,
    pub order_type: OrderType,
    pub platinum: i32,
    pub quantity: i32,
    pub visible: bool,
    /// The least number of items per trade.
    pub per_trade: Option<i32>,
    /// The rank, for a mod.
    pub rank: Option<u8>,
    /// The charges left, for a mod that has charges.
    pub charges: Option<u8>,
    /// The variant, for an item that has variants.
    pub subtype: Option<String>,
    /// The amber stars installed, for a sculpture.
    pub amber_stars: Option<u32>,
    /// The cyan stars installed, for a sculpture.
    pub cyan_stars: Option<u32>,
}

impl OrderCreationRequest {
    /// An order for a plain item: every optional field is absent.
    pub fn new(item_id: &str, order_type: OrderType, platinum: i32, quantity: i32, visible: bool) -> (request:
        OrderCreationRequest)
        ensures
            request.item_id@ == item_id@,
            request.order_type == order_type,
            request.platinum == platinum,
            request.quantity == quantity,
            request.visible == visible,
            request.per_trade is None,
            request.rank is None,
            request.charges is None,
            request.subtype is None,
            request.amber_stars is None,
            request.cyan_stars is None,
    {
        OrderCreationRequest {
            item_id: item_id.to_owned(),
            order_type,
            platinum,
            quantity,
            visible,
            per_trade: None,
            rank: None,
            charges: None,
            subtype: None,
            amber_stars: None,
            cyan_stars: None,
        }
    }

    /// The same order for a mod of the given rank.
    pub fn with_mods(self, rank: u8) -> (request: OrderCreationRequest)
        ensures
            request == (OrderCreationRequest { rank: Some(rank), ..self }),
    {
        let mut request = self;
        request.rank = Some(rank);
        request
    }

    /// The same order for the given variant.
    pub fn with_subtype(self, subtype: String) -> (request: OrderCreationRequest)
        ensures
            request == (OrderCreationRequest { subtype: Some(subtype), ..self }),
    {
        let mut request = self;
        request.subtype = Some(subtype);
        request
    }

    /// The same order for a sculpture with the given stars installed.
    pub fn with_ayatans(self, amber_stars: u32, cyan_stars: u32) -> (request: OrderCreationRequest)
        ensures
            request == (OrderCreationRequest {
                amber_stars: Some(amber_stars),
                cyan_stars: Some(cyan_stars),
                ..self
            }),
    {
        let mut request = self;
        request.amber_stars = Some(amber_stars);
        request.cyan_stars = Some(cyan_stars);
        request
    }

    /// The same order for a mod with the given charges left.
    pub fn with_charges(self, charges: u8) -> (request: OrderCreationRequest)
        ensures
            request == (OrderCreationRequest { charges: Some(charges), ..self }),
    {
        let mut request = self;
        request.charges = Some(charges);
        request
    }

    /// The same order with a least number of items per trade.
    pub fn with_per_trade(self, per_trade: i32) -> (request: OrderCreationRequest)
        ensures
            request == (OrderCreationRequest { per_trade: Some(per_trade), ..self }),
    {
        let mut request = self;
        request.per_trade = Some(per_trade);
        request
    }
}

} // verus!
