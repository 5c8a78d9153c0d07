//! Orders as the session hands them out.
//!
//! An order is either the session's own (`Owned`) or somebody's (`Unowned`).
//! Only an owned order can be changed, and only an authenticated session makes
//! owned orders.

use crate::types::item::{Order as OrderItem, OrderType};
use std::marker::PhantomData;
use vstd::prelude::*;

verus! {

/// Marks an order of the session's own account.
#[derive(Debug)]
pub struct Owned;

/// Marks an order whose owner is not known to be the session's account.
#[derive(Debug, Clone)]
pub struct Unowned;

/// An order, with its ownership in the type.
#[derive(Debug)]
pub struct Order<State = Unowned> {
    pub(crate) object: OrderItem,
    _state: PhantomData<State>,
}

/// A moment in time: whole seconds since 1970-01-01 00:00:00 UTC, and the
/// nanoseconds into that second.
#[derive(Debug, Clone, Copy, PartialEq, Eq, Structural)]
pub struct Timestamp {
    pub seconds: i64,
    pub nanos: u32,
}

/// The moment that `chrono` reads from a text in its relaxed RFC 3339 form, as
/// seconds and nanoseconds; nothing for a text that it rejects.
pub uninterp spec fn instant_of(text: Seq<char>) -> Option<(i64, u32)>;

/// Parses `text` with the `FromStr` of `chrono::DateTime<Utc>` and hands out the
/// moment by `timestamp()` and `timestamp_subsec_nanos()`. The contract only
/// names the result: the same text gives the same moment.
#[verifier::external_body]
fn parse_instant(text: &str) -> (parsed: Option<(i64, u32)>)
    ensures
        parsed == instant_of(text@),
{
    text.parse::<chrono::DateTime<chrono::Utc>>().ok().map(
        |moment| (moment.timestamp(), moment.timestamp_subsec_nanos()),
    )
}

/// The moment of a parsed text, or the start of 1970 where the text was rejected.
pub open spec fn moment_or_epoch(parsed: Option<(i64, u32)>) -> Timestamp {
    match parsed {
        Some((seconds, nanos)) => Timestamp { seconds, nanos },
        None => Timestamp { seconds: 0, nanos: 0 },
    }
}

impl Timestamp {
    /// The moment of a parsed text, or the start of 1970 where the text was rejected.
    pub fn or_epoch(parsed: Option<(i64, u32)>) -> (moment: Timestamp)
        ensures
            moment == moment_or_epoch(parsed),
    {
        match parsed {
            Some((seconds, nanos)) => Timestamp { seconds, nanos },
            None => Timestamp { seconds: 0, nanos: 0 },
        }
    }

    /// Reads a moment from `text`; the start of 1970 where the text is no date.
    pub fn parse(text: &str) -> (moment: Timestamp)
        ensures
            moment == moment_or_epoch(instant_of(text@)),
    {
        Timestamp::or_epoch(parse_instant(text))
    }
}

impl<State> View for Order<State> {
    type V = OrderItem;

    closed spec fn view(&self) -> OrderItem {
        self.object
    }
}

impl<State> Clone for Order<State> {
    fn clone(&self) -> (copy: Self)
        ensures
            copy@ == self@,
    {
        Order { object: self.object.clone(), _state: PhantomData }
    }
}

impl<State> Order<State> {
    /// The identifier of the order.
    pub fn get_id(&self) -> (id: String)
        ensures
            id == self@.id,
    {
        self.object.id.clone()
    }

    /// The record of the order.
    pub fn get_type(&self) -> (record: OrderItem)
        ensures
            record == self@,
    {
        self.object.clone()
    }

    /// The price.
    pub fn get_platinum(&self) -> (platinum: u32)
        ensures
            platinum == self@.platinum,
    {
        self.object.platinum
    }

    /// When the order was last changed; the start of 1970 where the record
    /// holds no date.
    pub fn updated_at(&self) -> (moment: Timestamp)
        ensures
            moment == moment_or_epoch(instant_of(self@.updated_at@)),
    {
        Timestamp::parse(self.object.updated_at.as_str())
    }

    /// When the order was created; the start of 1970 where the record holds
    /// no date.
    pub fn created_at(&self) -> (moment: Timestamp)
        ensures
            moment == moment_or_epoch(instant_of(self@.created_at@)),
    {
        Timestamp::parse(self.object.created_at.as_str())
    }

    /// Whether other players see the order.
    pub fn get_visible(&self) -> (visible: bool)
        ensures
            visible == self@.visible,
    {
        self.object.visible
    }

    /// The side of the order.
    pub fn get_sell_type(&self) -> (side: OrderType)
        ensures
            side == self@.order_type,
    {
        self.object.order_type
    }
}

impl Order<Unowned> {
    /// An order of unknown ownership with the given record.
    pub fn new(order: &OrderItem) -> (made: Order<Unowned>)
        ensures
            made@ == *order,
    {
        Order { object: order.clone(), _state: PhantomData }
    }
}

impl Order<Owned> {
    /// An order of the session's own account with the given record. It is for
    /// records that the service returned for that account.
    pub fn new_owned(order: &OrderItem) -> (made: Order<Owned>)
        ensures
            made@ == *order,
    {
        Order { object: order.clone(), _state: PhantomData }
    }
}

} // verus!
