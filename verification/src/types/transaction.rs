//! Transactions: what closing an order, or a part of it, leaves behind.

use crate::text::clone_optional_text;
use crate::types::user::MinimalUser;
use vstd::prelude::*;

verus! {

/// The side of the trade.
#[derive(Debug, Clone, Copy, PartialEq, Eq, Structural)]
pub enum OrderType {
    Buy,
    Sell,
}

/// A closed trade.
#[derive(Debug, PartialEq, Eq)]
pub struct Transaction {
    pub id: String,
    pub order_type: String,
    pub origin_id: String,
    pub platinum: i32,
    pub quantity: i32,
    pub created_at: String,
    pub updated_at: String,
    pub item: TransactionItem,
}

/// What was traded.
#[derive(Debug, PartialEq, Eq)]
pub struct TransactionItem {
    pub id: String,
    pub rank: Option<i32>,
    pub charges: Option<i32>,
    pub subtype: Option<String>,
    pub amber_stars: Option<i32>,
    pub cyan_stars: Option<i32>,
}

impl Clone for TransactionItem {
    fn clone(&self) -> (copy: Self)
        ensures
            copy == *self,
    {
        TransactionItem {
            id: self.id.clone(),
            rank: self.rank,
            charges: self.charges,
            subtype: clone_optional_text(&self.subtype),
            amber_stars: self.amber_stars,
            cyan_stars: self.cyan_stars,
        }
    }
}

impl Clone for Transaction {
    fn clone(&self) -> (copy: Self)
        ensures
            copy == *self,
    {
        Transaction {
            id: self.id.clone(),
            order_type: self.order_type.clone(),
            origin_id: self.origin_id.clone(),
            platinum: self.platinum,
            quantity: self.quantity,
            created_at: self.created_at.clone(),
            updated_at: self.updated_at.clone(),
            item: self.item.clone(),
        }
    }
}

/// A transaction together with the other party.
#[derive(Debug, PartialEq, Eq)]
pub struct TransactionWithUser {
    pub transaction: Transaction,
    pub user: MinimalUser,
}

impl TransactionWithUser {
    /// The transaction alone, without the other party.
    pub fn downgrade(&self) -> (transaction: Transaction)
        ensures
            transaction == self.transaction,
    {
        self.transaction.clone()
    }
}

} // verus!
