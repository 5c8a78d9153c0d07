//! Items as the session hands them out: plain, or known to be a mod or a sculpture.

use crate::error::ApiError;
use crate::types::item::{Item as ItemType, ItemView};
use vstd::prelude::*;

verus! {

/// What is said when an item without sculpture data is taken for a sculpture.
pub const NOT_A_SCULPTURE: &'static str = "Item is not an Ayatan Sculpture";

/// What is said when an item without a rank is taken for a mod.
pub const NOT_A_MOD: &'static str = "Item is not a Mod";

/// Marks an item of which nothing more is known.
#[derive(Debug, Clone, Copy, PartialEq, Eq, Structural)]
pub struct Regular;

/// Marks a mod, with its highest rank.
#[derive(Debug, Clone, Copy, PartialEq, Eq, Structural)]
pub struct Mod {
    pub rank: u32,
}

/// Marks a sculpture, with its sockets and what its value is computed from.
#[derive(Debug, Clone, Copy, PartialEq, Eq, Structural)]
pub struct Sculpture {
    pub amber_stars: u32,
    pub cyan_stars: u32,
    pub base_endo: u32,
    /// The endo multiplier, as the bits of a 32-bit IEEE 754 number.
    pub endo_multiplier_bits: u32,
}

/// An item, with what is known of its kind in the type.
#[derive(Debug)]
pub struct Item<State = Regular> {
    object: ItemType,
    state: State,
}

/// The number of sockets of a colour: none where the record names none.
pub open spec fn sockets(declared: Option<u32>) -> u32 {
    match declared {
        Some(count) => count,
        None => 0,
    }
}

/// The sculpture data of a record, where it has both the base endo and the multiplier.
pub open spec fn sculpture_of(record: ItemView) -> Option<Sculpture> {
    match (record.base_endo, record.endo_multiplier_bits) {
        (Some(base_endo), Some(endo_multiplier_bits)) => Some(
            Sculpture {
                amber_stars: sockets(record.max_amber_stars),
                cyan_stars: sockets(record.max_cyan_stars),
                base_endo,
                endo_multiplier_bits,
            },
        ),
        _ => None,
    }
}

impl<State> Item<State> {
    /// The record of the item.
    pub closed spec fn record(&self) -> ItemView {
        self.object@
    }

    /// What is known of the item's kind.
    pub closed spec fn kind(&self) -> State {
        self.state
    }

    /// The record of the item.
    pub fn get_type(&self) -> (record: ItemType)
        ensures
            record@ == self.record(),
    {
        self.object.clone()
    }

    /// The slug of the item.
    pub fn get_slug(&self) -> (slug: String)
        ensures
            slug == self.record().slug,
    {
        self.object.slug.clone()
    }

    /// What is known of the item's kind.
    pub fn get_state(&self) -> (state: &State)
        ensures
            *state == self.kind(),
    {
        &self.state
    }
}

impl Clone for Item<Regular> {
    fn clone(&self) -> (copy: Self)
        ensures
            copy.record() == self.record(),
    {
        Item { object: self.object.clone(), state: Regular }
    }
}

impl Item<Regular> {
    /// A plain item with the given record.
    pub fn new(object: &ItemType) -> (item: Item<Regular>)
        ensures
            item.record() == object@,
    {
        Item { object: object.clone(), state: Regular }
    }

    /// The item as a sculpture. Fails with `ParsingError` exactly when the
    /// record lacks the base endo or the multiplier.
    pub fn to_sculpture(&self) -> (result: Result<Item<Sculpture>, ApiError>)
        ensures
            match sculpture_of(self.record()) {
                Some(sculpture) => result matches Ok(item) && item.record() == self.record()
                    && item.kind() == sculpture,
                None => result matches Err(ApiError::ParsingError(text)) && text@
                    == NOT_A_SCULPTURE@,
            },
    {
        let cyan_stars = match self.object.max_cyan_stars {
            Some(cyan) => cyan,
            None => 0,
        };
        let amber_stars = match self.object.max_amber_stars {
            Some(amber) => amber,
            None => 0,
        };
        match (self.object.base_endo, self.object.endo_multiplier_bits) {
            (Some(base_endo), Some(endo_multiplier_bits)) => Ok(
                Item {
                    object: self.object.clone(),
                    state: Sculpture { amber_stars, cyan_stars, base_endo, endo_multiplier_bits },
                },
            ),
            _ => Err(ApiError::ParsingError(NOT_A_SCULPTURE.to_owned())),
        }
    }

    /// Whether the record has the data of a sculpture.
    pub fn is_sculpture(&self) -> (yes: bool)
        ensures
            yes == sculpture_of(self.record()) is Some,
    {
        self.object.base_endo.is_some() && self.object.endo_multiplier_bits.is_some()
    }

    /// The item as a mod. Fails with `ParsingError` exactly when the record
    /// names no highest rank.
    pub fn to_mod(&self) -> (result: Result<Item<Mod>, ApiError>)
        ensures
            match self.record().max_rank {
                Some(rank) => result matches Ok(item) && item.record() == self.record()
                    && item.kind() == (Mod { rank }),
                None => result matches Err(ApiError::ParsingError(text)) && text@ == NOT_A_MOD@,
            },
    {
        match self.object.max_rank {
            Some(rank) => Ok(Item { object: self.object.clone(), state: Mod { rank } }),
            None => Err(ApiError::ParsingError(NOT_A_MOD.to_owned())),
        }
    }

    /// Whether the record names a highest rank.
    pub fn is_mod(&self) -> (yes: bool)
        ensures
            yes == self.record().max_rank is Some,
    {
        self.object.max_rank.is_some()
    }
}

} // verus!
