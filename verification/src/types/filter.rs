//! Filters for the best orders of an item.

use crate::text::{clone_optional_text, decimal, decimal_text, fields_view};
use crate::types::user::StatusType;
use vstd::prelude::*;

verus! {

/// What the best orders are narrowed by. The numeric filters and the variant
/// go to the service in the query; the activity of the author is applied to
/// the answer.
#[derive(Debug, Default, PartialEq, Eq)]
pub struct OrdersTopFilters {
    pub rank: Option<u32>,
    pub rank_lt: Option<u32>,
    pub charges: Option<u32>,
    pub charges_lt: Option<u32>,
    pub amber_stars: Option<u32>,
    pub amber_stars_lt: Option<u32>,
    pub cyan_stars: Option<u32>,
    pub cyan_stars_lt: Option<u32>,
    pub subtype: Option<String>,
    pub user_activity: Option<StatusType>,
}

impl Clone for OrdersTopFilters {
    fn clone(&self) -> (copy: Self)
        ensures
            copy == *self,
    {
        OrdersTopFilters {
            rank: self.rank,
            rank_lt: self.rank_lt,
            charges: self.charges,
            charges_lt: self.charges_lt,
            amber_stars: self.amber_stars,
            amber_stars_lt: self.amber_stars_lt,
            cyan_stars: self.cyan_stars,
            cyan_stars_lt: self.cyan_stars_lt,
            subtype: clone_optional_text(&self.subtype),
            user_activity: self.user_activity,
        }
    }
}

/// The query field of a numeric filter: nothing when the filter is absent.
pub open spec fn number_field(name: Seq<char>, value: Option<u32>) -> Seq<(Seq<char>, Seq<char>)> {
    match value {
        Some(value) => seq![(name, decimal(value as nat))],
        None => Seq::empty(),
    }
}

/// The query field of a text filter: nothing when the filter is absent.
pub open spec fn text_field(name: Seq<char>, value: Option<String>) -> Seq<(Seq<char>, Seq<char>)> {
    match value {
        Some(value) => seq![(name, value@)],
        None => Seq::empty(),
    }
}

impl OrdersTopFilters {
    /// The query fields, in the order in which the filters are declared; absent
    /// filters leave no field, and the activity of the author is never sent.
    pub open spec fn query_fields(&self) -> Seq<(Seq<char>, Seq<char>)> {
        number_field("rank"@, self.rank) + number_field("rankLt"@, self.rank_lt) + number_field(
            "charges"@,
            self.charges,
        ) + number_field("chargesLt"@, self.charges_lt) + number_field(
            "amberStars"@,
            self.amber_stars,
        ) + number_field("amberStarsLt"@, self.amber_stars_lt) + number_field(
            "cyanStars"@,
            self.cyan_stars,
        ) + number_field("cyanStarsLt"@, self.cyan_stars_lt) + text_field("subtype"@, self.subtype)
    }

    /// Builds the query fields.
    pub fn query_pairs(&self) -> (pairs: Vec<(String, String)>)
        ensures
            fields_view(pairs@) == self.query_fields(),
    {
        let mut pairs: Vec<(String, String)> = Vec::new();
        push_number(&mut pairs, "rank", self.rank);
        push_number(&mut pairs, "rankLt", self.rank_lt);
        push_number(&mut pairs, "charges", self.charges);
        push_number(&mut pairs, "chargesLt", self.charges_lt);
        push_number(&mut pairs, "amberStars", self.amber_stars);
        push_number(&mut pairs, "amberStarsLt", self.amber_stars_lt);
        push_number(&mut pairs, "cyanStars", self.cyan_stars);
        push_number(&mut pairs, "cyanStarsLt", self.cyan_stars_lt);
        match &self.subtype {
            Some(subtype) => {
                pairs.push(("subtype".to_owned(), subtype.clone()));
                assert(fields_view(pairs@) =~= self.query_fields());
            },
            None => {
                assert(fields_view(pairs@) =~= self.query_fields());
            },
        }
        pairs
    }
}

/// Appends the query field of a numeric filter.
fn push_number(pairs: &mut Vec<(String, String)>, name: &str, value: Option<u32>)
    ensures
        fields_view(final(pairs)@) == fields_view(old(pairs)@)
            + number_field(name@, value),
{
    match value {
        Some(value) => {
            pairs.push((name.to_owned(), decimal_text(value)));
            assert(fields_view(pairs@) =~= fields_view(old(pairs)@)
                + number_field(name@, Some(value)));
        },
        None => {
            assert(fields_view(pairs@) =~= fields_view(old(pairs)@)
                + number_field(name@, None));
        },
    }
}

} // verus!
