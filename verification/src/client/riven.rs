//! Rivens as the session hands them out.

use crate::text::same_text;
use crate::types::riven::{Riven as RivenRecord, RivenView};
use vstd::prelude::*;

verus! {

/// The language whose names are shown.
pub const DISPLAY_LANGUAGE: &'static str = "en";

/// A riven.
#[derive(Debug, Clone)]
pub struct Riven {
    object: RivenRecord,
}

/// The name under the first entry of the given language; empty without one.
pub open spec fn name_in(
    entries: Seq<(String, crate::types::riven::RivenTranslation)>,
    language: Seq<char>,
) -> Seq<char>
    decreases entries.len(),
{
    if entries.len() == 0 {
        Seq::empty()
    } else if entries[0].0@ == language {
        entries[0].1.name@
    } else {
        name_in(entries.drop_first(), language)
    }
}

impl Riven {
    /// The record of the riven.
    pub closed spec fn record(&self) -> RivenView {
        self.object@
    }

    /// A riven with the given record.
    pub fn new(object: &RivenRecord) -> (riven: Riven)
        ensures
            riven.record() == object@,
    {
        Riven { object: object.clone() }
    }

    /// The record of the riven.
    pub fn get_type(&self) -> (record: RivenRecord)
        ensures
            record@ == self.record(),
    {
        self.object.clone()
    }

    /// The slug of the riven.
    pub fn get_slug(&self) -> (slug: String)
        ensures
            slug == self.record().slug,
    {
        self.object.slug.clone()
    }

    /// The English name of the riven; empty where the record has none.
    pub fn get_name(&self) -> (name: String)
        ensures
            name@ == name_in(self.record().i18n, DISPLAY_LANGUAGE@),
    {
        let entries = &self.object.i18n;
        let mut i: usize = 0;
        assert(entries@.skip(0) =~= entries@);
        while i < entries.len()
            invariant
                i <= entries.len(),
                entries == &self.object.i18n,
                name_in(entries@, DISPLAY_LANGUAGE@) == name_in(
                    entries@.skip(i as int),
                    DISPLAY_LANGUAGE@,
                ),
            decreases entries.len() - i,
        {
            assert(entries@.skip(i as int).drop_first() =~= entries@.skip(i + 1));
            if same_text(entries[i].0.as_str(), DISPLAY_LANGUAGE) {
                return entries[i].1.name.clone();
            }
            i += 1;
        }
        assert(entries@.skip(entries.len() as int) =~= Seq::empty());
        String::new()
    }
}

} // verus!
