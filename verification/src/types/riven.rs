//! Riven mods, as the service lists them.

use crate::text::clone_optional_text;
use vstd::prelude::*;

verus! {

/// The kind of weapon that a riven fits.
#[derive(Debug, Clone, Copy, PartialEq, Eq, Structural)]
pub enum RivenType {
    Kitgun,
    Melee,
    Pistol,
    Rifle,
    Shotgun,
    Zaw,
}

/// A riven.
#[derive(Debug, PartialEq, Eq)]
pub struct Riven {
    pub id: String,
    pub slug: String,
    pub game_ref: Option<String>,
    pub riven_type: RivenType,
    /// The disposition, as the bits of a 64-bit IEEE 754 number.
    pub disposition_bits: u64,
    pub req_mastery_rank: i8,
    /// The translations, one entry per language code.
    pub i18n: Vec<(String, RivenTranslation)>,
}

/// The names of a riven in one language.
#[derive(Debug, PartialEq, Eq)]
pub struct RivenTranslation {
    pub name: String,
    pub wiki_link: Option<String>,
    pub icon: String,
    pub thumb: String,
}

impl Clone for RivenTranslation {
    fn clone(&self) -> (copy: Self)
        ensures
            copy == *self,
    {
        RivenTranslation {
            name: self.name.clone(),
            wiki_link: clone_optional_text(&self.wiki_link),
            icon: self.icon.clone(),
            thumb: self.thumb.clone(),
        }
    }
}

/// The mathematical content of a `Riven`: the list is a sequence.
pub struct RivenView {
    pub id: String,
    pub slug: String,
    pub game_ref: Option<String>,
    pub riven_type: RivenType,
    pub disposition_bits: u64,
    pub req_mastery_rank: i8,
    pub i18n: Seq<(String, RivenTranslation)>,
}

impl View for Riven {
    type V = RivenView;

    open spec fn view(&self) -> RivenView {
        RivenView {
            id: self.id,
            slug: self.slug,
            game_ref: self.game_ref,
            riven_type: self.riven_type,
            disposition_bits: self.disposition_bits,
            req_mastery_rank: self.req_mastery_rank,
            i18n: self.i18n@,
        }
    }
}

impl Clone for Riven {
    fn clone(&self) -> (copy: Self)
        ensures
            copy@ == self@,
    {
        let mut i18n: Vec<(String, RivenTranslation)> = Vec::new();
        let mut i: usize = 0;
        while i < self.i18n.len()
            invariant
                i <= self.i18n.len(),
                i18n@ == self.i18n@.take(i as int),
            decreases self.i18n.len() - i,
        {
            let entry = &self.i18n[i];
            i18n.push((entry.0.clone(), entry.1.clone()));
            assert(self.i18n@.take(i + 1) =~= self.i18n@.take(i as int).push(self.i18n@[i as int]));
            i += 1;
        }
        assert(self.i18n@.take(self.i18n.len() as int) =~= self.i18n@);
        Riven {
            id: self.id.clone(),
            slug: self.slug.clone(),
            game_ref: clone_optional_text(&self.game_ref),
            riven_type: self.riven_type,
            disposition_bits: self.disposition_bits,
            req_mastery_rank: self.req_mastery_rank,
            i18n,
        }
    }
}

} // verus!
