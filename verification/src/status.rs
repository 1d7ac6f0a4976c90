//! The overall status of the activity.

use vstd::prelude::*;

use crate::languages::{phoneme_total, total_phoneme_count_of, Language};

verus! {

/// The overall status: how many languages are finished, and the languages of Wikidata.
pub struct MainStatus {
    pub finished_languages: i32,
    pub wikidata_languages: Vec<Language>,
}

impl MainStatus {
    /// The status from the sum of the finished flags of the status table, which is
    /// absent when the table is empty, and the languages of Wikidata.
    pub fn new(finished: Option<i32>, wikidata_languages: Vec<Language>) -> (r: MainStatus)
        ensures
            r.finished_languages == match finished {
                Some(n) => n,
                None => 0,
            },
            r.wikidata_languages@ == wikidata_languages@,
    {
        let finished_languages = match finished {
            Some(n) => n,
            None => 0,
        };
        MainStatus { finished_languages, wikidata_languages }
    }

    /// The number of languages of Wikidata.
    pub fn wikidata_count(&self) -> (r: usize)
        ensures
            r == self.wikidata_languages@.len(),
    {
        self.wikidata_languages.len()
    }

    /// The number of phonemes of all languages of Wikidata together.
    pub fn wikidata_phoneme_count(&self) -> (r: u32)
        requires
            phoneme_total(self.wikidata_languages@) <= u32::MAX,
        ensures
            r == phoneme_total(self.wikidata_languages@),
    {
        total_phoneme_count_of(&self.wikidata_languages)
    }
}

} // verus!
