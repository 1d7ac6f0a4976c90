//! The languages of the activity and who works on them.

use vstd::prelude::*;

verus! {

/// A row of the activity's language table, joined with its status and working user.
pub struct LanguageRow {
    pub qid: String,
    pub en_label: String,
    pub wikipedia_url: String,
    pub is_finished: Option<bool>,
    pub working_user_username: String,
}

/// A language of the activity, as its list shows it.
pub struct Language {
    pub qid: String,
    pub en_label: String,
    pub wikipedia_url: String,
    pub is_finished: bool,
    pub working_user_username: String,
}

/// The language that a row shows: a language without a status is not finished.
pub open spec fn shown(row: LanguageRow, language: Language) -> bool {
    &&& language.qid@ == row.qid@
    &&& language.en_label@ == row.en_label@
    &&& language.wikipedia_url@ == row.wikipedia_url@
    &&& language.is_finished == (row.is_finished == Some(true))
    &&& language.working_user_username@ == row.working_user_username@
}

impl Language {
    /// The language that a row shows.
    pub fn from_row(row: LanguageRow) -> (r: Language)
        ensures
            shown(row, r),
    {
        let is_finished = match row.is_finished {
            Some(b) => b,
            None => false,
        };
        Language {
            qid: row.qid,
            en_label: row.en_label,
            wikipedia_url: row.wikipedia_url,
            is_finished,
            working_user_username: row.working_user_username,
        }
    }
}

/// The list of the activity's languages.
pub struct List {
    pub languages: Vec<Language>,
}

impl List {
    /// The list that shows the rows, in their order.
    pub fn from_rows(rows: Vec<LanguageRow>) -> (r: List)
        ensures
            r.languages@.len() == rows@.len(),
            forall|i: int| 0 <= i < rows@.len() ==> shown(rows@[i], #[trigger] r.languages@[i]),
    {
        let ghost original = rows@;
        let mut rows = rows;
        let mut languages: Vec<Language> = Vec::new();
        while rows.len() > 0
            invariant
                languages@.len() + rows@.len() == original.len(),
                rows@ == original.skip(languages@.len() as int),
                forall|i: int| 0 <= i < languages@.len() ==> shown(original[i], #[trigger] languages@[i]),
            decreases rows@.len(),
        {
            let ghost k = languages@.len() as int;
            let row = rows.remove(0);
            assert(row == original[k]);
            languages.push(Language::from_row(row));
            assert(rows@ =~= original.skip(k + 1));
        }
        List { languages }
    }
}

} // verus!
