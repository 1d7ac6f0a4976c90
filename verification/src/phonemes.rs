//! Phonemes as Wikidata lists them, and the queries that ask for them.

use vstd::prelude::*;

use crate::text::{replace, replace_all};
use crate::wikidata::{qid_text, WikiValue, WikidataQ};

verus! {

/// A phoneme item: its identifier, label, transcriptions and, if Wikidata has one, a recording.
pub struct Phoneme {
    pub q: WikidataQ,
    pub label: WikiValue<String>,
    pub transcriptions: WikiValue<String>,
    pub audio: Option<WikiValue<String>>,
}

/// The placeholder that a query template holds where the language goes.
pub open spec fn language_placeholder() -> Seq<char> {
    seq!['$', '1']
}

/// The query `template` with every placeholder `$1` replaced by the language's identifier.
pub open spec fn language_query_spec(template: Seq<char>, language: u32) -> Seq<char> {
    replace_all(template, language_placeholder(), qid_text(language))
}

impl Phoneme {
    /// The query of the phonemes of `language`: the template with each `$1`
    /// replaced by the language's identifier, such as `Q1860`.
    pub fn by_language_query(template: &str, language: &WikidataQ) -> (r: String)
        ensures
            r@ == language_query_spec(template@, language.0),
    {
        proof {
            reveal_strlit("$1");
        }
        assert("$1"@ =~= language_placeholder());
        let id = language.as_str();
        replace(template, "$1", id.as_str())
    }
}

/// Law: a template without the placeholder is sent as it is.
pub proof fn lemma_query_without_placeholder(template: Seq<char>, language: u32)
    requires
        forall|i: int| 0 <= i < template.len() ==> template[i] != '$',
    ensures
        language_query_spec(template, language) == template,
    decreases template.len(),
{
    if template.len() > 0 {
        if template.len() >= 2 {
            assert(template.take(2)[0] == template[0]);
        }
        lemma_query_without_placeholder(template.skip(1), language);
        assert(seq![template[0]] + template.skip(1) =~= template);
    }
}

/// Law: a placeholder between two texts without `$` is replaced by the language's identifier.
pub proof fn lemma_query_with_placeholder(before: Seq<char>, after: Seq<char>, language: u32)
    requires
        forall|i: int| 0 <= i < before.len() ==> before[i] != '$',
        forall|i: int| 0 <= i < after.len() ==> after[i] != '$',
    ensures
        language_query_spec(before + language_placeholder() + after, language)
            == before + qid_text(language) + after,
    decreases before.len(),
{
    let t = before + language_placeholder() + after;
    if before.len() == 0 {
        assert(t.take(2) =~= language_placeholder());
        assert(t.skip(2) =~= after);
        lemma_query_without_placeholder(after, language);
        assert(before + qid_text(language) + after =~= qid_text(language) + after);
    } else {
        assert(t.take(2)[0] == before[0]);
        assert(t.skip(1) =~= before.skip(1) + language_placeholder() + after);
        lemma_query_with_placeholder(before.skip(1), after, language);
        assert(seq![before[0]] + (before.skip(1) + qid_text(language) + after)
            =~= before + qid_text(language) + after);
    }
}

} // verus!
