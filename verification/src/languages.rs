//! Languages, their phoneme counts, and the status of the work on each.

use vstd::prelude::*;

use crate::api::{entity_id_from_uri_spec, entity_uri, lemma_entity_uri_round_trip, no_later_marker, EntityId};
use crate::error::Error;
use crate::wikidata::{qid_from_uri_spec, Uri, WikidataQ};
use crate::auth::User;
use crate::text::{decimal, lemma_parse_decimal, parse_u32, parse_u32_spec};
use crate::wikidata::WikiValue;

verus! {

/// A language as the query service lists it, with the number of phonemes Wikidata gives it.
pub struct Language {
    pub q: EntityId,
    pub label: WikiValue<String>,
    pub phoneme_count: WikiValue<String>,
}

/// The number a phoneme count reads as; a count that is not a `u32` counts as zero.
pub open spec fn count_or_zero(text: Seq<char>) -> nat {
    match parse_u32_spec(text) {
        Ok(n) => n as nat,
        Err(_) => 0,
    }
}

/// The sum of the phoneme counts of `languages`.
pub open spec fn phoneme_total(languages: Seq<Language>) -> nat
    decreases languages.len(),
{
    if languages.len() == 0 {
        0
    } else {
        phoneme_total(languages.drop_last()) + count_or_zero(
            languages.last().phoneme_count.value@,
        )
    }
}

/// The total of a prefix of the languages is at most the total of all of them.
proof fn lemma_phoneme_total_prefix(languages: Seq<Language>, k: int)
    requires
        0 <= k <= languages.len(),
    ensures
        phoneme_total(languages.take(k)) <= phoneme_total(languages),
    decreases languages.len(),
{
    if k < languages.len() {
        assert(languages.drop_last().take(k) =~= languages.take(k));
        lemma_phoneme_total_prefix(languages.drop_last(), k);
    } else {
        assert(languages.take(k) =~= languages);
    }
}

/// The number that a phoneme count reads as, zero when it is not a `u32`.
pub fn count_or_zero_of(text: &str) -> (r: u32)
    ensures
        r == count_or_zero(text@),
{
    match parse_u32(text) {
        Ok(n) => n,
        Err(_) => 0,
    }
}

/// The sum of the phoneme counts of `languages`, which must fit in a `u32`.
pub fn total_phoneme_count_of(languages: &Vec<Language>) -> (r: u32)
    requires
        phoneme_total(languages@) <= u32::MAX,
    ensures
        r == phoneme_total(languages@),
{
    let mut total: u32 = 0;
    let mut i: usize = 0;
    assert(languages@.take(0) =~= Seq::<Language>::empty());
    while i < languages.len()
        invariant
            i <= languages.len(),
            phoneme_total(languages@) <= u32::MAX,
            total == phoneme_total(languages@.take(i as int)),
        decreases languages.len() - i,
    {
        let n = count_or_zero_of(languages[i].phoneme_count.value.as_str());
        proof {
            assert(languages@.take(i + 1).drop_last() =~= languages@.take(i as int));
            lemma_phoneme_total_prefix(languages@, i + 1);
        }
        total = total + n;
        i = i + 1;
    }
    assert(languages@.take(i as int) =~= languages@);
    total
}

/// The sum of the phoneme counts of `languages`, or none when it exceeds `u32::MAX`,
/// where summing them as `u32` values overflows.
pub fn checked_phoneme_total(languages: &Vec<Language>) -> (r: Option<u32>)
    ensures
        phoneme_total(languages@) <= u32::MAX ==> r == Some(phoneme_total(languages@) as u32),
        phoneme_total(languages@) > u32::MAX ==> r is None,
{
    let mut total: u64 = 0;
    let mut i: usize = 0;
    assert(languages@.take(0) =~= Seq::<Language>::empty());
    while i < languages.len()
        invariant
            i <= languages.len(),
            total == phoneme_total(languages@.take(i as int)),
            total <= u32::MAX,
        decreases languages.len() - i,
    {
        let n = count_or_zero_of(languages[i].phoneme_count.value.as_str());
        proof {
            assert(languages@.take(i + 1).drop_last() =~= languages@.take(i as int));
        }
        total = total + n as u64;
        i = i + 1;
        if total > u32::MAX as u64 {
            proof {
                lemma_phoneme_total_prefix(languages@, i as int);
            }
            return None;
        }
    }
    assert(languages@.take(i as int) =~= languages@);
    Some(total as u32)
}

/// The list of the languages of Wikidata that have phonemes.
pub struct List {
    pub languages: Vec<Language>,
}

impl List {
    /// The number of languages in the list.
    pub fn language_count(&self) -> (r: usize)
        ensures
            r == self.languages@.len(),
    {
        self.languages.len()
    }

    /// The number of phonemes of all listed languages together.
    pub fn total_phoneme_count(&self) -> (r: u32)
        requires
            phoneme_total(self.languages@) <= u32::MAX,
        ensures
            r == phoneme_total(self.languages@),
    {
        total_phoneme_count_of(&self.languages)
    }
}

/// The title of a language's page: its English label, or `Language` and its entity URI.
pub open spec fn label_or_id_spec(label: Option<Seq<char>>, id: Seq<char>) -> Seq<char> {
    match label {
        Some(l) => l,
        None => "Language "@ + entity_uri(id),
    }
}

/// The title of a language's page: its English label when Wikidata has one,
/// and otherwise `Language` followed by the entity URI of the language.
pub fn label_or_id(label: Option<String>, id: &EntityId) -> (r: String)
    ensures
        r@ == label_or_id_spec(
            match label {
                Some(l) => Some(l@),
                None => None,
            },
            id.0@,
        ),
{
    match label {
        Some(l) => l,
        None => {
            let mut out = String::from_str("Language ");
            let uri = id.uri();
            out.append(uri.as_str());
            out
        },
    }
}

/// The row of the status table of a language, with the username of the user working on it.
pub struct StatusQuery {
    pub is_finished: bool,
    pub username: Option<String>,
}

/// The status of the work on a language, as the status panel shows it.
pub struct Status {
    pub user: Option<User>,
    pub id: EntityId,
    pub is_finished: bool,
    pub working_user_username: String,
}

impl Status {
    /// The status of language `qid` for the visitor `user`, from its row of the
    /// status table. A language without a row is not finished and nobody works on
    /// it; a row without a working user shows an empty username.
    pub fn from_row(user: Option<User>, qid: String, row: Option<StatusQuery>) -> (r: Status)
        ensures
            r.user == user,
            r.id.0@ == qid@,
            r.is_finished == (row matches Some(q) && q.is_finished),
            r.working_user_username@ == (match row {
                Some(q) => match q.username {
                    Some(name) => name@,
                    None => Seq::<char>::empty(),
                },
                None => Seq::<char>::empty(),
            }),
    {
        let (is_finished, username) = match row {
            Some(q) => (q.is_finished, q.username),
            None => (false, None),
        };
        let working_user_username = match username {
            Some(name) => name,
            None => String::new(),
        };
        Status { user, id: EntityId(qid), is_finished, working_user_username }
    }
}

/// The item that the identifier in a language page's path names, read through the
/// identifier's entity URI; an identifier that names no item is not a language of
/// the activity.
pub fn item_of_path(qid: &str) -> (r: Result<WikidataQ, Error>)
    ensures
        match r {
            Ok(q) => qid_from_uri_spec(entity_uri(qid@)) == Ok::<u32, crate::wikidata::QidError>(q.0),
            Err(e) => e is LanguageNotInList && qid_from_uri_spec(entity_uri(qid@)) is Err,
        },
{
    let uri = Uri { kind: String::from_str("uri"), value: EntityId::from(qid).uri() };
    match WikidataQ::from_uri(uri) {
        Ok(q) => Ok(q),
        Err(_) => Err(Error::LanguageNotInList),
    }
}

/// Law: a phoneme count that parses is taken as the number it reads as, and one
/// that does not counts as zero.
pub proof fn lemma_count_is_parsed_value(text: Seq<char>)
    ensures
        parse_u32_spec(text) matches Ok(n) ==> count_or_zero(text) == n,
        parse_u32_spec(text) is Err ==> count_or_zero(text) == 0,
{
}

/// Law: the decimal notation of any `u32` counts as that number.
pub proof fn lemma_count_of_decimal(n: u32)
    ensures
        count_or_zero(decimal(n as nat)) == n,
{
    lemma_parse_decimal(n);
}

/// Law: adding a language to the list adds its count to the total, and the total
/// of no languages is zero.
pub proof fn lemma_phoneme_total_push(languages: Seq<Language>, l: Language)
    ensures
        phoneme_total(Seq::<Language>::empty()) == 0,
        phoneme_total(languages.push(l)) == phoneme_total(languages) + count_or_zero(
            l.phoneme_count.value@,
        ),
{
    assert(languages.push(l).drop_last() =~= languages);
}

/// Law: the total of a single language whose count is the decimal notation of `n` is `n`.
pub proof fn lemma_phoneme_total_single(l: Language, n: u32)
    requires
        l.phoneme_count.value@ == decimal(n as nat),
    ensures
        phoneme_total(seq![l]) == n,
{
    lemma_phoneme_total_push(Seq::<Language>::empty(), l);
    assert(Seq::<Language>::empty().push(l) =~= seq![l]);
    lemma_count_of_decimal(n);
}

/// Law: a label that Wikidata gives is the page title, whatever it is.
pub proof fn lemma_label_is_title(label: Seq<char>, id: Seq<char>)
    ensures
        label_or_id_spec(Some(label), id) == label,
{
}

/// Law: without a label, the title is `Language ` followed by an entity URI that
/// reads back as the language's identifier (for identifiers after which no later
/// `/entity/` begins).
pub proof fn lemma_fallback_title_names_language(id: Seq<char>)
    requires
        no_later_marker(id),
    ensures
        label_or_id_spec(None, id).take(9) == seq!['L', 'a', 'n', 'g', 'u', 'a', 'g', 'e', ' '],
        entity_id_from_uri_spec(label_or_id_spec(None, id).skip(9)) == Ok::<Seq<char>, Seq<char>>(id),
{
    reveal_strlit("Language ");
    let t = label_or_id_spec(None, id);
    assert(t.take(9) =~= seq!['L', 'a', 'n', 'g', 'u', 'a', 'g', 'e', ' ']);
    assert(t.skip(9) =~= entity_uri(id));
    lemma_entity_uri_round_trip(id);
}

} // verus!
