use wikidata_phonemes::activity::{LanguageRow, List as ActivityList};
use wikidata_phonemes::api::EntityId;
use wikidata_phonemes::app::App;
use wikidata_phonemes::auth::User;
use wikidata_phonemes::error::Error;
use wikidata_phonemes::languages::{checked_phoneme_total, item_of_path, label_or_id, Language, List, Status, StatusQuery};
use wikidata_phonemes::phonemes::Phoneme;
use wikidata_phonemes::status::MainStatus;
use wikidata_phonemes::wikidata::{WikiValue, WikidataQ};

fn value(text: &str) -> WikiValue<String> {
    WikiValue { kind: "literal".to_string(), value: text.to_string() }
}

fn language(q: &str, count: &str) -> Language {
    Language { q: EntityId::from(q), label: value(q), phoneme_count: value(count) }
}

#[test]
fn phoneme_totals() {
    let list = List { languages: vec![language("Q1", "12"), language("Q2", "x"), language("Q3", "3")] };
    assert_eq!(list.language_count(), 3);
    assert_eq!(list.total_phoneme_count(), 15);
    let empty = List { languages: vec![] };
    assert_eq!(empty.total_phoneme_count(), 0);
}

#[test]
fn main_status_counts() {
    let s = MainStatus::new(None, vec![language("Q1", "40"), language("Q2", "+2")]);
    assert_eq!(s.finished_languages, 0);
    assert_eq!(s.wikidata_count(), 2);
    assert_eq!(s.wikidata_phoneme_count(), 42);
    assert_eq!(MainStatus::new(Some(5), vec![]).finished_languages, 5);
}

#[test]
fn page_titles() {
    let id = EntityId::from("Q21117");
    assert_eq!(label_or_id(Some("Central Alaskan Yup'ik".into()), &id), "Central Alaskan Yup'ik");
    assert_eq!(label_or_id(None, &id), "Language http://www.wikidata.org/entity/Q21117");
}

#[test]
fn status_from_rows() {
    let s = Status::from_row(None, "Q1".into(), None);
    assert!(!s.is_finished);
    assert_eq!(s.working_user_username, "");
    assert_eq!(s.id.as_str(), "Q1");
    let s = Status::from_row(
        Some(User::new(1, "Ana".into(), "t".into())),
        "Q2".into(),
        Some(StatusQuery { is_finished: true, username: Some("Bo".into()) }),
    );
    assert!(s.is_finished);
    assert_eq!(s.working_user_username, "Bo");
    assert_eq!(s.user.unwrap().username(), "Ana");
    let s = Status::from_row(None, "Q3".into(), Some(StatusQuery { is_finished: false, username: None }));
    assert_eq!(s.working_user_username, "");
}

#[test]
fn phoneme_query_fill() {
    let template = "SELECT ?p WHERE { wd:$1 wdt:P2587 ?p. } # $1";
    assert_eq!(
        Phoneme::by_language_query(template, &WikidataQ(1860)),
        template.replace("$1", "Q1860")
    );
    assert_eq!(Phoneme::by_language_query("no placeholder", &WikidataQ(1)), "no placeholder");
    assert_eq!(Phoneme::by_language_query("$$11$", &WikidataQ(7)), "$$11$".replace("$1", "Q7"));
}

#[test]
fn activity_rows() {
    let rows = vec![
        LanguageRow {
            qid: "Q1".into(),
            en_label: "One".into(),
            wikipedia_url: "u1".into(),
            is_finished: None,
            working_user_username: "".into(),
        },
        LanguageRow {
            qid: "Q2".into(),
            en_label: "Two".into(),
            wikipedia_url: "u2".into(),
            is_finished: Some(true),
            working_user_username: "Ana".into(),
        },
    ];
    let list = ActivityList::from_rows(rows);
    assert_eq!(list.languages.len(), 2);
    assert_eq!(list.languages[0].qid, "Q1");
    assert!(!list.languages[0].is_finished);
    assert!(list.languages[1].is_finished);
    assert_eq!(list.languages[1].working_user_username, "Ana");
}

#[test]
fn app_constructs() {
    let _app = App::new();
}

#[test]
fn checked_phoneme_totals() {
    assert_eq!(checked_phoneme_total(&vec![language("Q1", "1"), language("Q2", "2")]), Some(3));
    assert_eq!(
        checked_phoneme_total(&vec![language("Q1", "4294967295"), language("Q2", "1")]),
        None
    );
    assert_eq!(checked_phoneme_total(&vec![language("Q1", "4294967295"), language("Q2", "nope")]), Some(u32::MAX));
}

#[test]
fn items_of_paths() {
    assert_eq!(item_of_path("Q1860").ok().unwrap().0, 1860);
    assert_eq!(item_of_path("Q007").ok().unwrap().0, 7);
    for bad in ["P2587", "Q", "Qx", "1860", "Q99999999999", ""] {
        assert!(matches!(item_of_path(bad), Err(Error::LanguageNotInList)), "{}", bad);
    }
}
