use wikidata_phonemes::text::IntErrorKind;
use wikidata_phonemes::wikidata::{QidError, Uri, WikiValue, WikidataQ};

fn uri(value: &str) -> Uri {
    Uri { kind: "uri".to_string(), value: value.to_string() }
}

#[test]
fn qid_as_str() {
    assert_eq!(WikidataQ(1860).as_str(), "Q1860");
    assert_eq!(WikidataQ(0).as_str(), "Q0");
    assert_eq!(WikidataQ(u32::MAX).as_str(), "Q4294967295");
}

#[test]
fn qid_from_entity_uri() {
    let q = WikidataQ::from_uri(uri("http://www.wikidata.org/entity/Q21117")).unwrap();
    assert_eq!(q.0, 21117);
}

#[test]
fn qid_from_uri_takes_the_last_marker() {
    let q = WikidataQ::from_uri(uri("http://x/entity/Q1/entity/Q2")).unwrap();
    assert_eq!(q.0, 2);
}

#[test]
fn qid_from_uri_errors() {
    assert!(matches!(WikidataQ::from_uri(uri("http://www.wikidata.org/wiki/Q5")), Err(QidError::NoEntityQ)));
    assert!(matches!(
        WikidataQ::from_uri(uri("http://www.wikidata.org/entity/P2587")),
        Err(QidError::NoEntityQ)
    ));
    assert!(matches!(
        WikidataQ::from_uri(uri("http://www.wikidata.org/entity/Q")),
        Err(QidError::Parse(IntErrorKind::Empty))
    ));
    assert!(matches!(
        WikidataQ::from_uri(uri("http://www.wikidata.org/entity/Q12x")),
        Err(QidError::Parse(IntErrorKind::InvalidDigit))
    ));
    assert!(matches!(
        WikidataQ::from_uri(uri("http://www.wikidata.org/entity/Q4294967296")),
        Err(QidError::Parse(IntErrorKind::PosOverflow))
    ));
}

#[test]
fn qid_error_messages() {
    assert_eq!(QidError::NoEntityQ.message(), "No /entity/Q found in URI.");
    assert_eq!(QidError::Parse(IntErrorKind::InvalidDigit).message(), "invalid digit found in string");
}

#[test]
fn qid_uri_round_trip() {
    for n in [0u32, 1, 1860, 21117, u32::MAX] {
        let text = format!("http://www.wikidata.org/entity/{}", WikidataQ(n).as_str());
        assert_eq!(WikidataQ::from_uri(uri(&text)).unwrap().0, n);
    }
}

#[test]
fn values_display_their_text() {
    assert_eq!(uri("http://a/b").display(), "http://a/b");
    let v = WikiValue { kind: "literal".to_string(), value: "[p]".to_string() };
    assert_eq!(v.display(), "[p]");
}
