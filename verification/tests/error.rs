use wikidata_phonemes::error::Error;

#[test]
fn status_codes() {
    assert_eq!(Error::MissingOriginalState.status_code(), 401);
    assert_eq!(Error::AuthorizationFailed.status_code(), 401);
    assert_eq!(Error::LanguageNotInList.status_code(), 200);
    assert_eq!(Error::Client("x".into()).status_code(), 500);
    assert_eq!(Error::Session("x".into()).status_code(), 500);
    assert_eq!(Error::Sqlx("x".into()).status_code(), 500);
    assert_eq!(Error::Oauth("x".into()).status_code(), 500);
}

#[test]
fn user_messages() {
    assert_eq!(Error::AuthorizationFailed.user_message(), "Authorization failed.");
    assert_eq!(
        Error::LanguageNotInList.user_message(),
        "The item you tried to access is not a language of this activity"
    );
    assert_eq!(Error::MissingOriginalState.user_message(), "An error happened. Please, try again.");
    assert_eq!(Error::Sqlx("db".into()).user_message(), "An error happened. Please, try again.");
}

#[test]
fn descriptions() {
    assert_eq!(Error::Client("timeout".into()).describe(), "Failed to communicate with the Wikidata API: timeout");
    assert_eq!(Error::Session("gone".into()).describe(), "gone");
    assert_eq!(
        Error::Oauth("bad".into()).describe(),
        "There was an error communicating with the Mediawiki's OAuth API: bad"
    );
    assert_eq!(
        Error::MissingOriginalState.describe(),
        "OAuth callback was reached but the user does not have the original CSRF state in its session."
    );
}
