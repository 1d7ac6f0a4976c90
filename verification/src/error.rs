//! The errors of the editor, and how each is shown to the user.

use vstd::prelude::*;

verus! {

/// What went wrong while serving a request. Errors that come from a service
/// carry that service's description of the failure.
#[derive(Debug)]
pub enum Error {
    /// The Wikidata API could not be reached or answered with an error.
    Client(String),
    /// The user asked for a language that is not one of the activity's.
    LanguageNotInList,
    /// The OAuth callback came without the CSRF state that the session should hold.
    MissingOriginalState,
    /// The user could not be authorized.
    AuthorizationFailed,
    /// The session store failed.
    Session(String),
    /// The database failed.
    Sqlx(String),
    /// The MediaWiki OAuth API failed.
    Oauth(String),
}

/// The HTTP status with which each error is answered.
pub open spec fn status_code_spec(e: Error) -> u16 {
    match e {
        Error::MissingOriginalState | Error::AuthorizationFailed => 401,
        Error::LanguageNotInList => 200,
        _ => 500,
    }
}

/// The message that the error page shows for each error.
pub open spec fn user_message_spec(e: Error) -> Seq<char> {
    match e {
        Error::AuthorizationFailed => "Authorization failed."@,
        Error::LanguageNotInList => "The item you tried to access is not a language of this activity"@,
        _ => "An error happened. Please, try again."@,
    }
}

/// The description of each error, as logged.
pub open spec fn describe_spec(e: Error) -> Seq<char> {
    match e {
        Error::Client(source) => "Failed to communicate with the Wikidata API: "@ + source@,
        Error::LanguageNotInList => "User tried to access a language not in the activity's list"@,
        Error::MissingOriginalState =>
            "OAuth callback was reached but the user does not have the original CSRF state in its session."@,
        Error::AuthorizationFailed => "Authorization failed."@,
        Error::Session(source) => source@,
        Error::Sqlx(source) => source@,
        Error::Oauth(source) =>
            "There was an error communicating with the Mediawiki's OAuth API: "@ + source@,
    }
}

impl Error {
    /// The HTTP status of the error page. The language error is answered with 200
    /// so that the page fragment is still shown.
    pub fn status_code(&self) -> (r: u16)
        ensures
            r == status_code_spec(*self),
    {
        match self {
            Error::MissingOriginalState | Error::AuthorizationFailed => 401,
            Error::LanguageNotInList => 200,
            _ => 500,
        }
    }

    /// The message that the error page shows.
    pub fn user_message(&self) -> (r: String)
        ensures
            r@ == user_message_spec(*self),
    {
        match self {
            Error::AuthorizationFailed => String::from_str("Authorization failed."),
            Error::LanguageNotInList => String::from_str(
                "The item you tried to access is not a language of this activity",
            ),
            _ => String::from_str("An error happened. Please, try again."),
        }
    }

    /// The description of the error, as logged.
    pub fn describe(&self) -> (r: String)
        ensures
            r@ == describe_spec(*self),
    {
        match self {
            Error::Client(source) => {
                let mut out = String::from_str("Failed to communicate with the Wikidata API: ");
                out.append(source.as_str());
                out
            },
            Error::LanguageNotInList => String::from_str(
                "User tried to access a language not in the activity's list",
            ),
            Error::MissingOriginalState => String::from_str(
                "OAuth callback was reached but the user does not have the original CSRF state in its session.",
            ),
            Error::AuthorizationFailed => String::from_str("Authorization failed."),
            Error::Session(source) => source.clone(),
            Error::Sqlx(source) => source.clone(),
            Error::Oauth(source) => {
                let mut out = String::from_str(
                    "There was an error communicating with the Mediawiki's OAuth API: ",
                );
                out.append(source.as_str());
                out
            },
        }
    }
}

} // verus!
