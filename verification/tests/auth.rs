use wikidata_phonemes::auth::{
    callback_credentials, callback_reply, login_dev_reply, login_page, require_user, start_authentication,
    AuthStart, Authorization, Credentials, LoginPage, LoginReply, User,
};
use wikidata_phonemes::error::Error;

#[test]
fn user_accessors() {
    let u = User::new(7, "Ana".to_string(), "tok".to_string());
    assert_eq!(u.id(), 7);
    assert_eq!(u.username(), "Ana");
    assert_eq!(u.token(), "tok");
    assert_eq!(u.session_auth_hash(), b"tok");
}

#[test]
fn developer_token_goes_to_username_lookup() {
    match start_authentication(Credentials::from_token("dev-token".to_string()), 41) {
        AuthStart::FetchUsername(pending) => {
            assert_eq!(pending.token(), "dev-token");
            let user = pending.username_received(Some("Ana".to_string())).unwrap();
            assert_eq!(user.username(), "Ana");
            assert_eq!(user.token(), "dev-token");
            assert_eq!(user.id(), 41);
        }
        _ => panic!("a developer token is looked up"),
    }
}

#[test]
fn unknown_token_gives_no_user() {
    match start_authentication(Credentials::from_token("bad".to_string()), 1) {
        AuthStart::FetchUsername(pending) => assert!(pending.username_received(None).is_none()),
        _ => panic!("a developer token is looked up"),
    }
}

#[test]
fn tampered_csrf_state_is_refused() {
    let creds = Credentials::Oauth { code: "c".into(), old_state: "s1".into(), new_state: "s2".into() };
    assert!(matches!(start_authentication(creds, 2), AuthStart::Refused));
}

#[test]
fn matching_csrf_state_exchanges_the_code() {
    let creds = Credentials::Oauth { code: "c".into(), old_state: "s".into(), new_state: "s".into() };
    match start_authentication(creds, 0x0190_0000_0000_7000_8000_0000_0000_0001) {
        AuthStart::ExchangeCode { code, pending } => {
            assert_eq!(code, "c");
            let profile = pending.token_received("access".to_string());
            assert_eq!(profile.token(), "access");
            let user = profile.username_received(Some("Bo".to_string())).unwrap();
            assert_eq!(user.token(), "access");
            assert_eq!(user.id(), 0x0190_0000_0000_7000_8000_0000_0000_0001);
        }
        _ => panic!("the code is exchanged"),
    }
}

#[test]
fn login_page_decision() {
    assert!(matches!(login_page(true), LoginPage::Redirect(p) if p == "/auth/profile"));
    assert!(matches!(login_page(false), LoginPage::Form));
}

#[test]
fn sign_in_replies() {
    let u = User::new(1, "Ana".into(), "t".into());
    match login_dev_reply(Some(u)) {
        LoginReply::LogIn { user, to } => {
            assert_eq!(user.username(), "Ana");
            assert_eq!(to, "/auth/profile");
        }
        _ => panic!(),
    }
    assert!(matches!(login_dev_reply(None), LoginReply::Unauthorized { message } if message == "Developer authorization failed."));
    assert!(matches!(
        callback_reply(None),
        LoginReply::Unauthorized { message } if message == "Authorization with Wikimedia account failed."
    ));
    assert!(matches!(callback_reply(Some(User::new(2, "B".into(), "t".into()))), LoginReply::LogIn { .. }));
}

#[test]
fn callback_needs_the_session_state() {
    let a = Authorization { code: "code".into(), new_state: "n".into() };
    assert!(matches!(callback_credentials(None, a), Err(Error::MissingOriginalState)));
    let a = Authorization { code: "code".into(), new_state: "n".into() };
    match callback_credentials(Some("o".into()), a) {
        Ok(Credentials::Oauth { code, old_state, new_state }) => {
            assert_eq!((code.as_str(), old_state.as_str(), new_state.as_str()), ("code", "o", "n"));
        }
        _ => panic!(),
    }
}

#[test]
fn pages_for_users_only() {
    assert!(matches!(require_user(None), Err(p) if p == "/auth/login"));
    let u = require_user(Some(User::new(3, "C".into(), "t".into()))).ok().unwrap();
    assert_eq!(u.id(), 3);
}

#[test]
fn each_sign_in_gets_its_own_id() {
    let ids = [10u128, 11u128];
    let users: Vec<User> = ids
        .iter()
        .map(|&id| match start_authentication(Credentials::from_token("t".to_string()), id) {
            AuthStart::FetchUsername(p) => p.username_received(Some("same".to_string())).unwrap(),
            _ => panic!(),
        })
        .collect();
    assert_eq!(users[0].id(), 10);
    assert_eq!(users[1].id(), 11);
}
