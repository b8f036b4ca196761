use jade::authorize;
use jade::create_new_token;
use jade::enrollment_of;
use jade::find_token;
use jade::get_user_from_token;
use jade::get_user_tokens;
use jade::hash_secret;
use jade::issue_token;
use jade::list_tokens;
use jade::revoke_token;
use jade::verify_secret;
use jade::wipe_token;
use jade::write_user;
use jade::units::APIToken;
use jade::units::Capability;
use jade::units::CreateTokenPayload;
use jade::units::CreateUserPayload;
use jade::units::DeleteTokenPayload;
use jade::units::StatusResponse;
use jade::units::TokenStatus;
use jade::units::UserAPITokensPayload;
use jade::ErrKind;
use jade::Store;

fn register_with(store: &mut Store, username: &str, pwd_digest: &str) {
    let e = enrollment_of(
        &CreateUserPayload {
            email: String::from("a@x.com"),
            username: String::from(username),
            password: String::from("pw1"),
        },
        &String::from("mail.example.org"),
        String::from(pwd_digest),
        String::from("email-digest"),
        format!("t-{}", username),
    );
    write_user(&e, true, store).unwrap();
}

fn request(username: &str, password: &str, mood: bool) -> CreateTokenPayload {
    CreateTokenPayload {
        username: String::from(username),
        password: String::from(password),
        can_change_pwd: false,
        can_set_mood: mood,
        can_delete_user: true,
        can_change_email: false,
    }
}

fn issue(store: &mut Store, username: &str, text: &str) -> APIToken {
    issue_token(
        &request(username, "pw1", true),
        store,
        true,
        String::from(text),
        String::from("2024-01-02/03:04:05"),
    )
    .unwrap()
}

#[test]
fn issued_token_is_live_and_carries_the_requested_flags() {
    let mut store = Store::new();
    register_with(&mut store, "alice", "digest");
    let t = issue(&mut store, "alice", "tok-a");
    assert_eq!(
        t,
        APIToken {
            username: String::from("alice"),
            token: String::from("tok-a"),
            created_at: String::from("2024-01-02/03:04:05"),
            is_active: true,
            can_change_pwd: false,
            can_set_mood: true,
            can_delete_user: true,
            can_change_email: false,
        }
    );
    assert_eq!(store.api_tokens, vec![t]);
}

#[test]
fn issue_with_a_wrong_password_creates_no_token() {
    let mut store = Store::new();
    register_with(&mut store, "alice", "digest");
    let e = issue_token(
        &request("alice", "bad", true),
        &mut store,
        false,
        String::from("tok-a"),
        String::from("now"),
    )
    .unwrap_err();
    assert_eq!(e.kind, ErrKind::InvalidCredentials);
    assert!(store.api_tokens.is_empty());
}

#[test]
fn issue_for_an_unknown_user_is_not_found() {
    let mut store = Store::new();
    let e = issue_token(
        &request("alice", "pw1", true),
        &mut store,
        true,
        String::from("tok-a"),
        String::from("now"),
    )
    .unwrap_err();
    assert_eq!(e.kind, ErrKind::NotFound);
    assert!(store.api_tokens.is_empty());
}

#[test]
fn issue_never_reuses_a_token_text() {
    let mut store = Store::new();
    register_with(&mut store, "alice", "digest");
    register_with(&mut store, "bob", "digest");
    issue(&mut store, "alice", "tok");
    let e = issue_token(
        &request("bob", "pw1", true),
        &mut store,
        true,
        String::from("tok"),
        String::from("now"),
    )
    .unwrap_err();
    assert_eq!(e.kind, ErrKind::UpstreamFailure);
    assert_eq!(store.api_tokens.len(), 1);
    assert_eq!(store.api_tokens[0].username, "alice");
}

#[test]
fn create_new_token_checks_the_password_against_the_digest() {
    let mut store = Store::new();
    let digest = hash_secret("pw1").unwrap();
    register_with(&mut store, "alice", &digest);
    let bad = create_new_token(&request("alice", "wrong", true), &mut store).unwrap_err();
    assert_eq!(bad.kind, ErrKind::InvalidCredentials);
    assert!(store.api_tokens.is_empty());
    let t = create_new_token(&request("alice", "pw1", true), &mut store).unwrap();
    assert_eq!(t.username, "alice");
    assert_eq!(t.token.len(), 60);
    assert!(t.is_active);
    assert!(t.can_set_mood && t.can_delete_user);
    assert!(!t.can_change_pwd && !t.can_change_email);
    assert_eq!(
        verify_secret(&format!("{}:{}", t.created_at, "alice"), &t.token),
        Ok(true)
    );
    assert_eq!(store.api_tokens, vec![t]);
}

#[test]
fn create_new_token_with_a_malformed_digest_is_a_hashing_error() {
    let mut store = Store::new();
    register_with(&mut store, "alice", "not a digest");
    let e = create_new_token(&request("alice", "pw1", true), &mut store).unwrap_err();
    assert_eq!(e.kind, ErrKind::HashingError);
    assert!(store.api_tokens.is_empty());
}

#[test]
fn find_token_and_owner() {
    let mut store = Store::new();
    register_with(&mut store, "alice", "digest");
    register_with(&mut store, "bob", "digest");
    issue(&mut store, "alice", "tok-a");
    let b = issue(&mut store, "bob", "tok-b");
    assert_eq!(find_token(&String::from("tok-b"), &store), Ok(b));
    assert_eq!(find_token(&String::from("x"), &store).unwrap_err().kind, ErrKind::NotFound);
    let owner = get_user_from_token(&String::from("tok-b"), &store).unwrap();
    assert_eq!(owner.username, "bob");
    assert_eq!(owner.email_token, "t-bob");
    let e = get_user_from_token(&String::from("x"), &store).unwrap_err();
    assert_eq!(e.kind, ErrKind::NotFound);
}

#[test]
fn token_of_a_missing_owner_is_not_found() {
    let mut store = Store::new();
    register_with(&mut store, "alice", "digest");
    let mut t = issue(&mut store, "alice", "tok-a");
    t.username = String::from("ghost");
    t.token = String::from("tok-g");
    store.api_tokens.push(t);
    let e = get_user_from_token(&String::from("tok-g"), &store).unwrap_err();
    assert_eq!(e.kind, ErrKind::NotFound);
}

#[test]
fn duplicated_token_text_is_an_inconsistency() {
    let mut store = Store::new();
    register_with(&mut store, "alice", "digest");
    let t = issue(&mut store, "alice", "tok-a");
    store.api_tokens.push(t);
    assert_eq!(find_token(&String::from("tok-a"), &store).unwrap_err().kind, ErrKind::Inconsistency);
    assert_eq!(
        get_user_from_token(&String::from("tok-a"), &store).unwrap_err().kind,
        ErrKind::Inconsistency
    );
}

#[test]
fn authorize_checks_the_flag_of_the_capability() {
    let mut store = Store::new();
    register_with(&mut store, "alice", "digest");
    issue(&mut store, "alice", "tok-a");
    assert_eq!(
        authorize(&String::from("tok-a"), Capability::SetMood, &store).unwrap().username,
        "alice"
    );
    assert_eq!(
        authorize(&String::from("tok-a"), Capability::DeleteUser, &store).unwrap().username,
        "alice"
    );
    assert_eq!(
        authorize(&String::from("tok-a"), Capability::ChangeCredentials, &store).unwrap_err().kind,
        ErrKind::Forbidden
    );
    assert_eq!(
        authorize(&String::from("tok-a"), Capability::ChangeEmail, &store).unwrap_err().kind,
        ErrKind::Forbidden
    );
    assert_eq!(
        authorize(&String::from("nope"), Capability::SetMood, &store).unwrap_err().kind,
        ErrKind::NotFound
    );
}

#[test]
fn revoke_with_a_wrong_password_leaves_the_token_live() {
    let mut store = Store::new();
    register_with(&mut store, "alice", "digest");
    let t = issue(&mut store, "alice", "tok-a");
    let e = revoke_token(&String::from("tok-a"), &mut store, false).unwrap_err();
    assert_eq!(e.kind, ErrKind::InvalidCredentials);
    assert_eq!(store.api_tokens, vec![t]);
    assert!(store.api_tokens[0].is_active);
}

#[test]
fn revoke_marks_the_token_inactive_and_keeps_the_owner() {
    let mut store = Store::new();
    register_with(&mut store, "alice", "digest");
    let a = issue(&mut store, "alice", "tok-a");
    let b = issue(&mut store, "alice", "tok-b");
    let r = revoke_token(&String::from("tok-a"), &mut store, true);
    assert_eq!(r, Ok(StatusResponse { status: 0 }));
    assert_eq!(store.api_tokens, vec![APIToken { is_active: false, ..a }, b]);
    assert_eq!(store.users.len(), 1);
    assert_eq!(
        get_user_from_token(&String::from("tok-a"), &store).unwrap_err().kind,
        ErrKind::NotFound
    );
    assert_eq!(
        authorize(&String::from("tok-a"), Capability::SetMood, &store).unwrap_err().kind,
        ErrKind::Forbidden
    );
    assert_eq!(get_user_from_token(&String::from("tok-b"), &store).unwrap().username, "alice");
}

#[test]
fn revoke_of_an_unknown_token_is_not_found() {
    let mut store = Store::new();
    register_with(&mut store, "alice", "digest");
    let e = revoke_token(&String::from("nope"), &mut store, true).unwrap_err();
    assert_eq!(e.kind, ErrKind::NotFound);
}

#[test]
fn wipe_token_checks_the_password_of_the_owner() {
    let mut store = Store::new();
    let digest = hash_secret("pw1").unwrap();
    register_with(&mut store, "alice", &digest);
    issue(&mut store, "alice", "tok-a");
    let wrong = DeleteTokenPayload {
        username: String::from("alice"),
        password: String::from("wrong"),
        api_token: String::from("tok-a"),
    };
    let e = wipe_token(&wrong, &mut store).unwrap_err();
    assert_eq!(e.kind, ErrKind::InvalidCredentials);
    assert!(store.api_tokens[0].is_active);
    let right = DeleteTokenPayload {
        username: String::from("alice"),
        password: String::from("pw1"),
        api_token: String::from("tok-a"),
    };
    assert_eq!(wipe_token(&right, &mut store), Ok(StatusResponse { status: 0 }));
    assert!(!store.api_tokens[0].is_active);
    assert_eq!(store.users.len(), 1);
}

#[test]
fn listing_shows_the_tokens_the_status_asks_for() {
    let mut store = Store::new();
    register_with(&mut store, "alice", "digest");
    register_with(&mut store, "bob", "digest");
    let a1 = issue(&mut store, "alice", "a1");
    issue(&mut store, "bob", "b1");
    let a2 = issue(&mut store, "alice", "a2");
    let a3 = issue(&mut store, "alice", "a3");
    revoke_token(&String::from("a2"), &mut store, true).unwrap();
    let a2 = APIToken { is_active: false, ..a2 };
    let alice = String::from("alice");
    assert_eq!(
        list_tokens(&alice, TokenStatus::All, &store, true),
        Ok(vec![a1.clone(), a2.clone(), a3.clone()])
    );
    assert_eq!(list_tokens(&alice, TokenStatus::Active, &store, true), Ok(vec![a1, a3]));
    assert_eq!(list_tokens(&alice, TokenStatus::Inactive, &store, true), Ok(vec![a2]));
    assert_eq!(
        list_tokens(&alice, TokenStatus::All, &store, false).unwrap_err().kind,
        ErrKind::InvalidCredentials
    );
    assert_eq!(
        list_tokens(&String::from("carol"), TokenStatus::All, &store, true).unwrap_err().kind,
        ErrKind::NotFound
    );
}

#[test]
fn get_user_tokens_checks_the_password() {
    let mut store = Store::new();
    let digest = hash_secret("pw1").unwrap();
    register_with(&mut store, "alice", &digest);
    let a1 = issue(&mut store, "alice", "a1");
    let ok = UserAPITokensPayload { username: String::from("alice"), password: String::from("pw1") };
    assert_eq!(get_user_tokens(&ok, TokenStatus::All, &store), Ok(vec![a1]));
    assert_eq!(get_user_tokens(&ok, TokenStatus::Inactive, &store), Ok(vec![]));
    let bad = UserAPITokensPayload { username: String::from("alice"), password: String::from("no") };
    assert_eq!(
        get_user_tokens(&bad, TokenStatus::All, &store).unwrap_err().kind,
        ErrKind::InvalidCredentials
    );
}

#[test]
fn validate_tells_whether_a_token_is_live_and_whose_it_is() {
    let mut store = Store::new();
    register_with(&mut store, "alice", "digest");
    issue(&mut store, "alice", "tok-a");
    let (valid, owner) = jade::validate_token(&String::from("tok-a"), &store);
    assert!(valid);
    assert_eq!(owner.unwrap().username, "alice");
    assert_eq!(jade::validate_token(&String::from("nope"), &store), (false, None));
    revoke_token(&String::from("tok-a"), &mut store, true).unwrap();
    assert_eq!(jade::validate_token(&String::from("tok-a"), &store), (false, None));
}
