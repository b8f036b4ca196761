use jade::confirm_email;
use jade::enrollment_of;
use jade::get_user_by_handle;
use jade::issue_token;
use jade::prepare_email_change;
use jade::prepare_user;
use jade::record_mood;
use jade::set_password;
use jade::update_user_email;
use jade::update_user_password;
use jade::verify_secret;
use jade::verify_user_email;
use jade::wipe_user;
use jade::write_user;
use jade::keep_file;
use jade::units::ChangeEntityPayload;
use jade::units::CreateTokenPayload;
use jade::units::CreateUserPayload;
use jade::units::JadeUser;
use jade::units::MoodActionPayload;
use jade::units::StatusResponse;
use jade::units::TokenOnlyPayload;
use jade::EmailChange;
use jade::ErrKind;
use jade::Store;

fn payload(username: &str, email: &str, password: &str) -> CreateUserPayload {
    CreateUserPayload {
        email: String::from(email),
        username: String::from(username),
        password: String::from(password),
    }
}

fn user(username: &str, email_token: &str) -> JadeUser {
    JadeUser {
        username: String::from(username),
        email: String::from("email-digest"),
        pwd: String::from("pwd-digest"),
        email_token: String::from(email_token),
        is_active: false,
    }
}

fn register(store: &mut Store, username: &str, email_token: &str) {
    let e = enrollment_of(
        &payload(username, "a@x.com", "pw1"),
        &String::from("mail.example.org"),
        String::from("pwd-digest"),
        String::from("email-digest"),
        String::from(email_token),
    );
    write_user(&e, true, store).unwrap();
}

fn token_for(store: &mut Store, username: &str, text: &str, all: bool) {
    let p = CreateTokenPayload {
        username: String::from(username),
        password: String::from("pw1"),
        can_change_pwd: all,
        can_set_mood: all,
        can_delete_user: all,
        can_change_email: all,
    };
    issue_token(&p, store, true, String::from(text), String::from("2024-01-02/03:04:05")).unwrap();
}

#[test]
fn lookup_in_an_empty_store_is_not_found() {
    let store = Store::new();
    let e = get_user_by_handle(&String::from("alice"), &store).unwrap_err();
    assert_eq!(e.kind, ErrKind::NotFound);
    assert_eq!(e.details, "User \"alice\" does not exist.");
}

#[test]
fn lookup_finds_the_registered_user() {
    let mut store = Store::new();
    register(&mut store, "alice", "t-alice");
    register(&mut store, "bob", "t-bob");
    let found = get_user_by_handle(&String::from("bob"), &store).unwrap();
    assert_eq!(found, user("bob", "t-bob"));
}

#[test]
fn lookup_of_a_duplicated_username_is_an_inconsistency() {
    let mut store = Store::new();
    store.users.push(user("alice", "t1"));
    store.users.push(user("alice", "t2"));
    let e = get_user_by_handle(&String::from("alice"), &store).unwrap_err();
    assert_eq!(e.kind, ErrKind::Inconsistency);
}

#[test]
fn enrollment_holds_an_inactive_user_and_the_mail() {
    let e = enrollment_of(
        &payload("alice", "a@x.com", "pw1"),
        &String::from("mail.example.org"),
        String::from("PWD"),
        String::from("EMAIL"),
        String::from("TOKEN"),
    );
    assert_eq!(
        e.user,
        JadeUser {
            username: String::from("alice"),
            email: String::from("EMAIL"),
            pwd: String::from("PWD"),
            email_token: String::from("TOKEN"),
            is_active: false,
        }
    );
    assert_eq!(e.mail.to, "alice <a@x.com>");
    assert_eq!(e.mail.subject, "Confirm your email address, alice.");
    assert!(e.mail.body.ends_with("mail.example.org/email/verify/TOKEN"));
}

#[test]
fn register_alice_then_verify_email() {
    let mut store = Store::new();
    let e = prepare_user(
        &payload("alice", "a@x.com", "pw1"),
        &store,
        &String::from("mail.example.org"),
    )
    .unwrap();
    assert!(store.users.is_empty());
    assert_eq!(verify_secret("pw1", &e.user.pwd), Ok(true));
    assert_eq!(verify_secret("a@x.com", &e.user.email), Ok(true));
    assert!(e.mail.body.ends_with(&e.user.email_token));
    let created = write_user(&e, true, &mut store).unwrap();
    assert!(!created.is_active);
    assert!(!get_user_by_handle(&String::from("alice"), &store).unwrap().is_active);
    let token = created.email_token.clone();
    assert_eq!(verify_user_email(&token, &mut store), Ok(true));
    let alice = get_user_by_handle(&String::from("alice"), &store).unwrap();
    assert!(alice.is_active);
    assert_ne!(alice.email_token, token);
    assert_eq!(alice.pwd, created.pwd);
    let again = verify_user_email(&token, &mut store).unwrap_err();
    assert_eq!(again.kind, ErrKind::NotFound);
}

#[test]
fn second_registration_of_a_username_is_a_duplicate() {
    let mut store = Store::new();
    register(&mut store, "alice", "t1");
    let second = enrollment_of(
        &payload("alice", "other@x.com", "pw2"),
        &String::from("mail.example.org"),
        String::from("PWD-2"),
        String::from("EMAIL-2"),
        String::from("TOKEN-2"),
    );
    let e = write_user(&second, true, &mut store).unwrap_err();
    assert_eq!(e.kind, ErrKind::DuplicateUser);
    assert_eq!(store.users.len(), 1);
    assert_eq!(store.users[0], user("alice", "t1"));
    let p = prepare_user(
        &payload("alice", "other@x.com", "pw2"),
        &store,
        &String::from("mail.example.org"),
    )
    .unwrap_err();
    assert_eq!(p.kind, ErrKind::DuplicateUser);
}

#[test]
fn undelivered_mail_leaves_no_user_behind() {
    let mut store = Store::new();
    let e = enrollment_of(
        &payload("alice", "a@x.com", "pw1"),
        &String::from("mail.example.org"),
        String::from("PWD-1"),
        String::from("EMAIL-1"),
        String::from("TOKEN-1"),
    );
    let err = write_user(&e, false, &mut store).unwrap_err();
    assert_eq!(err.kind, ErrKind::UpstreamFailure);
    assert_eq!(err.details, "Could not send verification email.");
    assert!(store.users.is_empty());
    assert!(write_user(&e, true, &mut store).is_ok());
}

#[test]
fn registration_always_inserts_an_inactive_user() {
    let mut store = Store::new();
    let mut e = enrollment_of(
        &payload("alice", "a@x.com", "pw1"),
        &String::from("mail.example.org"),
        String::from("PWD-1"),
        String::from("EMAIL-1"),
        String::from("TOKEN-1"),
    );
    e.user.is_active = true;
    let created = write_user(&e, true, &mut store).unwrap();
    assert!(!created.is_active);
    assert!(!store.users[0].is_active);
}

#[test]
fn confirm_email_activates_the_holder_and_rotates_the_token() {
    let mut store = Store::new();
    register(&mut store, "alice", "t-alice");
    register(&mut store, "bob", "t-bob");
    assert_eq!(confirm_email(&String::from("t-bob"), &mut store, String::from("fresh")), Ok(true));
    assert_eq!(store.users[0], user("alice", "t-alice"));
    assert_eq!(
        store.users[1],
        JadeUser { is_active: true, ..user("bob", "fresh") }
    );
}

#[test]
fn confirm_email_with_an_unknown_token_is_not_found() {
    let mut store = Store::new();
    register(&mut store, "alice", "t-alice");
    let e = confirm_email(&String::from("nope"), &mut store, String::from("fresh")).unwrap_err();
    assert_eq!(e.kind, ErrKind::NotFound);
    assert_eq!(e.details, "No user with the specified token found.");
    assert_eq!(store.users[0], user("alice", "t-alice"));
}

#[test]
fn confirm_email_with_a_token_held_twice_is_not_found() {
    let mut store = Store::new();
    register(&mut store, "alice", "same");
    register(&mut store, "bob", "same");
    let e = confirm_email(&String::from("same"), &mut store, String::from("fresh")).unwrap_err();
    assert_eq!(e.kind, ErrKind::NotFound);
    assert!(!store.users[0].is_active);
    assert!(!store.users[1].is_active);
}

#[test]
fn confirm_email_refuses_a_token_that_is_not_fresh() {
    let mut store = Store::new();
    register(&mut store, "alice", "t-alice");
    let e = confirm_email(&String::from("t-alice"), &mut store, String::from("t-alice"))
        .unwrap_err();
    assert_eq!(e.kind, ErrKind::UpstreamFailure);
    assert!(!store.users[0].is_active);
}

#[test]
fn wipe_user_cascades_to_moods_tokens_and_files() {
    let mut store = Store::new();
    register(&mut store, "alice", "t-alice");
    register(&mut store, "bob", "t-bob");
    token_for(&mut store, "alice", "tok-a", true);
    token_for(&mut store, "alice", "tok-a2", false);
    token_for(&mut store, "bob", "tok-b", true);
    let mood = |t: &str, m: &str| MoodActionPayload {
        api_token: String::from(t),
        mood: String::from(m),
    };
    record_mood(&mood("tok-a", "happy"), &mut store, String::from("t1")).unwrap();
    record_mood(&mood("tok-b", "calm"), &mut store, String::from("t2")).unwrap();
    record_mood(&mood("tok-a", "sad"), &mut store, String::from("t3")).unwrap();
    keep_file(&vec![1, 2, 3], &String::from("tok-a"), &String::from("a.txt"), &mut store, String::from("f1")).unwrap();
    keep_file(&vec![4], &String::from("tok-b"), &String::from("b.txt"), &mut store, String::from("f2")).unwrap();
    let r = wipe_user(&TokenOnlyPayload { api_token: String::from("tok-a") }, &mut store);
    assert_eq!(r, Ok(StatusResponse { status: 0 }));
    assert_eq!(store.users.len(), 1);
    assert_eq!(store.users[0].username, "bob");
    assert_eq!(store.api_tokens.len(), 1);
    assert_eq!(store.api_tokens[0].token, "tok-b");
    assert_eq!(store.moods.len(), 1);
    assert_eq!(store.moods[0].mood, "calm");
    assert!(store.moods[0].is_active);
    assert_eq!(store.user_files.len(), 1);
    assert_eq!(store.user_files[0].file_id, "f2");
}

#[test]
fn wipe_user_with_an_unknown_token_is_not_found() {
    let mut store = Store::new();
    register(&mut store, "alice", "t-alice");
    let e = wipe_user(&TokenOnlyPayload { api_token: String::from("nope") }, &mut store)
        .unwrap_err();
    assert_eq!(e.kind, ErrKind::NotFound);
    assert_eq!(store.users.len(), 1);
}

#[test]
fn set_password_replaces_the_digest_of_the_owner_only() {
    let mut store = Store::new();
    register(&mut store, "alice", "t-alice");
    register(&mut store, "bob", "t-bob");
    token_for(&mut store, "bob", "tok-b", true);
    let r = set_password(&String::from("tok-b"), String::from("NEW"), &mut store);
    assert_eq!(r, Ok(StatusResponse { status: 0 }));
    assert_eq!(store.users[0], user("alice", "t-alice"));
    assert_eq!(store.users[1], JadeUser { pwd: String::from("NEW"), ..user("bob", "t-bob") });
}

#[test]
fn set_password_without_the_capability_is_forbidden() {
    let mut store = Store::new();
    register(&mut store, "alice", "t-alice");
    token_for(&mut store, "alice", "tok-a", false);
    let e = set_password(&String::from("tok-a"), String::from("NEW"), &mut store).unwrap_err();
    assert_eq!(e.kind, ErrKind::Forbidden);
    assert_eq!(store.users[0], user("alice", "t-alice"));
}

#[test]
fn update_user_password_stores_a_digest_of_the_new_password() {
    let mut store = Store::new();
    register(&mut store, "alice", "t-alice");
    token_for(&mut store, "alice", "tok-a", true);
    let p = ChangeEntityPayload { new_entity: String::from("pw2"), api_token: String::from("tok-a") };
    assert_eq!(update_user_password(&p, &mut store), Ok(StatusResponse { status: 0 }));
    assert_ne!(store.users[0].pwd, "pw2");
    assert_eq!(verify_secret("pw2", &store.users[0].pwd), Ok(true));
    assert_eq!(verify_secret("pw1", &store.users[0].pwd), Ok(false));
}

#[test]
fn update_user_password_with_an_unknown_token_is_not_found() {
    let mut store = Store::new();
    register(&mut store, "alice", "t-alice");
    let p = ChangeEntityPayload { new_entity: String::from("pw2"), api_token: String::from("nope") };
    let e = update_user_password(&p, &mut store).unwrap_err();
    assert_eq!(e.kind, ErrKind::NotFound);
    assert_eq!(store.users[0], user("alice", "t-alice"));
}

#[test]
fn email_change_is_applied_only_when_the_mail_was_delivered() {
    let mut store = Store::new();
    register(&mut store, "alice", "t-alice");
    token_for(&mut store, "alice", "tok-a", true);
    let p = ChangeEntityPayload {
        new_entity: String::from("new@x.com"),
        api_token: String::from("tok-a"),
    };
    let change = prepare_email_change(&p, &store, &String::from("mail.example.org")).unwrap();
    assert_eq!(store.users[0], user("alice", "t-alice"));
    assert_eq!(change.mail.to, "alice <new@x.com>");
    assert_eq!(change.mail.subject, "Confirm your new email address, alice.");
    assert!(change.mail.body.ends_with(&change.email_token));
    assert_eq!(verify_secret("new@x.com", &change.email), Ok(true));
    let e = update_user_email(&change, false, &mut store).unwrap_err();
    assert_eq!(e.kind, ErrKind::UpstreamFailure);
    assert_eq!(store.users[0], user("alice", "t-alice"));
    assert_eq!(update_user_email(&change, true, &mut store), Ok(StatusResponse { status: 0 }));
    assert_eq!(store.users[0].email, change.email);
    assert_eq!(store.users[0].email_token, change.email_token);
    assert_eq!(store.users[0].pwd, "pwd-digest");
}

#[test]
fn email_change_without_the_capability_is_forbidden() {
    let mut store = Store::new();
    register(&mut store, "alice", "t-alice");
    token_for(&mut store, "alice", "tok-a", false);
    let p = ChangeEntityPayload {
        new_entity: String::from("new@x.com"),
        api_token: String::from("tok-a"),
    };
    let e = prepare_email_change(&p, &store, &String::from("mail.example.org")).unwrap_err();
    assert_eq!(e.kind, ErrKind::Forbidden);
    let forged = EmailChange {
        api_token: String::from("tok-a"),
        email: String::from("EMAIL-1"),
        email_token: String::from("TOKEN-1"),
        mail: jade::compose_verification(
            &String::from("s"),
            &String::from("alice"),
            &String::from("new@x.com"),
            &String::from("TOKEN-1"),
            true,
        ),
    };
    let e = update_user_email(&forged, true, &mut store).unwrap_err();
    assert_eq!(e.kind, ErrKind::Forbidden);
    assert_eq!(store.users[0], user("alice", "t-alice"));
}

#[test]
fn email_change_must_rotate_the_verification_token() {
    let mut store = Store::new();
    register(&mut store, "alice", "t-alice");
    token_for(&mut store, "alice", "tok-a", true);
    let same = EmailChange {
        api_token: String::from("tok-a"),
        email: String::from("NEW-EMAIL"),
        email_token: String::from("t-alice"),
        mail: jade::compose_verification(
            &String::from("s"),
            &String::from("alice"),
            &String::from("new@x.com"),
            &String::from("t-alice"),
            true,
        ),
    };
    let e = update_user_email(&same, true, &mut store).unwrap_err();
    assert_eq!(e.kind, ErrKind::UpstreamFailure);
    assert_eq!(store.users[0], user("alice", "t-alice"));
}

#[test]
fn email_change_gives_a_token_that_differs_from_the_current_one() {
    let mut store = Store::new();
    register(&mut store, "alice", "t-alice");
    token_for(&mut store, "alice", "tok-a", true);
    let p = ChangeEntityPayload {
        new_entity: String::from("new@x.com"),
        api_token: String::from("tok-a"),
    };
    let change = prepare_email_change(&p, &store, &String::from("mail.example.org")).unwrap();
    assert_ne!(change.email_token, "t-alice");
    assert_eq!(change.email_token.len(), 60);
    assert_eq!(change.email.len(), 60);
}

#[test]
fn verified_email_gets_a_token_of_the_length_of_a_digest() {
    let mut store = Store::new();
    register(&mut store, "alice", "t-alice");
    assert_eq!(verify_user_email(&String::from("t-alice"), &mut store), Ok(true));
    assert!(store.users[0].is_active);
    assert_eq!(store.users[0].email_token.len(), 60);
    assert_ne!(store.users[0].email_token, "t-alice");
}

#[test]
fn registered_password_is_stored_as_a_digest() {
    let mut store = Store::new();
    let e = prepare_user(
        &payload("alice", "a@x.com", "pw1"),
        &store,
        &String::from("mail.example.org"),
    )
    .unwrap();
    let created = write_user(&e, true, &mut store).unwrap();
    assert_ne!(created.pwd, "pw1");
    assert_eq!(created.pwd.len(), 60);
    assert_eq!(verify_secret("pw1", &created.pwd), Ok(true));
    assert_eq!(created.email_token.len(), 60);
}
