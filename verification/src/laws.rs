//! What holds of every store the operations can reach, and how the
//! operations relate to each other.

use vstd::prelude::*;
use crate::creds::answers_verdict;
use crate::creds::digest_len;
use crate::creds::digest_of;
use crate::creds::digest_verdict;
use crate::err::ErrKind;
use crate::err::JadeErr;
use crate::files::file_record;
use crate::files::upload;
use crate::moods::mood_reading;
use crate::moods::mood_setting;
use crate::seqs::lemma_filter_nothing;
use crate::seqs::lemma_filter_of_filtered;
use crate::seqs::lemma_filter_of_mapped;
use crate::seqs::lemma_filter_passes;
use crate::store::StoreView;
use crate::store::activated;
use crate::store::active_mood;
use crate::store::active_of;
use crate::store::bearing;
use crate::store::empty_store;
use crate::store::file_not_of;
use crate::store::fresh_mood;
use crate::store::holding;
use crate::store::lemma_named_hit;
use crate::store::live_bearing;
use crate::store::mood_not_of;
use crate::store::named;
use crate::store::not_named;
use crate::store::permitted;
use crate::store::readdressed;
use crate::store::repassworded;
use crate::store::retired;
use crate::store::revoked;
use crate::store::token_bearing;
use crate::store::token_not_of;
use crate::store::token_owner;
use crate::store::user_named;
use crate::store::valid_token;
use crate::store::with_file;
use crate::store::with_mood;
use crate::store::with_token;
use crate::store::with_token_revoked;
use crate::store::with_user;
use crate::store::with_users_mapped;
use crate::store::without_moods;
use crate::store::without_user;
use crate::tokens::issuance;
use crate::tokens::issued_token;
use crate::tokens::revocation;
use crate::units::Capability;
use crate::units::CreateTokenPayload;
use crate::units::FileView;
use crate::units::MoodView;
use crate::units::TokenView;
use crate::units::UserView;
use crate::units::grants;
use crate::users::address_change;
use crate::users::confirmation;
use crate::users::inserted_user;
use crate::users::password_change;
use crate::users::registration;
use crate::users::taken;

verus! {

// ---------------------------------------------------------------------
// The invariants of the store
// ---------------------------------------------------------------------

/// No two users share a username.
pub open spec fn usernames_unique(s: StoreView) -> bool {
    forall|name: Seq<char>| #[trigger] s.users.filter(named(name)).len() <= 1
}

/// No two API tokens share a token text.
pub open spec fn token_texts_unique(s: StoreView) -> bool {
    forall|text: Seq<char>| #[trigger] s.api_tokens.filter(bearing(text)).len() <= 1
}

/// No user has more than one active mood.
pub open spec fn one_active_mood_each(s: StoreView) -> bool {
    forall|owner: Seq<char>| #[trigger] s.moods.filter(active_of(owner)).len() <= 1
}

/// Every mood, API token and file belongs to a registered user.
pub open spec fn owners_registered(s: StoreView) -> bool {
    &&& forall|i: int| 0 <= i < s.moods.len() ==> taken(s, (#[trigger] s.moods[i]).username)
    &&& forall|i: int|
        0 <= i < s.api_tokens.len() ==> taken(s, (#[trigger] s.api_tokens[i]).username)
    &&& forall|i: int|
        0 <= i < s.user_files.len() ==> taken(s, (#[trigger] s.user_files[i]).username)
}

/// The store keeps all of its invariants.
pub open spec fn well_formed(s: StoreView) -> bool {
    &&& usernames_unique(s)
    &&& token_texts_unique(s)
    &&& one_active_mood_each(s)
    &&& owners_registered(s)
}

/// The empty store is well formed.
pub proof fn lemma_empty_store_is_well_formed()
    ensures
        well_formed(empty_store()),
{
    let s = empty_store();
    assert forall|name: Seq<char>| #[trigger] s.users.filter(named(name)).len() <= 1 by {
        s.users.lemma_filter_len(named(name));
    }
    assert forall|text: Seq<char>| #[trigger] s.api_tokens.filter(bearing(text)).len() <= 1 by {
        s.api_tokens.lemma_filter_len(bearing(text));
    }
    assert forall|owner: Seq<char>| #[trigger] s.moods.filter(active_of(owner)).len() <= 1 by {
        s.moods.lemma_filter_len(active_of(owner));
    }
}

// ---------------------------------------------------------------------
// Each transition keeps the invariants
// ---------------------------------------------------------------------

/// Rows that a step leaves alone keep registered owners, provided every
/// name that was registered still is.
pub proof fn lemma_owned_rows_carry_over(s: StoreView, next: StoreView)
    requires
        owners_registered(s),
        forall|name: Seq<char>| #[trigger] taken(s, name) ==> taken(next, name),
    ensures
        next.moods == s.moods ==> forall|i: int|
            0 <= i < next.moods.len() ==> taken(next, (#[trigger] next.moods[i]).username),
        next.api_tokens == s.api_tokens ==> forall|i: int|
            0 <= i < next.api_tokens.len() ==> taken(
                next,
                (#[trigger] next.api_tokens[i]).username,
            ),
        next.user_files == s.user_files ==> forall|i: int|
            0 <= i < next.user_files.len() ==> taken(
                next,
                (#[trigger] next.user_files[i]).username,
            ),
{
    if next.moods == s.moods {
        assert forall|i: int| 0 <= i < next.moods.len() implies taken(
            next,
            (#[trigger] next.moods[i]).username,
        ) by {
            assert(taken(s, s.moods[i].username));
        }
    }
    if next.api_tokens == s.api_tokens {
        assert forall|i: int| 0 <= i < next.api_tokens.len() implies taken(
            next,
            (#[trigger] next.api_tokens[i]).username,
        ) by {
            assert(taken(s, s.api_tokens[i].username));
        }
    }
    if next.user_files == s.user_files {
        assert forall|i: int| 0 <= i < next.user_files.len() implies taken(
            next,
            (#[trigger] next.user_files[i]).username,
        ) by {
            assert(taken(s, s.user_files[i].username));
        }
    }
}

/// Inserting a user whose name is free keeps the invariants.
pub proof fn lemma_with_user_keeps(s: StoreView, u: UserView)
    requires
        well_formed(s),
        !taken(s, u.username),
    ensures
        well_formed(with_user(s, u)),
        taken(with_user(s, u), u.username),
{
    let next = with_user(s, u);
    assert forall|name: Seq<char>| #[trigger] next.users.filter(named(name)).len() <= 1 by {
        s.users.lemma_filter_push(u, named(name));
        assert(s.users.filter(named(name)).len() <= 1);
    }
    assert forall|name: Seq<char>| taken(s, name) implies taken(next, name) by {
        s.users.lemma_filter_push(u, named(name));
    }
    s.users.lemma_filter_push(u, named(u.username));
    lemma_owned_rows_carry_over(s, next);
}

/// Changing users without changing a username keeps the invariants, and
/// keeps every username as often as it was there.
pub proof fn lemma_users_mapped_keeps(s: StoreView, f: spec_fn(UserView) -> UserView)
    requires
        well_formed(s),
        forall|u: UserView| (#[trigger] f(u)).username == u.username,
    ensures
        well_formed(with_users_mapped(s, f)),
        forall|name: Seq<char>|
            #[trigger] with_users_mapped(s, f).users.filter(named(name)).len() == s.users.filter(
                named(name),
            ).len(),
{
    let next = with_users_mapped(s, f);
    assert forall|name: Seq<char>| #[trigger]
        next.users.filter(named(name)).len() == s.users.filter(named(name)).len() by {
        lemma_filter_of_mapped(s.users, f, named(name));
    }
    assert forall|name: Seq<char>| #[trigger] next.users.filter(named(name)).len() <= 1 by {
        assert(s.users.filter(named(name)).len() <= 1);
    }
    lemma_owned_rows_carry_over(s, next);
}

/// A user that is not the deleted one is registered after the deletion as
/// often as before.
pub proof fn lemma_others_stay(s: StoreView, gone: Seq<char>, name: Seq<char>)
    requires
        name != gone,
    ensures
        without_user(s, gone).users.filter(named(name)) == s.users.filter(named(name)),
{
    assert forall|u: UserView| #[trigger] named(name)(u) implies not_named(gone)(u) by {}
    lemma_filter_of_filtered(s.users, not_named(gone), named(name));
}

/// Deleting a user with everything it owns keeps the invariants, and leaves
/// nothing of the user behind.
pub proof fn lemma_without_user_keeps(s: StoreView, gone: Seq<char>)
    requires
        well_formed(s),
    ensures
        well_formed(without_user(s, gone)),
        !taken(without_user(s, gone), gone),
        forall|i: int|
            0 <= i < without_user(s, gone).moods.len() ==> (#[trigger] without_user(
                s,
                gone,
            ).moods[i]).username != gone,
        forall|i: int|
            0 <= i < without_user(s, gone).api_tokens.len() ==> (#[trigger] without_user(
                s,
                gone,
            ).api_tokens[i]).username != gone,
        forall|i: int|
            0 <= i < without_user(s, gone).user_files.len() ==> (#[trigger] without_user(
                s,
                gone,
            ).user_files[i]).username != gone,
{
    let next = without_user(s, gone);
    assert forall|name: Seq<char>| #[trigger] next.users.filter(named(name)).len() <= 1 by {
        lemma_filter_of_filtered(s.users, not_named(gone), named(name));
        assert(s.users.filter(named(name)).len() <= 1);
    }
    assert forall|text: Seq<char>| #[trigger] next.api_tokens.filter(bearing(text)).len() <= 1 by {
        lemma_filter_of_filtered(s.api_tokens, token_not_of(gone), bearing(text));
        assert(s.api_tokens.filter(bearing(text)).len() <= 1);
    }
    assert forall|owner: Seq<char>| #[trigger] next.moods.filter(active_of(owner)).len() <= 1 by {
        lemma_filter_of_filtered(s.moods, mood_not_of(gone), active_of(owner));
        assert(s.moods.filter(active_of(owner)).len() <= 1);
    }
    lemma_filter_passes(s.users, not_named(gone));
    lemma_filter_passes(s.moods, mood_not_of(gone));
    lemma_filter_passes(s.api_tokens, token_not_of(gone));
    lemma_filter_passes(s.user_files, file_not_of(gone));
    assert(next.users.filter(named(gone)).len() == 0) by {
        assert forall|i: int| 0 <= i < next.users.len() implies !named(gone)(
            #[trigger] next.users[i],
        ) by {
            assert(not_named(gone)(next.users[i]));
        }
        lemma_filter_nothing(next.users, named(gone));
    }
    assert forall|i: int| 0 <= i < next.moods.len() implies taken(
        next,
        (#[trigger] next.moods[i]).username,
    ) && next.moods[i].username != gone by {
        let m = next.moods[i];
        assert(mood_not_of(gone)(m));
        assert(next.moods.contains(m));
        s.moods.lemma_filter_contains_rev(mood_not_of(gone), m);
        let j = choose|j: int| 0 <= j < s.moods.len() && s.moods[j] == m;
        assert(taken(s, s.moods[j].username));
        lemma_others_stay(s, gone, m.username);
    }
    assert forall|i: int| 0 <= i < next.api_tokens.len() implies taken(
        next,
        (#[trigger] next.api_tokens[i]).username,
    ) && next.api_tokens[i].username != gone by {
        let t = next.api_tokens[i];
        assert(token_not_of(gone)(t));
        assert(next.api_tokens.contains(t));
        s.api_tokens.lemma_filter_contains_rev(token_not_of(gone), t);
        let j = choose|j: int| 0 <= j < s.api_tokens.len() && s.api_tokens[j] == t;
        assert(taken(s, s.api_tokens[j].username));
        lemma_others_stay(s, gone, t.username);
    }
    assert forall|i: int| 0 <= i < next.user_files.len() implies taken(
        next,
        (#[trigger] next.user_files[i]).username,
    ) && next.user_files[i].username != gone by {
        let f = next.user_files[i];
        assert(file_not_of(gone)(f));
        assert(next.user_files.contains(f));
        s.user_files.lemma_filter_contains_rev(file_not_of(gone), f);
        let j = choose|j: int| 0 <= j < s.user_files.len() && s.user_files[j] == f;
        assert(taken(s, s.user_files[j].username));
        lemma_others_stay(s, gone, f.username);
    }
}

/// Inserting a token with an unused text for a registered user keeps the
/// invariants.
pub proof fn lemma_with_token_keeps(s: StoreView, t: TokenView)
    requires
        well_formed(s),
        s.api_tokens.filter(bearing(t.token)).len() == 0,
        taken(s, t.username),
    ensures
        well_formed(with_token(s, t)),
{
    let next = with_token(s, t);
    assert forall|text: Seq<char>| #[trigger] next.api_tokens.filter(bearing(text)).len() <= 1 by {
        s.api_tokens.lemma_filter_push(t, bearing(text));
        assert(s.api_tokens.filter(bearing(text)).len() <= 1);
    }
    assert forall|i: int| 0 <= i < next.api_tokens.len() implies taken(
        next,
        (#[trigger] next.api_tokens[i]).username,
    ) by {
        if i < s.api_tokens.len() {
            assert(taken(s, s.api_tokens[i].username));
        }
    }
    lemma_owned_rows_carry_over(s, next);
}

/// Revoking a token keeps the invariants. Every token keeps its place, its
/// text, its owner and its capabilities; no token becomes live.
pub proof fn lemma_token_revoked_keeps(s: StoreView, text: Seq<char>)
    requires
        well_formed(s),
    ensures
        well_formed(with_token_revoked(s, text)),
        with_token_revoked(s, text).api_tokens.len() == s.api_tokens.len(),
        forall|i: int|
            0 <= i < s.api_tokens.len() ==> {
                let before = s.api_tokens[i];
                let after = #[trigger] with_token_revoked(s, text).api_tokens[i];
                &&& after == TokenView { is_active: after.is_active, ..before }
                &&& after.is_active ==> before.is_active
            },
{
    let next = with_token_revoked(s, text);
    assert forall|other: Seq<char>| #[trigger]
        next.api_tokens.filter(bearing(other)).len() <= 1 by {
        lemma_filter_of_mapped(s.api_tokens, revoked(text), bearing(other));
        assert(s.api_tokens.filter(bearing(other)).len() <= 1);
    }
    lemma_owned_rows_carry_over(s, next);
}

/// After a user sets a mood, that mood is the user's only active one.
pub proof fn lemma_fresh_mood_is_the_active_one(
    s: StoreView,
    owner: Seq<char>,
    label: Seq<char>,
    at: Seq<char>,
)
    ensures
        with_mood(s, owner, label, at).moods.filter(active_of(owner)) == seq![
            fresh_mood(owner, label, at),
        ],
        active_mood(with_mood(s, owner, label, at), owner) == Ok::<MoodView, ErrKind>(
            fresh_mood(owner, label, at),
        ),
{
    let retired_moods = s.moods.map_values(retired(owner));
    assert forall|i: int| 0 <= i < retired_moods.len() implies !active_of(owner)(
        #[trigger] retired_moods[i],
    ) by {}
    lemma_filter_nothing(retired_moods, active_of(owner));
    retired_moods.lemma_filter_push(fresh_mood(owner, label, at), active_of(owner));
    assert(with_mood(s, owner, label, at).moods.filter(active_of(owner)) =~= seq![
        fresh_mood(owner, label, at),
    ]);
}

/// Setting a mood for a registered user keeps the invariants.
pub proof fn lemma_with_mood_keeps(s: StoreView, owner: Seq<char>, label: Seq<char>, at: Seq<char>)
    requires
        well_formed(s),
        taken(s, owner),
    ensures
        well_formed(with_mood(s, owner, label, at)),
{
    let next = with_mood(s, owner, label, at);
    let retired_moods = s.moods.map_values(retired(owner));
    assert forall|other: Seq<char>| #[trigger] next.moods.filter(active_of(other)).len() <= 1 by {
        if other == owner {
            lemma_fresh_mood_is_the_active_one(s, owner, label, at);
        } else {
            lemma_filter_of_mapped(s.moods, retired(owner), active_of(other));
            retired_moods.lemma_filter_push(fresh_mood(owner, label, at), active_of(other));
            assert(s.moods.filter(active_of(other)).len() <= 1);
        }
    }
    assert forall|i: int| 0 <= i < next.moods.len() implies taken(
        next,
        (#[trigger] next.moods[i]).username,
    ) by {
        if i < s.moods.len() {
            assert(taken(s, s.moods[i].username));
        }
    }
    lemma_owned_rows_carry_over(s, next);
}

/// Deleting the moods of a user keeps the invariants and leaves the user
/// without an active mood.
pub proof fn lemma_without_moods_keeps(s: StoreView, owner: Seq<char>)
    requires
        well_formed(s),
    ensures
        well_formed(without_moods(s, owner)),
        active_mood(without_moods(s, owner), owner) == Err::<MoodView, ErrKind>(ErrKind::NotFound),
{
    let next = without_moods(s, owner);
    assert forall|other: Seq<char>| #[trigger] next.moods.filter(active_of(other)).len() <= 1 by {
        lemma_filter_of_filtered(s.moods, mood_not_of(owner), active_of(other));
        assert(s.moods.filter(active_of(other)).len() <= 1);
    }
    lemma_filter_passes(s.moods, mood_not_of(owner));
    assert forall|i: int| 0 <= i < next.moods.len() implies !active_of(owner)(
        #[trigger] next.moods[i],
    ) by {
        assert(mood_not_of(owner)(next.moods[i]));
    }
    lemma_filter_nothing(next.moods, active_of(owner));
    assert forall|i: int| 0 <= i < next.moods.len() implies taken(
        next,
        (#[trigger] next.moods[i]).username,
    ) by {
        let m = next.moods[i];
        assert(next.moods.contains(m));
        s.moods.lemma_filter_contains_rev(mood_not_of(owner), m);
        let j = choose|j: int| 0 <= j < s.moods.len() && s.moods[j] == m;
        assert(taken(s, s.moods[j].username));
    }
    lemma_owned_rows_carry_over(s, next);
}

/// Recording a file for a registered user keeps the invariants.
pub proof fn lemma_with_file_keeps(s: StoreView, f: FileView)
    requires
        well_formed(s),
        taken(s, f.username),
    ensures
        well_formed(with_file(s, f)),
{
    let next = with_file(s, f);
    assert forall|i: int| 0 <= i < next.user_files.len() implies taken(
        next,
        (#[trigger] next.user_files[i]).username,
    ) by {
        if i < s.user_files.len() {
            assert(taken(s, s.user_files[i].username));
        }
    }
    lemma_owned_rows_carry_over(s, next);
}

// ---------------------------------------------------------------------
// Digests
// ---------------------------------------------------------------------

/// Verifying a plain text against a digest that was made of it answers
/// `Ok(true)`: whatever `hash_secret` returns for a text, `verify_secret`
/// accepts for that text, and never with an error.
pub proof fn lemma_digest_verifies_against_its_plain_text(
    plain: Seq<char>,
    digest: Seq<char>,
    answer: Result<bool, JadeErr>,
)
    requires
        digest_of(plain, digest),
        answers_verdict(plain, digest, answer),
    ensures
        answer == Ok::<bool, JadeErr>(true),
{
}

/// What a registration stores as the password is the digest that was made
/// of it: the stored text verifies against the password, has the length of
/// a digest, and differs from every password of another length.
pub proof fn lemma_registration_stores_the_digest(
    s: StoreView,
    u: UserView,
    password: Seq<char>,
    delivered: bool,
)
    requires
        digest_of(password, u.pwd),
        registration(s, u, delivered) is Ok,
    ensures
        ({
            let stored = user_named(registration(s, u, delivered).unwrap(), u.username);
            &&& stored is Ok
            &&& digest_verdict(password, stored.unwrap().pwd) == Some(true)
            &&& stored.unwrap().pwd.len() == digest_len()
            &&& password.len() != digest_len() ==> stored.unwrap().pwd != password
        }),
{
    let inserted = inserted_user(u);
    s.users.lemma_filter_push(inserted, named(u.username));
    assert(registration(s, u, delivered).unwrap().users.filter(named(u.username)) =~= seq![
        inserted,
    ]);
}

// ---------------------------------------------------------------------
// Resolving tokens
// ---------------------------------------------------------------------

/// The user that a lookup by name finds bears that name and is registered.
pub proof fn lemma_found_user_is_registered(s: StoreView, name: Seq<char>)
    requires
        user_named(s, name) is Ok,
    ensures
        user_named(s, name).unwrap().username == name,
        taken(s, name),
{
    lemma_named_hit(s.users, name);
}

/// The owner that a permitted token resolves to is a registered user, found
/// again under its own name.
pub proof fn lemma_permitted_owner_is_registered(s: StoreView, token: Seq<char>, cap: Capability)
    requires
        permitted(s, token, cap) is Ok,
    ensures
        taken(s, permitted(s, token, cap).unwrap().username),
        user_named(s, permitted(s, token, cap).unwrap().username) == permitted(s, token, cap),
{
    let t = token_bearing(s, token).unwrap();
    lemma_found_user_is_registered(s, t.username);
}

/// The owner that a valid token resolves to is a registered user.
pub proof fn lemma_token_owner_is_registered(s: StoreView, token: Seq<char>)
    requires
        token_owner(s, token) is Ok,
    ensures
        taken(s, token_owner(s, token).unwrap().username),
{
    let t = valid_token(s, token).unwrap();
    lemma_found_user_is_registered(s, t.username);
}

/// A token that lacks a capability, or is revoked, is refused for it.
pub proof fn lemma_token_without_capability_is_forbidden(
    s: StoreView,
    token: Seq<char>,
    cap: Capability,
)
    requires
        token_bearing(s, token) is Ok,
        !token_bearing(s, token).unwrap().is_active || !grants(
            token_bearing(s, token).unwrap(),
            cap,
        ),
    ensures
        permitted(s, token, cap) == Err::<UserView, ErrKind>(ErrKind::Forbidden),
        cap == Capability::SetMood ==> forall|label: Seq<char>, at: Seq<char>| #[trigger]
            mood_setting(s, token, label, at) == Err::<StoreView, ErrKind>(ErrKind::Forbidden),
{
}

// ---------------------------------------------------------------------
// The operations keep the invariants
// ---------------------------------------------------------------------

/// A registration that succeeds keeps the invariants.
pub proof fn lemma_registration_keeps(s: StoreView, u: UserView, delivered: bool)
    requires
        well_formed(s),
        registration(s, u, delivered) is Ok,
    ensures
        well_formed(registration(s, u, delivered).unwrap()),
{
    lemma_with_user_keeps(s, inserted_user(u));
}

/// Of two registrations under one username, the second is refused with
/// `DuplicateUser`, whatever else it asks for: at most one succeeds.
pub proof fn lemma_second_registration_is_refused(
    s: StoreView,
    first: UserView,
    second: UserView,
    delivered: bool,
)
    requires
        registration(s, first, true) is Ok,
        second.username == first.username,
    ensures
        registration(registration(s, first, true).unwrap(), second, delivered) == Err::<
            StoreView,
            ErrKind,
        >(ErrKind::DuplicateUser),
{
    s.users.lemma_filter_push(inserted_user(first), named(first.username));
}

/// A user is inactive when registered, and active once the email is
/// confirmed with the verification token.
pub proof fn lemma_registered_user_becomes_active(
    s: StoreView,
    u: UserView,
    fresh: Seq<char>,
)
    requires
        well_formed(s),
        registration(s, u, true) is Ok,
        confirmation(registration(s, u, true).unwrap(), u.email_token, fresh) is Ok,
    ensures
        ({
            let registered = registration(s, u, true).unwrap();
            let confirmed = confirmation(registered, u.email_token, fresh).unwrap();
            &&& user_named(registered, u.username) is Ok
            &&& !user_named(registered, u.username).unwrap().is_active
            &&& user_named(confirmed, u.username) is Ok
            &&& user_named(confirmed, u.username).unwrap().is_active
        }),
{
    let inserted = inserted_user(u);
    let registered = registration(s, u, true).unwrap();
    let confirmed = confirmation(registered, u.email_token, fresh).unwrap();
    s.users.lemma_filter_push(inserted, named(u.username));
    s.users.lemma_filter_push(inserted, holding(u.email_token));
    assert(registered.users.filter(named(u.username)) =~= seq![inserted]);
    assert(registered.users.filter(holding(u.email_token)).len() == 1);
    assert(s.users.filter(holding(u.email_token)).len() == 0) by {
        s.users.lemma_filter_len(holding(u.email_token));
    }
    assert(registered.users.filter(holding(u.email_token)) =~= seq![inserted]);
    lemma_filter_of_mapped(registered.users, activated(u.username, fresh), named(u.username));
}

/// A confirmation that succeeds keeps the invariants, and its verification
/// token cannot be presented again.
pub proof fn lemma_confirmation_keeps(s: StoreView, token: Seq<char>, fresh: Seq<char>)
    requires
        well_formed(s),
        confirmation(s, token, fresh) is Ok,
    ensures
        well_formed(confirmation(s, token, fresh).unwrap()),
        forall|again: Seq<char>| #[trigger]
            confirmation(confirmation(s, token, fresh).unwrap(), token, again) == Err::<
                StoreView,
                ErrKind,
            >(ErrKind::NotFound),
{
    let holders = s.users.filter(holding(token));
    let name = holders[0].username;
    let next = confirmation(s, token, fresh).unwrap();
    lemma_users_mapped_keeps(s, activated(name, fresh));
    lemma_filter_passes(s.users, holding(token));
    assert forall|i: int| 0 <= i < next.users.len() implies !holding(token)(
        #[trigger] next.users[i],
    ) by {
        let before = s.users[i];
        if before.username != name && before.email_token == token {
            // a second holder of the token
            s.users.lemma_filter_contains(holding(token), i);
            assert(holders.contains(before));
            let j = choose|j: int| 0 <= j < holders.len() && holders[j] == before;
            assert(j == 0);
        }
    }
    lemma_filter_nothing(next.users, holding(token));
}

/// A password change that succeeds keeps the invariants, and the owner is
/// found again with the new digest and nothing else changed.
pub proof fn lemma_password_change_keeps(s: StoreView, token: Seq<char>, digest: Seq<char>)
    requires
        well_formed(s),
        password_change(s, token, digest) is Ok,
    ensures
        well_formed(password_change(s, token, digest).unwrap()),
        ({
            let owner = permitted(s, token, Capability::ChangeCredentials).unwrap();
            user_named(password_change(s, token, digest).unwrap(), owner.username) == Ok::<
                UserView,
                ErrKind,
            >(UserView { pwd: digest, ..owner })
        }),
{
    let owner = permitted(s, token, Capability::ChangeCredentials).unwrap();
    let change = repassworded(owner.username, digest);
    lemma_users_mapped_keeps(s, change);
    lemma_permitted_owner_is_registered(s, token, Capability::ChangeCredentials);
    lemma_filter_of_mapped(s.users, change, named(owner.username));
}

/// An email change that succeeds keeps the invariants and rotates the
/// verification token: the owner is found again with the new email digest
/// and a verification token that differs from the one held before.
pub proof fn lemma_address_change_keeps(
    s: StoreView,
    token: Seq<char>,
    digest: Seq<char>,
    email_token: Seq<char>,
    delivered: bool,
)
    requires
        well_formed(s),
        address_change(s, token, digest, email_token, delivered) is Ok,
    ensures
        well_formed(address_change(s, token, digest, email_token, delivered).unwrap()),
        ({
            let owner = permitted(s, token, Capability::ChangeCredentials).unwrap();
            let next = address_change(s, token, digest, email_token, delivered).unwrap();
            &&& user_named(next, owner.username) == Ok::<UserView, ErrKind>(
                UserView { email: digest, email_token, ..owner },
            )
            &&& user_named(next, owner.username).unwrap().email_token != owner.email_token
        }),
{
    let owner = permitted(s, token, Capability::ChangeCredentials).unwrap();
    let change = readdressed(owner.username, digest, email_token);
    lemma_users_mapped_keeps(s, change);
    lemma_permitted_owner_is_registered(s, token, Capability::ChangeCredentials);
    lemma_filter_of_mapped(s.users, change, named(owner.username));
}

/// An issuance that succeeds keeps the invariants.
pub proof fn lemma_issuance_keeps(
    s: StoreView,
    p: CreateTokenPayload,
    password_ok: bool,
    text: Seq<char>,
    at: Seq<char>,
)
    requires
        well_formed(s),
        issuance(s, p, password_ok, text, at) is Ok,
    ensures
        well_formed(issuance(s, p, password_ok, text, at).unwrap()),
{
    lemma_found_user_is_registered(s, p.username@);
    lemma_with_token_keeps(s, issued_token(p, text, at));
}

/// A revocation that succeeds keeps the invariants, and the revoked token
/// is from then on neither valid nor permitted anything.
pub proof fn lemma_revocation_keeps(s: StoreView, text: Seq<char>, password_ok: bool)
    requires
        well_formed(s),
        revocation(s, text, password_ok) is Ok,
    ensures
        well_formed(revocation(s, text, password_ok).unwrap()),
        valid_token(revocation(s, text, password_ok).unwrap(), text) == Err::<TokenView, ErrKind>(
            ErrKind::NotFound,
        ),
        forall|cap: Capability| #[trigger]
            permitted(revocation(s, text, password_ok).unwrap(), text, cap) == Err::<
                UserView,
                ErrKind,
            >(ErrKind::Forbidden),
{
    let next = revocation(s, text, password_ok).unwrap();
    lemma_token_revoked_keeps(s, text);
    assert forall|i: int| 0 <= i < next.api_tokens.len() implies !live_bearing(text)(
        #[trigger] next.api_tokens[i],
    ) by {}
    lemma_filter_nothing(next.api_tokens, live_bearing(text));
    lemma_filter_of_mapped(s.api_tokens, revoked(text), bearing(text));
    lemma_filter_passes(s.api_tokens, bearing(text));
    let hits = s.api_tokens.filter(bearing(text));
    assert(next.api_tokens.filter(bearing(text))[0] == revoked(text)(hits[0]));
}

/// Setting a mood keeps the invariants.
pub proof fn lemma_mood_setting_keeps(
    s: StoreView,
    token: Seq<char>,
    label: Seq<char>,
    at: Seq<char>,
)
    requires
        well_formed(s),
        mood_setting(s, token, label, at) is Ok,
    ensures
        well_formed(mood_setting(s, token, label, at).unwrap()),
{
    lemma_permitted_owner_is_registered(s, token, Capability::SetMood);
    let owner = permitted(s, token, Capability::SetMood).unwrap();
    lemma_with_mood_keeps(s, owner.username, label, at);
}

/// Recording an upload keeps the invariants.
pub proof fn lemma_upload_keeps(
    s: StoreView,
    token: Seq<char>,
    file_id: Seq<char>,
    name: Seq<char>,
    data: Seq<u8>,
)
    requires
        well_formed(s),
        upload(s, token, file_id, name, data) is Ok,
    ensures
        well_formed(upload(s, token, file_id, name, data).unwrap()),
{
    lemma_token_owner_is_registered(s, token);
    let owner = token_owner(s, token).unwrap();
    lemma_with_file_keeps(s, file_record(owner.username, file_id, name, data));
}

// ---------------------------------------------------------------------
// The active mood
// ---------------------------------------------------------------------

/// After a mood is set, reading the owner's active mood gives exactly that
/// mood, and it is the owner's only active one.
pub proof fn lemma_set_mood_is_read_back(
    s: StoreView,
    token: Seq<char>,
    label: Seq<char>,
    at: Seq<char>,
)
    requires
        mood_setting(s, token, label, at) is Ok,
    ensures
        ({
            let owner = permitted(s, token, Capability::SetMood).unwrap().username;
            let next = mood_setting(s, token, label, at).unwrap();
            &&& mood_reading(next, owner) == Ok::<MoodView, ErrKind>(fresh_mood(owner, label, at))
            &&& next.moods.filter(active_of(owner)).len() == 1
            &&& permitted(next, token, Capability::SetMood) == permitted(
                s,
                token,
                Capability::SetMood,
            )
        }),
{
    lemma_permitted_owner_is_registered(s, token, Capability::SetMood);
    let owner = permitted(s, token, Capability::SetMood).unwrap().username;
    lemma_fresh_mood_is_the_active_one(s, owner, label, at);
}

/// When a user sets one mood and then another with the same token, the
/// second is the active one afterwards, and the only active one.
pub proof fn lemma_second_mood_replaces_first(
    s: StoreView,
    token: Seq<char>,
    first_label: Seq<char>,
    first_at: Seq<char>,
    second_label: Seq<char>,
    second_at: Seq<char>,
)
    requires
        mood_setting(s, token, first_label, first_at) is Ok,
    ensures
        ({
            let owner = permitted(s, token, Capability::SetMood).unwrap().username;
            let once = mood_setting(s, token, first_label, first_at).unwrap();
            let twice = mood_setting(once, token, second_label, second_at);
            &&& twice is Ok
            &&& mood_reading(twice.unwrap(), owner) == Ok::<MoodView, ErrKind>(
                fresh_mood(owner, second_label, second_at),
            )
            &&& twice.unwrap().moods.filter(active_of(owner)).len() == 1
        }),
{
    lemma_set_mood_is_read_back(s, token, first_label, first_at);
    let once = mood_setting(s, token, first_label, first_at).unwrap();
    lemma_set_mood_is_read_back(once, token, second_label, second_at);
}

/// A request to set a mood: the token presented, the label and the time.
pub struct MoodRequest {
    pub token: Seq<char>,
    pub label: Seq<char>,
    pub at: Seq<char>,
}

/// The store after the requests are served one after the other; a request
/// that is refused changes nothing.
pub open spec fn after_requests(s: StoreView, requests: Seq<MoodRequest>) -> StoreView
    decreases requests.len(),
{
    if requests.len() == 0 {
        s
    } else {
        let before = after_requests(s, requests.drop_last());
        let last = requests.last();
        match mood_setting(before, last.token, last.label, last.at) {
            Ok(next) => next,
            Err(_) => before,
        }
    }
}

/// Serving requests to set moods keeps the invariants: whatever the
/// requests and their order, no user is left with two active moods.
pub proof fn lemma_requests_keep_invariants(s: StoreView, requests: Seq<MoodRequest>)
    requires
        well_formed(s),
    ensures
        well_formed(after_requests(s, requests)),
    decreases requests.len(),
{
    if requests.len() > 0 {
        lemma_requests_keep_invariants(s, requests.drop_last());
        let before = after_requests(s, requests.drop_last());
        let last = requests.last();
        if mood_setting(before, last.token, last.label, last.at) is Ok {
            lemma_mood_setting_keeps(before, last.token, last.label, last.at);
        }
    }
}

/// Requests to set moods for one owner, served in any order, leave that
/// owner with exactly one active mood: the one of the request served last.
pub proof fn lemma_last_request_wins(s: StoreView, owner: Seq<char>, requests: Seq<MoodRequest>)
    requires
        requests.len() > 0,
        forall|i: int|
            0 <= i < requests.len() ==> permitted(
                s,
                (#[trigger] requests[i]).token,
                Capability::SetMood,
            ) is Ok && permitted(s, requests[i].token, Capability::SetMood).unwrap().username
                == owner,
    ensures
        after_requests(s, requests).moods.filter(active_of(owner)).len() == 1,
        active_mood(after_requests(s, requests), owner) == Ok::<MoodView, ErrKind>(
            fresh_mood(owner, requests.last().label, requests.last().at),
        ),
{
    let earlier = requests.drop_last();
    let before = after_requests(s, earlier);
    let last = requests.last();
    lemma_requests_touch_moods_only(s, earlier);
    assert(permitted(before, last.token, Capability::SetMood) == permitted(
        s,
        last.token,
        Capability::SetMood,
    ));
    lemma_fresh_mood_is_the_active_one(before, owner, last.label, last.at);
}

/// Serving requests to set moods changes nothing but the moods, so a token
/// is permitted afterwards what it was permitted before.
pub proof fn lemma_requests_touch_moods_only(s: StoreView, requests: Seq<MoodRequest>)
    ensures
        after_requests(s, requests).users == s.users,
        after_requests(s, requests).api_tokens == s.api_tokens,
        after_requests(s, requests).user_files == s.user_files,
        forall|token: Seq<char>, cap: Capability| #[trigger]
            permitted(after_requests(s, requests), token, cap) == permitted(s, token, cap),
    decreases requests.len(),
{
    if requests.len() > 0 {
        lemma_requests_touch_moods_only(s, requests.drop_last());
    }
}

} // verus!
