//! The user registry: lookup, registration, email verification, password
//! and email changes, and deletion with its cascade.

use vstd::prelude::*;
use crate::creds::derive_token;
use crate::creds::digest_of;
use crate::creds::hash_secret;
use crate::err::ErrKind;
use crate::err::JadeErr;
use crate::err::fails_with;
use crate::err::gives;
use crate::files::files_without;
use crate::mail::EmailMessage;
use crate::mail::compose_verification;
use crate::mail::verification_mail;
use crate::moods::moods_without;
use crate::seqs::lemma_filter_ends;
use crate::seqs::lemma_filter_step;
use crate::store::Store;
use crate::store::StoreView;
use crate::store::activated;
use crate::store::holding;
use crate::store::named;
use crate::store::not_named;
use crate::store::permitted;
use crate::store::readdressed;
use crate::store::repassworded;
use crate::store::rows;
use crate::store::token_owner;
use crate::store::user_named;
use crate::store::with_user;
use crate::store::with_users_mapped;
use crate::store::without_user;
use crate::text::join3;
use crate::time::get_time;
use crate::time::is_stamp;
use crate::tokens::authorize;
use crate::tokens::get_user_from_token;
use crate::tokens::tokens_without;
use crate::units::Capability;
use crate::units::ChangeEntityPayload;
use crate::units::CreateUserPayload;
use crate::units::JadeUser;
use crate::units::StatusResponse;
use crate::units::TokenOnlyPayload;
use crate::units::UserView;

verus! {

/// How many users are called `name`, and where the first of them stands.
pub(crate) fn scan_users_named(users: &Vec<JadeUser>, name: &String) -> (r: (usize, usize))
    ensures
        r.0 == rows(users@).filter(named(name@)).len(),
        r.0 > 0 ==> r.1 < users.len() && users[r.1 as int]@ == rows(users@).filter(
            named(name@),
        )[0],
{
    let ghost all = rows(users@);
    let ghost p = named(name@);
    let mut count: usize = 0;
    let mut first: usize = 0;
    let mut i: usize = 0;
    proof {
        lemma_filter_ends(all, p);
    }
    while i < users.len()
        invariant
            i <= users.len(),
            all == rows(users@),
            p == named(name@),
            count == all.take(i as int).filter(p).len(),
            count > 0 ==> first < i && users[first as int]@ == all.take(i as int).filter(p)[0],
        decreases users.len() - i,
    {
        proof {
            lemma_filter_step(all, p, i as int);
        }
        if users[i].username == *name {
            if count == 0 {
                first = i;
            }
            count = count + 1;
        }
        i = i + 1;
    }
    (count, first)
}

/// How many users hold the verification token `token`, and where the first
/// of them stands.
pub(crate) fn scan_users_holding(users: &Vec<JadeUser>, token: &String) -> (r: (usize, usize))
    ensures
        r.0 == rows(users@).filter(holding(token@)).len(),
        r.0 > 0 ==> r.1 < users.len() && users[r.1 as int]@ == rows(users@).filter(
            holding(token@),
        )[0],
{
    let ghost all = rows(users@);
    let ghost p = holding(token@);
    let mut count: usize = 0;
    let mut first: usize = 0;
    let mut i: usize = 0;
    proof {
        lemma_filter_ends(all, p);
    }
    while i < users.len()
        invariant
            i <= users.len(),
            all == rows(users@),
            p == holding(token@),
            count == all.take(i as int).filter(p).len(),
            count > 0 ==> first < i && users[first as int]@ == all.take(i as int).filter(p)[0],
        decreases users.len() - i,
    {
        proof {
            lemma_filter_step(all, p, i as int);
        }
        if users[i].email_token == *token {
            if count == 0 {
                first = i;
            }
            count = count + 1;
        }
        i = i + 1;
    }
    (count, first)
}

/// The error for a lookup that found `count` records instead of one.
pub(crate) fn not_single(count: usize, what: &str, key: &String) -> (r: JadeErr)
    requires
        count != 1,
    ensures
        r.kind == (if count == 0 {
            ErrKind::NotFound
        } else {
            ErrKind::Inconsistency
        }),
{
    let quoted = join3(" \"", key.as_str(), "\" ");
    if count == 0 {
        JadeErr::of(ErrKind::NotFound, join3(what, quoted.as_str(), "does not exist."))
    } else {
        JadeErr::of(ErrKind::Inconsistency, join3(what, quoted.as_str(), "exists more than once."))
    }
}

/// The user called `username`. No such user is `NotFound`; several are
/// `Inconsistency`.
pub fn get_user_by_handle(username: &String, store: &Store) -> (r: Result<JadeUser, JadeErr>)
    ensures
        match user_named(store@, username@) {
            Ok(u) => r matches Ok(found) && found@ == u,
            Err(kind) => fails_with(r, kind),
        },
{
    let (count, first) = scan_users_named(&store.users, username);
    if count == 1 {
        Ok(store.users[first].clone())
    } else {
        Err(not_single(count, "User", username))
    }
}

/// Copies of the users that are not called `name`.
pub(crate) fn users_without(users: &Vec<JadeUser>, name: &String) -> (r: Vec<JadeUser>)
    ensures
        rows(r@) == rows(users@).filter(not_named(name@)),
{
    let ghost all = rows(users@);
    let ghost p = not_named(name@);
    let mut out: Vec<JadeUser> = Vec::new();
    let mut i: usize = 0;
    proof {
        lemma_filter_ends(all, p);
        assert(rows(out@) =~= all.take(0).filter(p));
    }
    while i < users.len()
        invariant
            i <= users.len(),
            all == rows(users@),
            p == not_named(name@),
            rows(out@) == all.take(i as int).filter(p),
        decreases users.len() - i,
    {
        proof {
            lemma_filter_step(all, p, i as int);
        }
        if users[i].username != *name {
            let ghost before = out@;
            out.push(users[i].clone());
            assert(rows(out@) =~= rows(before).push(users[i as int]@));
        }
        i = i + 1;
    }
    out
}

/// A change to the record of one user.
pub(crate) enum UserPatch {
    /// A new password digest.
    Password(String),
    /// A new email digest and a new verification token.
    Address(String, String),
    /// The email is verified; a new verification token.
    Verified(String),
}

/// What a patch does to the user called `name`.
pub(crate) open spec fn patching(name: Seq<char>, patch: UserPatch) -> spec_fn(UserView)
    -> UserView {
    match patch {
        UserPatch::Password(digest) => repassworded(name, digest@),
        UserPatch::Address(digest, token) => readdressed(name, digest@, token@),
        UserPatch::Verified(token) => activated(name, token@),
    }
}

/// The users with the patch applied to the one called `name`.
pub(crate) fn patch_users(users: &Vec<JadeUser>, name: &String, patch: &UserPatch) -> (r: Vec<
    JadeUser,
>)
    ensures
        rows(r@) == rows(users@).map_values(patching(name@, *patch)),
{
    let ghost f = patching(name@, *patch);
    let mut out: Vec<JadeUser> = Vec::new();
    let mut i: usize = 0;
    while i < users.len()
        invariant
            i <= users.len(),
            f == patching(name@, *patch),
            out.len() == i,
            forall|j: int| 0 <= j < i ==> (#[trigger] out[j])@ == f(users[j]@),
        decreases users.len() - i,
    {
        let mut u = users[i].clone();
        if u.username == *name {
            match patch {
                UserPatch::Password(digest) => {
                    u.pwd = digest.clone();
                },
                UserPatch::Address(digest, token) => {
                    u.email = digest.clone();
                    u.email_token = token.clone();
                },
                UserPatch::Verified(token) => {
                    u.is_active = true;
                    u.email_token = token.clone();
                },
            }
        }
        out.push(u);
        i = i + 1;
    }
    assert(rows(out@) =~= rows(users@).map_values(f));
    out
}

// ---------------------------------------------------------------------
// Registration
// ---------------------------------------------------------------------

/// A registration that waits for its verification mail to be delivered: the
/// record to insert, and the mail to send first.
#[derive(Debug)]
pub struct Enrollment {
    pub user: JadeUser,
    pub mail: EmailMessage,
}

/// The seed an email-verification token is derived from: the username, the
/// email address and the time.
pub open spec fn email_seed(username: Seq<char>, address: Seq<char>, at: Seq<char>) -> Seq<char> {
    username + address + at
}

/// The record of a user who has just registered: not yet active.
pub open spec fn enrolled_user(
    p: CreateUserPayload,
    pwd_digest: Seq<char>,
    email_digest: Seq<char>,
    email_token: Seq<char>,
) -> UserView {
    UserView {
        username: p.username@,
        email: email_digest,
        pwd: pwd_digest,
        email_token,
        is_active: false,
    }
}

/// The enrollment for a request, from the two digests and the verification
/// token made for it.
pub fn enrollment_of(
    payload: &CreateUserPayload,
    smtp_server: &String,
    pwd_digest: String,
    email_digest: String,
    email_token: String,
) -> (r: Enrollment)
    ensures
        r.user@ == enrolled_user(*payload, pwd_digest@, email_digest@, email_token@),
        r.mail@ == verification_mail(
            smtp_server@,
            payload.username@,
            payload.email@,
            email_token@,
            false,
        ),
{
    let mail = compose_verification(
        smtp_server,
        &payload.username,
        &payload.email,
        &email_token,
        false,
    );
    Enrollment {
        user: JadeUser {
            username: payload.username.clone(),
            email: email_digest,
            pwd: pwd_digest,
            email_token,
            is_active: false,
        },
        mail,
    }
}

/// Whether a user called `name` is already registered.
pub open spec fn taken(s: StoreView, name: Seq<char>) -> bool {
    s.users.filter(named(name)).len() > 0
}

/// Prepares the registration of a new user: refuses a username that is
/// taken with `DuplicateUser`, digests the password and the email address,
/// derives the verification token and composes the verification mail.
/// Nothing is stored yet: the caller sends the mail and hands the outcome to
/// [`write_user`].
pub fn prepare_user(payload: &CreateUserPayload, store: &Store, smtp_server: &String) -> (r:
    Result<Enrollment, JadeErr>)
    ensures
        match r {
            Ok(e) => {
                &&& !taken(store@, payload.username@)
                &&& e.user@ == enrolled_user(
                    *payload,
                    e.user.pwd@,
                    e.user.email@,
                    e.user.email_token@,
                )
                &&& digest_of(payload.password@, e.user.pwd@)
                &&& digest_of(payload.email@, e.user.email@)
                &&& exists|at: Seq<char>|
                    is_stamp(at) && #[trigger] digest_of(
                        email_seed(payload.username@, payload.email@, at),
                        e.user.email_token@,
                    )
                &&& e.mail@ == verification_mail(
                    smtp_server@,
                    payload.username@,
                    payload.email@,
                    e.user.email_token@,
                    false,
                )
            },
            Err(e) => e.kind == (if taken(store@, payload.username@) {
                ErrKind::DuplicateUser
            } else {
                ErrKind::HashingError
            }),
        },
{
    let (count, _) = scan_users_named(&store.users, &payload.username);
    if count > 0 {
        return Err(
            JadeErr::of(
                ErrKind::DuplicateUser,
                join3("User \"", payload.username.as_str(), "\" already exists."),
            ),
        );
    }
    let pwd_digest = match hash_secret(payload.password.as_str()) {
        Ok(digest) => digest,
        Err(e) => {
            return Err(e);
        },
    };
    let at = get_time();
    let seed = join3(payload.username.as_str(), payload.email.as_str(), at.as_str());
    let email_token = match derive_token(seed.as_str()) {
        Ok(token) => token,
        Err(e) => {
            return Err(e);
        },
    };
    let email_digest = match hash_secret(payload.email.as_str()) {
        Ok(digest) => digest,
        Err(e) => {
            return Err(e);
        },
    };
    assert(is_stamp(at@) && digest_of(
        email_seed(payload.username@, payload.email@, at@),
        email_token@,
    ));
    Ok(enrollment_of(payload, smtp_server, pwd_digest, email_digest, email_token))
}

/// The record that a registration inserts: the enrolled one, inactive until
/// its email is verified.
pub open spec fn inserted_user(u: UserView) -> UserView {
    UserView { is_active: false, ..u }
}

/// What a registration does to the store. A taken username is refused with
/// `DuplicateUser`; an undelivered verification mail is `UpstreamFailure`
/// and leaves no record behind.
pub open spec fn registration(s: StoreView, u: UserView, delivered: bool) -> Result<
    StoreView,
    ErrKind,
> {
    if taken(s, u.username) {
        Err(ErrKind::DuplicateUser)
    } else if !delivered {
        Err(ErrKind::UpstreamFailure)
    } else {
        Ok(with_user(s, inserted_user(u)))
    }
}

/// Completes a registration, given whether the verification mail was
/// delivered. The user is inserted inactive. On failure the store is left as
/// it was.
pub fn write_user(enrollment: &Enrollment, delivered: bool, store: &mut Store) -> (r: Result<
    JadeUser,
    JadeErr,
>)
    ensures
        match registration(old(store)@, enrollment.user@, delivered) {
            Ok(next) => final(store)@ == next && gives(r, inserted_user(enrollment.user@)),
            Err(kind) => final(store)@ == old(store)@ && fails_with(r, kind),
        },
{
    let (count, _) = scan_users_named(&store.users, &enrollment.user.username);
    if count > 0 {
        return Err(
            JadeErr::of(
                ErrKind::DuplicateUser,
                join3("User \"", enrollment.user.username.as_str(), "\" already exists."),
            ),
        );
    }
    if !delivered {
        return Err(
            JadeErr::of(ErrKind::UpstreamFailure, "Could not send verification email.".to_owned()),
        );
    }
    let mut user = enrollment.user.clone();
    user.is_active = false;
    let ghost before = store.users@;
    store.users.push(user.clone());
    assert(rows(store.users@) =~= rows(before).push(user@));
    Ok(user)
}

// ---------------------------------------------------------------------
// Deletion
// ---------------------------------------------------------------------

/// Deletes the owner of the request's token together with every mood, API
/// token and file the owner has. The token must be valid.
pub fn wipe_user(payload: &TokenOnlyPayload, store: &mut Store) -> (r: Result<
    StatusResponse,
    JadeErr,
>)
    ensures
        match token_owner(old(store)@, payload.api_token@) {
            Ok(owner) => final(store)@ == without_user(old(store)@, owner.username) && r
                == Ok::<StatusResponse, JadeErr>(StatusResponse { status: 0 }),
            Err(kind) => final(store)@ == old(store)@ && fails_with(r, kind),
        },
{
    let owner = match get_user_from_token(&payload.api_token, store) {
        Ok(owner) => owner,
        Err(e) => {
            return Err(e);
        },
    };
    let users = users_without(&store.users, &owner.username);
    let moods = moods_without(&store.moods, &owner.username);
    let api_tokens = tokens_without(&store.api_tokens, &owner.username);
    let user_files = files_without(&store.user_files, &owner.username);
    store.users = users;
    store.moods = moods;
    store.api_tokens = api_tokens;
    store.user_files = user_files;
    Ok(StatusResponse { status: 0 })
}

// ---------------------------------------------------------------------
// Email verification
// ---------------------------------------------------------------------

/// What confirming an email does to the store. Exactly one user must hold
/// the verification token; none or several is `NotFound`. The user becomes
/// active and gets the token `fresh`, which must differ from the one
/// presented so that it cannot be presented again.
pub open spec fn confirmation(s: StoreView, token: Seq<char>, fresh: Seq<char>) -> Result<
    StoreView,
    ErrKind,
> {
    let holders = s.users.filter(holding(token));
    if holders.len() != 1 {
        Err(ErrKind::NotFound)
    } else if fresh == token {
        Err(ErrKind::UpstreamFailure)
    } else {
        Ok(with_users_mapped(s, activated(holders[0].username, fresh)))
    }
}

/// Confirms the email of the user who holds `email_token` and replaces the
/// token by `fresh_token`. On failure the store is left as it was.
pub fn confirm_email(email_token: &String, store: &mut Store, fresh_token: String) -> (r: Result<
    bool,
    JadeErr,
>)
    ensures
        match confirmation(old(store)@, email_token@, fresh_token@) {
            Ok(next) => final(store)@ == next && r == Ok::<bool, JadeErr>(true),
            Err(kind) => final(store)@ == old(store)@ && fails_with(r, kind),
        },
{
    let (count, first) = scan_users_holding(&store.users, email_token);
    if count != 1 {
        return Err(
            JadeErr::of(ErrKind::NotFound, "No user with the specified token found.".to_owned()),
        );
    }
    if fresh_token == *email_token {
        return Err(
            JadeErr::of(
                ErrKind::UpstreamFailure,
                "The verification token could not be renewed.".to_owned(),
            ),
        );
    }
    let name = store.users[first].username.clone();
    let users = patch_users(&store.users, &name, &UserPatch::Verified(fresh_token));
    store.users = users;
    Ok(true)
}

/// Confirms the email of the user who holds `email_token`. The user becomes
/// active and the token is replaced by a fresh digest of the current time:
/// the new token verifies against a timestamp and differs from the one
/// presented.
pub fn verify_user_email(email_token: &String, store: &mut Store) -> (r: Result<bool, JadeErr>)
    ensures
        old(store)@.users.filter(holding(email_token@)).len() != 1 ==> final(store)@ == old(
            store,
        )@ && fails_with(r, ErrKind::NotFound),
        old(store)@.users.filter(holding(email_token@)).len() == 1 ==> match r {
            Ok(done) => done && exists|at: Seq<char>, fresh: Seq<char>|
                is_stamp(at) && #[trigger] digest_of(at, fresh) && confirmation(
                    old(store)@,
                    email_token@,
                    fresh,
                ) == Ok::<StoreView, ErrKind>(final(store)@),
            Err(e) => final(store)@ == old(store)@ && (e.kind == ErrKind::HashingError || e.kind
                == ErrKind::UpstreamFailure),
        },
{
    let (count, _) = scan_users_holding(&store.users, email_token);
    if count != 1 {
        return confirm_email(email_token, store, String::new());
    }
    let at = get_time();
    match derive_token(at.as_str()) {
        Ok(fresh) => {
            let ghost witness = fresh@;
            let r = confirm_email(email_token, store, fresh);
            assert(r is Ok ==> is_stamp(at@) && digest_of(at@, witness) && confirmation(
                old(store)@,
                email_token@,
                witness,
            ) == Ok::<StoreView, ErrKind>(store@));
            r
        },
        Err(e) => Err(e),
    }
}

// ---------------------------------------------------------------------
// Password change
// ---------------------------------------------------------------------

/// What a password change does to the store: the token must be live and
/// carry the capability to change credentials; its owner then gets the
/// digest.
pub open spec fn password_change(s: StoreView, token: Seq<char>, digest: Seq<char>) -> Result<
    StoreView,
    ErrKind,
> {
    match permitted(s, token, Capability::ChangeCredentials) {
        Ok(owner) => Ok(with_users_mapped(s, repassworded(owner.username, digest))),
        Err(kind) => Err(kind),
    }
}

/// Gives the owner of `api_token` the password digest `digest`. On failure
/// the store is left as it was.
pub fn set_password(api_token: &String, digest: String, store: &mut Store) -> (r: Result<
    StatusResponse,
    JadeErr,
>)
    ensures
        match password_change(old(store)@, api_token@, digest@) {
            Ok(next) => final(store)@ == next && r == Ok::<StatusResponse, JadeErr>(
                StatusResponse { status: 0 },
            ),
            Err(kind) => final(store)@ == old(store)@ && fails_with(r, kind),
        },
{
    let owner = match authorize(api_token, Capability::ChangeCredentials, store) {
        Ok(owner) => owner,
        Err(e) => {
            return Err(e);
        },
    };
    let users = patch_users(&store.users, &owner.username, &UserPatch::Password(digest));
    store.users = users;
    Ok(StatusResponse { status: 0 })
}

/// Changes the password of the owner of the request's token to the one in
/// `new_entity`, stored as a fresh digest. A token that is revoked or may
/// not change credentials is `Forbidden`.
pub fn update_user_password(payload: &ChangeEntityPayload, store: &mut Store) -> (r: Result<
    StatusResponse,
    JadeErr,
>)
    ensures
        match permitted(old(store)@, payload.api_token@, Capability::ChangeCredentials) {
            Ok(owner) => match r {
                Ok(status) => status.status == 0 && exists|digest: Seq<char>|
                    digest_of(payload.new_entity@, digest) && final(store)@
                        == #[trigger] with_users_mapped(
                        old(store)@,
                        repassworded(owner.username, digest),
                    ),
                Err(e) => final(store)@ == old(store)@ && e.kind == ErrKind::HashingError,
            },
            Err(kind) => final(store)@ == old(store)@ && fails_with(r, kind),
        },
{
    match authorize(&payload.api_token, Capability::ChangeCredentials, store) {
        Ok(_) => {},
        Err(e) => {
            return Err(e);
        },
    }
    match hash_secret(payload.new_entity.as_str()) {
        Ok(digest) => {
            let ghost witness = digest@;
            let ghost owner = permitted(
                old(store)@,
                payload.api_token@,
                Capability::ChangeCredentials,
            ).unwrap();
            let r = set_password(&payload.api_token, digest, store);
            assert(digest_of(payload.new_entity@, witness) && store@ == with_users_mapped(
                old(store)@,
                repassworded(owner.username, witness),
            ));
            r
        },
        Err(e) => Err(e),
    }
}

// ---------------------------------------------------------------------
// Email change
// ---------------------------------------------------------------------

/// An email change that waits for its verification mail to be delivered.
#[derive(Debug)]
pub struct EmailChange {
    pub api_token: String,
    pub email: String,
    pub email_token: String,
    pub mail: EmailMessage,
}

/// The email change for a request by the user called `username`, from the
/// digest of the new address and the verification token made for it.
pub fn email_change_of(
    payload: &ChangeEntityPayload,
    username: &String,
    smtp_server: &String,
    email_digest: String,
    email_token: String,
) -> (r: EmailChange)
    ensures
        r.api_token@ == payload.api_token@,
        r.email@ == email_digest@,
        r.email_token@ == email_token@,
        r.mail@ == verification_mail(
            smtp_server@,
            username@,
            payload.new_entity@,
            email_token@,
            true,
        ),
{
    let mail = compose_verification(smtp_server, username, &payload.new_entity, &email_token, true);
    EmailChange { api_token: payload.api_token.clone(), email: email_digest, email_token, mail }
}

/// Prepares the change of an email address: checks the token, digests the
/// new address, derives a new verification token and composes the
/// verification mail. A derived token that equals the owner's current one
/// would rotate nothing and is refused as `UpstreamFailure`. Nothing is
/// stored yet: the caller sends the mail and hands the outcome to
/// [`update_user_email`].
pub fn prepare_email_change(payload: &ChangeEntityPayload, store: &Store, smtp_server: &String)
    -> (r: Result<EmailChange, JadeErr>)
    ensures
        match permitted(store@, payload.api_token@, Capability::ChangeCredentials) {
            Ok(owner) => match r {
                Ok(c) => {
                    &&& c.api_token@ == payload.api_token@
                    &&& digest_of(payload.new_entity@, c.email@)
                    &&& c.email_token@ != owner.email_token
                    &&& exists|at: Seq<char>|
                        is_stamp(at) && #[trigger] digest_of(
                            email_seed(owner.username, payload.new_entity@, at),
                            c.email_token@,
                        )
                    &&& c.mail@ == verification_mail(
                        smtp_server@,
                        owner.username,
                        payload.new_entity@,
                        c.email_token@,
                        true,
                    )
                },
                Err(e) => e.kind == ErrKind::HashingError || e.kind == ErrKind::UpstreamFailure,
            },
            Err(kind) => fails_with(r, kind),
        },
{
    let owner = match authorize(&payload.api_token, Capability::ChangeCredentials, store) {
        Ok(owner) => owner,
        Err(e) => {
            return Err(e);
        },
    };
    let email_digest = match hash_secret(payload.new_entity.as_str()) {
        Ok(digest) => digest,
        Err(e) => {
            return Err(e);
        },
    };
    let at = get_time();
    let seed = join3(owner.username.as_str(), payload.new_entity.as_str(), at.as_str());
    let email_token = match derive_token(seed.as_str()) {
        Ok(token) => token,
        Err(e) => {
            return Err(e);
        },
    };
    if email_token == owner.email_token {
        return Err(
            JadeErr::of(
                ErrKind::UpstreamFailure,
                "The verification token could not be renewed.".to_owned(),
            ),
        );
    }
    let change = email_change_of(payload, &owner.username, smtp_server, email_digest, email_token);
    assert(is_stamp(at@) && digest_of(
        email_seed(owner@.username, payload.new_entity@, at@),
        change.email_token@,
    ));
    assert(change.email_token@ != owner@.email_token);
    Ok(change)
}

/// What an email change does to the store. The token is checked again; an
/// undelivered verification mail is `UpstreamFailure` and changes nothing,
/// so the store never runs ahead of what the user was told. So is a new
/// verification token that equals the owner's current one: the token must
/// rotate.
pub open spec fn address_change(
    s: StoreView,
    token: Seq<char>,
    digest: Seq<char>,
    email_token: Seq<char>,
    delivered: bool,
) -> Result<StoreView, ErrKind> {
    match permitted(s, token, Capability::ChangeCredentials) {
        Ok(owner) => if delivered && email_token != owner.email_token {
            Ok(with_users_mapped(s, readdressed(owner.username, digest, email_token)))
        } else {
            Err(ErrKind::UpstreamFailure)
        },
        Err(kind) => Err(kind),
    }
}

/// Completes an email change, given whether the verification mail was
/// delivered: the owner of the token gets the new email digest and the new
/// verification token. On failure the store is left as it was.
pub fn update_user_email(change: &EmailChange, delivered: bool, store: &mut Store) -> (r: Result<
    StatusResponse,
    JadeErr,
>)
    ensures
        match address_change(
            old(store)@,
            change.api_token@,
            change.email@,
            change.email_token@,
            delivered,
        ) {
            Ok(next) => final(store)@ == next && r == Ok::<StatusResponse, JadeErr>(
                StatusResponse { status: 0 },
            ),
            Err(kind) => final(store)@ == old(store)@ && fails_with(r, kind),
        },
{
    let owner = match authorize(&change.api_token, Capability::ChangeCredentials, store) {
        Ok(owner) => owner,
        Err(e) => {
            return Err(e);
        },
    };
    if !delivered {
        return Err(
            JadeErr::of(ErrKind::UpstreamFailure, "Could not send verification email.".to_owned()),
        );
    }
    if change.email_token == owner.email_token {
        return Err(
            JadeErr::of(
                ErrKind::UpstreamFailure,
                "The verification token could not be renewed.".to_owned(),
            ),
        );
    }
    let patch = UserPatch::Address(change.email.clone(), change.email_token.clone());
    let users = patch_users(&store.users, &owner.username, &patch);
    store.users = users;
    Ok(StatusResponse { status: 0 })
}

} // verus!
