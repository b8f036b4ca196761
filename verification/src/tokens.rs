//! The token authority: issuing API tokens, resolving and checking them,
//! revoking them and listing them.

use vstd::prelude::*;
use crate::creds::derive_token;
use crate::creds::digest_of;
use crate::creds::digest_verdict;
use crate::creds::verify_secret;
use crate::err::ErrKind;
use crate::err::JadeErr;
use crate::err::fails_with;
use crate::err::gives;
use crate::seqs::lemma_filter_ends;
use crate::seqs::lemma_filter_step;
use crate::store::Store;
use crate::store::StoreView;
use crate::store::bearing;
use crate::store::lemma_named_hit;
use crate::store::listed;
use crate::store::live_bearing;
use crate::store::permitted;
use crate::store::revoked;
use crate::store::rows;
use crate::store::token_bearing;
use crate::store::token_not_of;
use crate::store::token_owner;
use crate::store::user_named;
use crate::store::with_token;
use crate::store::with_token_revoked;
use crate::text::join3;
use crate::time::get_time;
use crate::time::is_stamp;
use crate::units::APIToken;
use crate::units::Capability;
use crate::units::CreateTokenPayload;
use crate::units::DeleteTokenPayload;
use crate::units::JadeUser;
use crate::units::StatusResponse;
use crate::units::TokenStatus;
use crate::units::TokenView;
use crate::units::UserAPITokensPayload;
use crate::users::get_user_by_handle;
use crate::users::not_single;

verus! {

/// The tokens a scan counts: those bearing `text`, or only the live ones.
pub(crate) open spec fn sought(text: Seq<char>, live_only: bool) -> spec_fn(TokenView) -> bool {
    if live_only {
        live_bearing(text)
    } else {
        bearing(text)
    }
}

/// How many tokens bear `text` (live ones only, if so asked), and where the
/// first of them stands.
pub(crate) fn scan_tokens(tokens: &Vec<APIToken>, text: &String, live_only: bool) -> (r: (
    usize,
    usize,
))
    ensures
        r.0 == rows(tokens@).filter(sought(text@, live_only)).len(),
        r.0 > 0 ==> r.1 < tokens.len() && tokens[r.1 as int]@ == rows(tokens@).filter(
            sought(text@, live_only),
        )[0],
{
    let ghost all = rows(tokens@);
    let ghost p = sought(text@, live_only);
    let mut count: usize = 0;
    let mut first: usize = 0;
    let mut i: usize = 0;
    proof {
        lemma_filter_ends(all, p);
    }
    while i < tokens.len()
        invariant
            i <= tokens.len(),
            all == rows(tokens@),
            p == sought(text@, live_only),
            count == all.take(i as int).filter(p).len(),
            count > 0 ==> first < i && tokens[first as int]@ == all.take(i as int).filter(p)[0],
        decreases tokens.len() - i,
    {
        proof {
            lemma_filter_step(all, p, i as int);
        }
        if tokens[i].token == *text && (!live_only || tokens[i].is_active) {
            if count == 0 {
                first = i;
            }
            count = count + 1;
        }
        i = i + 1;
    }
    (count, first)
}

/// The API token whose text is `api_token`, live or revoked.
pub fn find_token(api_token: &String, store: &Store) -> (r: Result<APIToken, JadeErr>)
    ensures
        match token_bearing(store@, api_token@) {
            Ok(t) => r matches Ok(found) && found@ == t,
            Err(kind) => fails_with(r, kind),
        },
{
    let (count, first) = scan_tokens(&store.api_tokens, api_token, false);
    if count == 1 {
        Ok(store.api_tokens[first].clone())
    } else {
        Err(not_single(count, "API token", api_token))
    }
}

/// The user that the live API token `api_token` belongs to. The token is
/// valid when it exists, has not been revoked and resolves to one user.
pub fn get_user_from_token(api_token: &String, store: &Store) -> (r: Result<JadeUser, JadeErr>)
    ensures
        match token_owner(store@, api_token@) {
            Ok(u) => r matches Ok(found) && found@ == u,
            Err(kind) => fails_with(r, kind),
        },
{
    let (count, first) = scan_tokens(&store.api_tokens, api_token, true);
    if count == 1 {
        get_user_by_handle(&store.api_tokens[first].username, store)
    } else {
        Err(not_single(count, "Active API token", api_token))
    }
}

/// Whether `api_token` is valid, and the user it belongs to if it is.
pub fn validate_token(api_token: &String, store: &Store) -> (r: (bool, Option<JadeUser>))
    ensures
        r.0 == token_owner(store@, api_token@) is Ok,
        match token_owner(store@, api_token@) {
            Ok(u) => r.1 matches Some(owner) && owner@ == u,
            Err(_) => r.1 is None,
        },
{
    match get_user_from_token(api_token, store) {
        Ok(owner) => (true, Some(owner)),
        Err(_) => (false, None),
    }
}

/// The user on whose behalf `api_token` may use `cap`. A token that is
/// revoked or lacks the capability is `Forbidden`.
pub fn authorize(api_token: &String, cap: Capability, store: &Store) -> (r: Result<
    JadeUser,
    JadeErr,
>)
    ensures
        match permitted(store@, api_token@, cap) {
            Ok(u) => r matches Ok(found) && found@ == u,
            Err(kind) => fails_with(r, kind),
        },
{
    match find_token(api_token, store) {
        Ok(token) => {
            if token.is_active && token.allows(cap) {
                get_user_by_handle(&token.username, store)
            } else {
                Err(
                    JadeErr::of(
                        ErrKind::Forbidden,
                        join3(
                            "User \"",
                            token.username.as_str(),
                            "\" does not have the correct permissions.",
                        ),
                    ),
                )
            }
        },
        Err(e) => Err(e),
    }
}

/// The tokens with the one bearing `text` revoked.
pub(crate) fn revoke_in(tokens: &Vec<APIToken>, text: &String) -> (r: Vec<APIToken>)
    ensures
        rows(r@) == rows(tokens@).map_values(revoked(text@)),
{
    let ghost f = revoked(text@);
    let mut out: Vec<APIToken> = Vec::new();
    let mut i: usize = 0;
    while i < tokens.len()
        invariant
            i <= tokens.len(),
            f == revoked(text@),
            out.len() == i,
            forall|j: int| 0 <= j < i ==> (#[trigger] out[j])@ == f(tokens[j]@),
        decreases tokens.len() - i,
    {
        let mut t = tokens[i].clone();
        if t.token == *text {
            t.is_active = false;
        }
        out.push(t);
        i = i + 1;
    }
    assert(rows(out@) =~= rows(tokens@).map_values(f));
    out
}

/// Copies of the tokens of `owner` that a listing with `status` shows.
pub(crate) fn tokens_listed(tokens: &Vec<APIToken>, owner: &String, status: TokenStatus) -> (r:
    Vec<APIToken>)
    ensures
        rows(r@) == rows(tokens@).filter(listed(owner@, status)),
{
    let ghost all = rows(tokens@);
    let ghost p = listed(owner@, status);
    let mut out: Vec<APIToken> = Vec::new();
    let mut i: usize = 0;
    proof {
        lemma_filter_ends(all, p);
        assert(rows(out@) =~= all.take(0).filter(p));
    }
    while i < tokens.len()
        invariant
            i <= tokens.len(),
            all == rows(tokens@),
            p == listed(owner@, status),
            rows(out@) == all.take(i as int).filter(p),
        decreases tokens.len() - i,
    {
        proof {
            lemma_filter_step(all, p, i as int);
        }
        let shown = match status {
            TokenStatus::Active => tokens[i].is_active,
            TokenStatus::Inactive => !tokens[i].is_active,
            TokenStatus::All => true,
        };
        if tokens[i].username == *owner && shown {
            let ghost before = out@;
            out.push(tokens[i].clone());
            assert(rows(out@) =~= rows(before).push(tokens[i as int]@));
        }
        i = i + 1;
    }
    out
}

/// Copies of the tokens that do not belong to `owner`.
pub(crate) fn tokens_without(tokens: &Vec<APIToken>, owner: &String) -> (r: Vec<APIToken>)
    ensures
        rows(r@) == rows(tokens@).filter(token_not_of(owner@)),
{
    let ghost all = rows(tokens@);
    let ghost p = token_not_of(owner@);
    let mut out: Vec<APIToken> = Vec::new();
    let mut i: usize = 0;
    proof {
        lemma_filter_ends(all, p);
        assert(rows(out@) =~= all.take(0).filter(p));
    }
    while i < tokens.len()
        invariant
            i <= tokens.len(),
            all == rows(tokens@),
            p == token_not_of(owner@),
            rows(out@) == all.take(i as int).filter(p),
        decreases tokens.len() - i,
    {
        proof {
            lemma_filter_step(all, p, i as int);
        }
        if tokens[i].username != *owner {
            let ghost before = out@;
            out.push(tokens[i].clone());
            assert(rows(out@) =~= rows(before).push(tokens[i as int]@));
        }
        i = i + 1;
    }
    out
}

/// The seed a token text is derived from: the time of issue, a colon and
/// the owner's name.
pub open spec fn token_seed(at: Seq<char>, username: Seq<char>) -> Seq<char> {
    at + ":"@ + username
}

/// The token that a request asks for, with its text and time of issue: live,
/// bound to the requesting user, with exactly the requested capabilities.
pub open spec fn issued_token(p: CreateTokenPayload, text: Seq<char>, at: Seq<char>) -> TokenView {
    TokenView {
        username: p.username@,
        token: text,
        created_at: at,
        is_active: true,
        can_change_pwd: p.can_change_pwd,
        can_set_mood: p.can_set_mood,
        can_delete_user: p.can_delete_user,
        can_change_email: p.can_change_email,
    }
}

/// What issuing a token does to the store. The requesting user must exist
/// and the password must have been accepted; a text that a token of the
/// store already bears is refused, since a token text is never reused.
pub open spec fn issuance(
    s: StoreView,
    p: CreateTokenPayload,
    password_ok: bool,
    text: Seq<char>,
    at: Seq<char>,
) -> Result<StoreView, ErrKind> {
    match user_named(s, p.username@) {
        Ok(_) => if !password_ok {
            Err(ErrKind::InvalidCredentials)
        } else if s.api_tokens.filter(bearing(text)).len() > 0 {
            Err(ErrKind::UpstreamFailure)
        } else {
            Ok(with_token(s, issued_token(p, text, at)))
        },
        Err(kind) => Err(kind),
    }
}

/// Issues a token with the text `text` at the time `created_at`, given
/// whether the password of the request was accepted. On failure the store
/// is left as it was.
pub fn issue_token(
    payload: &CreateTokenPayload,
    store: &mut Store,
    password_ok: bool,
    text: String,
    created_at: String,
) -> (r: Result<APIToken, JadeErr>)
    ensures
        match issuance(old(store)@, *payload, password_ok, text@, created_at@) {
            Ok(next) => final(store)@ == next && gives(
                r,
                issued_token(*payload, text@, created_at@),
            ),
            Err(kind) => final(store)@ == old(store)@ && fails_with(r, kind),
        },
{
    match get_user_by_handle(&payload.username, store) {
        Ok(_) => {},
        Err(e) => {
            return Err(e);
        },
    }
    if !password_ok {
        return Err(
            JadeErr::of(
                ErrKind::InvalidCredentials,
                join3("Passwords did not match for user \"", payload.username.as_str(), "\"!"),
            ),
        );
    }
    let (count, _) = scan_tokens(&store.api_tokens, &text, false);
    if count > 0 {
        return Err(
            JadeErr::of(
                ErrKind::UpstreamFailure,
                join3("A token for user \"", payload.username.as_str(), "\" could not be stored."),
            ),
        );
    }
    let token = APIToken {
        username: payload.username.clone(),
        token: text,
        created_at,
        is_active: true,
        can_change_pwd: payload.can_change_pwd,
        can_set_mood: payload.can_set_mood,
        can_delete_user: payload.can_delete_user,
        can_change_email: payload.can_change_email,
    };
    let ghost before = store.api_tokens@;
    store.api_tokens.push(token.clone());
    assert(rows(store.api_tokens@) =~= rows(before).push(token@));
    Ok(token)
}

/// Issues a token for the user of the request after checking the password
/// against the user's digest. A wrong password is `InvalidCredentials` and
/// creates nothing. The token text is a fresh digest of the time of issue
/// and the username.
pub fn create_new_token(payload: &CreateTokenPayload, store: &mut Store) -> (r: Result<
    APIToken,
    JadeErr,
>)
    ensures
        match user_named(old(store)@, payload.username@) {
            Ok(u) => match digest_verdict(payload.password@, u.pwd) {
                Some(true) => match r {
                    Ok(t) => {
                        &&& t@ == issued_token(*payload, t.token@, t.created_at@)
                        &&& is_stamp(t.created_at@)
                        &&& digest_of(token_seed(t.created_at@, payload.username@), t.token@)
                        &&& old(store)@.api_tokens.filter(bearing(t.token@)).len() == 0
                        &&& final(store)@ == with_token(old(store)@, t@)
                    },
                    Err(e) => {
                        &&& final(store)@ == old(store)@
                        &&& e.kind == ErrKind::HashingError || e.kind == ErrKind::UpstreamFailure
                    },
                },
                Some(false) => final(store)@ == old(store)@ && fails_with(
                    r,
                    ErrKind::InvalidCredentials,
                ),
                None => final(store)@ == old(store)@ && fails_with(r, ErrKind::HashingError),
            },
            Err(kind) => final(store)@ == old(store)@ && fails_with(r, kind),
        },
{
    let user = match get_user_by_handle(&payload.username, store) {
        Ok(user) => user,
        Err(e) => {
            return Err(e);
        },
    };
    let password_ok = match verify_secret(payload.password.as_str(), user.pwd.as_str()) {
        Ok(password_ok) => password_ok,
        Err(e) => {
            return Err(e);
        },
    };
    if !password_ok {
        return issue_token(payload, store, false, String::new(), String::new());
    }
    let created_at = get_time();
    let seed = join3(created_at.as_str(), ":", payload.username.as_str());
    let text = match derive_token(seed.as_str()) {
        Ok(text) => text,
        Err(e) => {
            return Err(e);
        },
    };
    issue_token(payload, store, true, text, created_at)
}

/// What revoking a token does to the store: the token must exist and
/// resolve to its owner, and the owner's password must have been accepted.
pub open spec fn revocation(s: StoreView, text: Seq<char>, password_ok: bool) -> Result<
    StoreView,
    ErrKind,
> {
    match token_bearing(s, text) {
        Ok(t) => match user_named(s, t.username) {
            Ok(_) => if password_ok {
                Ok(with_token_revoked(s, text))
            } else {
                Err(ErrKind::InvalidCredentials)
            },
            Err(kind) => Err(kind),
        },
        Err(kind) => Err(kind),
    }
}

/// Revokes the token `api_token`, given whether the co-presented password
/// was accepted for the token's owner. The token stays in the store, marked
/// inactive; the owner is not touched. On failure the store is left as it
/// was.
pub fn revoke_token(api_token: &String, store: &mut Store, password_ok: bool) -> (r: Result<
    StatusResponse,
    JadeErr,
>)
    ensures
        match revocation(old(store)@, api_token@, password_ok) {
            Ok(next) => final(store)@ == next && r == Ok::<StatusResponse, JadeErr>(
                StatusResponse { status: 0 },
            ),
            Err(kind) => final(store)@ == old(store)@ && fails_with(r, kind),
        },
{
    let token = match find_token(api_token, store) {
        Ok(token) => token,
        Err(e) => {
            return Err(e);
        },
    };
    match get_user_by_handle(&token.username, store) {
        Ok(_) => {},
        Err(e) => {
            return Err(e);
        },
    }
    if !password_ok {
        return Err(
            JadeErr::of(
                ErrKind::InvalidCredentials,
                join3("Passwords did not match for user \"", token.username.as_str(), "\"!"),
            ),
        );
    }
    let revoked_tokens = revoke_in(&store.api_tokens, api_token);
    store.api_tokens = revoked_tokens;
    Ok(StatusResponse { status: 0 })
}

/// Revokes the token of the request after checking the co-presented
/// password against the digest of the token's owner. A wrong password is
/// `InvalidCredentials` and leaves the token live.
pub fn wipe_token(payload: &DeleteTokenPayload, store: &mut Store) -> (r: Result<
    StatusResponse,
    JadeErr,
>)
    ensures
        match token_bearing(old(store)@, payload.api_token@) {
            Ok(t) => match user_named(old(store)@, t.username) {
                Ok(owner) => match digest_verdict(payload.password@, owner.pwd) {
                    Some(true) => final(store)@ == with_token_revoked(
                        old(store)@,
                        payload.api_token@,
                    ) && r == Ok::<StatusResponse, JadeErr>(StatusResponse { status: 0 }),
                    Some(false) => final(store)@ == old(store)@ && fails_with(
                    r,
                    ErrKind::InvalidCredentials,
                ),
                    None => final(store)@ == old(store)@ && fails_with(r, ErrKind::HashingError),
                },
                Err(kind) => final(store)@ == old(store)@ && fails_with(r, kind),
            },
            Err(kind) => final(store)@ == old(store)@ && fails_with(r, kind),
        },
{
    let token = match find_token(&payload.api_token, store) {
        Ok(token) => token,
        Err(e) => {
            return Err(e);
        },
    };
    let owner = match get_user_by_handle(&token.username, store) {
        Ok(owner) => owner,
        Err(e) => {
            return Err(e);
        },
    };
    match verify_secret(payload.password.as_str(), owner.pwd.as_str()) {
        Ok(password_ok) => revoke_token(&payload.api_token, store, password_ok),
        Err(e) => Err(e),
    }
}

/// What listing the tokens of `name` answers: the user must exist and the
/// password must have been accepted; then every token of the user that
/// `status` shows, in the order of the store.
pub open spec fn listing(s: StoreView, name: Seq<char>, status: TokenStatus, password_ok: bool)
    -> Result<Seq<TokenView>, ErrKind> {
    match user_named(s, name) {
        Ok(u) => if password_ok {
            Ok(s.api_tokens.filter(listed(u.username, status)))
        } else {
            Err(ErrKind::InvalidCredentials)
        },
        Err(kind) => Err(kind),
    }
}

/// Lists the tokens of `username` that `status` shows, given whether the
/// password of the request was accepted.
pub fn list_tokens(username: &String, status: TokenStatus, store: &Store, password_ok: bool) -> (r:
    Result<Vec<APIToken>, JadeErr>)
    ensures
        match listing(store@, username@, status, password_ok) {
            Ok(tokens) => r matches Ok(found) && rows(found@) == tokens,
            Err(kind) => fails_with(r, kind),
        },
{
    let user = match get_user_by_handle(username, store) {
        Ok(user) => user,
        Err(e) => {
            return Err(e);
        },
    };
    if !password_ok {
        return Err(
            JadeErr::of(
                ErrKind::InvalidCredentials,
                join3("Passwords do not match for user \"", user.username.as_str(), "\"!"),
            ),
        );
    }
    Ok(tokens_listed(&store.api_tokens, &user.username, status))
}

/// Lists the tokens of the user of the request that `status` shows, after
/// checking the password against the user's digest. Each token carries its
/// `is_active` flag, so the caller sees which are live and which revoked.
pub fn get_user_tokens(payload: &UserAPITokensPayload, status: TokenStatus, store: &Store) -> (r:
    Result<Vec<APIToken>, JadeErr>)
    ensures
        match user_named(store@, payload.username@) {
            Ok(u) => match digest_verdict(payload.password@, u.pwd) {
                Some(true) => r matches Ok(found) && rows(found@) == store@.api_tokens.filter(
                    listed(payload.username@, status),
                ),
                Some(false) => fails_with(r, ErrKind::InvalidCredentials),
                None => fails_with(r, ErrKind::HashingError),
            },
            Err(kind) => fails_with(r, kind),
        },
{
    let user = match get_user_by_handle(&payload.username, store) {
        Ok(user) => user,
        Err(e) => {
            return Err(e);
        },
    };
    proof {
        lemma_named_hit(store@.users, payload.username@);
    }
    match verify_secret(payload.password.as_str(), user.pwd.as_str()) {
        Ok(password_ok) => list_tokens(&payload.username, status, store, password_ok),
        Err(e) => Err(e),
    }
}

} // verus!
