//! The store: four collections of records, and the mathematical model the
//! contracts of every operation are stated over.

use vstd::prelude::*;
use crate::err::ErrKind;
use crate::units::APIToken;
use crate::units::Capability;
use crate::units::FileView;
use crate::units::JadeMood;
use crate::units::JadeUser;
use crate::units::JadeUserFile;
use crate::units::MoodView;
use crate::units::TokenStatus;
use crate::units::TokenView;
use crate::units::UserView;
use crate::units::grants;

verus! {

/// The mathematical value of a [`Store`]: each collection as a sequence of
/// record views, in insertion order.
pub struct StoreView {
    pub users: Seq<UserView>,
    pub moods: Seq<MoodView>,
    pub api_tokens: Seq<TokenView>,
    pub user_files: Seq<FileView>,
}

/// The shared store every operation reads and writes. An operation takes it
/// by exclusive reference, so each one is atomic with respect to the others.
#[derive(Debug)]
pub struct Store {
    pub users: Vec<JadeUser>,
    pub moods: Vec<JadeMood>,
    pub api_tokens: Vec<APIToken>,
    pub user_files: Vec<JadeUserFile>,
}

/// The views of a sequence of records, in the same order.
pub open spec fn rows<T: View>(v: Seq<T>) -> Seq<T::V> {
    v.map_values(|x: T| x@)
}

impl View for Store {
    type V = StoreView;

    open spec fn view(&self) -> StoreView {
        StoreView {
            users: rows(self.users@),
            moods: rows(self.moods@),
            api_tokens: rows(self.api_tokens@),
            user_files: rows(self.user_files@),
        }
    }
}

impl Store {
    /// A store that holds nothing.
    pub fn new() -> (r: Store)
        ensures
            r@ == empty_store(),
    {
        let r = Store {
            users: Vec::new(),
            moods: Vec::new(),
            api_tokens: Vec::new(),
            user_files: Vec::new(),
        };
        assert(r@.users =~= Seq::empty());
        assert(r@.moods =~= Seq::empty());
        assert(r@.api_tokens =~= Seq::empty());
        assert(r@.user_files =~= Seq::empty());
        r
    }
}

/// The store with no record in any collection.
pub open spec fn empty_store() -> StoreView {
    StoreView {
        users: Seq::empty(),
        moods: Seq::empty(),
        api_tokens: Seq::empty(),
        user_files: Seq::empty(),
    }
}

// ---------------------------------------------------------------------
// Predicates on records
// ---------------------------------------------------------------------

/// Users whose username is `name`.
pub open spec fn named(name: Seq<char>) -> spec_fn(UserView) -> bool {
    |u: UserView| u.username == name
}

/// Users whose username is not `name`.
pub open spec fn not_named(name: Seq<char>) -> spec_fn(UserView) -> bool {
    |u: UserView| u.username != name
}

/// Users whose email-verification token is `token`.
pub open spec fn holding(token: Seq<char>) -> spec_fn(UserView) -> bool {
    |u: UserView| u.email_token == token
}

/// API tokens whose token text is `token`.
pub open spec fn bearing(token: Seq<char>) -> spec_fn(TokenView) -> bool {
    |t: TokenView| t.token == token
}

/// API tokens whose token text is `token` and that have not been revoked.
pub open spec fn live_bearing(token: Seq<char>) -> spec_fn(TokenView) -> bool {
    |t: TokenView| t.token == token && t.is_active
}

/// API tokens that do not belong to `owner`.
pub open spec fn token_not_of(owner: Seq<char>) -> spec_fn(TokenView) -> bool {
    |t: TokenView| t.username != owner
}

/// Whether a listing with `status` shows a token whose activity is `is_active`.
pub open spec fn shows(status: TokenStatus, is_active: bool) -> bool {
    match status {
        TokenStatus::Active => is_active,
        TokenStatus::Inactive => !is_active,
        TokenStatus::All => true,
    }
}

/// API tokens of `owner` that a listing with `status` shows.
pub open spec fn listed(owner: Seq<char>, status: TokenStatus) -> spec_fn(TokenView) -> bool {
    |t: TokenView| t.username == owner && shows(status, t.is_active)
}

/// Moods that do not belong to `owner`.
pub open spec fn mood_not_of(owner: Seq<char>) -> spec_fn(MoodView) -> bool {
    |m: MoodView| m.username != owner
}

/// Moods of `owner` that are active.
pub open spec fn active_of(owner: Seq<char>) -> spec_fn(MoodView) -> bool {
    |m: MoodView| m.username == owner && m.is_active
}

/// Moods of `owner` that are not active.
pub open spec fn inactive_of(owner: Seq<char>) -> spec_fn(MoodView) -> bool {
    |m: MoodView| m.username == owner && !m.is_active
}

/// Files that do not belong to `owner`.
pub open spec fn file_not_of(owner: Seq<char>) -> spec_fn(FileView) -> bool {
    |f: FileView| f.username != owner
}

// ---------------------------------------------------------------------
// Queries
// ---------------------------------------------------------------------

/// The single element of `hits`. No element is `NotFound`; more than one
/// means the store has lost an invariant and is `Inconsistency`.
pub open spec fn only<A>(hits: Seq<A>) -> Result<A, ErrKind> {
    if hits.len() == 1 {
        Ok(hits[0])
    } else if hits.len() == 0 {
        Err(ErrKind::NotFound)
    } else {
        Err(ErrKind::Inconsistency)
    }
}

/// The user called `name`.
pub open spec fn user_named(s: StoreView, name: Seq<char>) -> Result<UserView, ErrKind> {
    only(s.users.filter(named(name)))
}

/// The API token whose text is `token`.
pub open spec fn token_bearing(s: StoreView, token: Seq<char>) -> Result<TokenView, ErrKind> {
    only(s.api_tokens.filter(bearing(token)))
}

/// The active mood of `owner`.
pub open spec fn active_mood(s: StoreView, owner: Seq<char>) -> Result<MoodView, ErrKind> {
    only(s.moods.filter(active_of(owner)))
}

/// The live API token whose text is `token`: revoked tokens do not count.
pub open spec fn valid_token(s: StoreView, token: Seq<char>) -> Result<TokenView, ErrKind> {
    only(s.api_tokens.filter(live_bearing(token)))
}

/// The user a live API token resolves to.
pub open spec fn token_owner(s: StoreView, token: Seq<char>) -> Result<UserView, ErrKind> {
    match valid_token(s, token) {
        Ok(t) => user_named(s, t.username),
        Err(kind) => Err(kind),
    }
}

/// The owner on whose behalf the token `token` may use `cap`. A token that
/// no row bears is `NotFound`, one that several bear is `Inconsistency`; a
/// token that is revoked or lacks the flag is `Forbidden`; otherwise the
/// answer is that of looking up the token's owner.
pub open spec fn permitted(s: StoreView, token: Seq<char>, cap: Capability) -> Result<
    UserView,
    ErrKind,
> {
    match token_bearing(s, token) {
        Ok(t) => if t.is_active && grants(t, cap) {
            user_named(s, t.username)
        } else {
            Err(ErrKind::Forbidden)
        },
        Err(kind) => Err(kind),
    }
}

// ---------------------------------------------------------------------
// Transitions
// ---------------------------------------------------------------------

/// The store after `u` is inserted.
pub open spec fn with_user(s: StoreView, u: UserView) -> StoreView {
    StoreView { users: s.users.push(u), ..s }
}

/// The store after the user called `name` is deleted together with every
/// mood, API token and file it owns.
pub open spec fn without_user(s: StoreView, name: Seq<char>) -> StoreView {
    StoreView {
        users: s.users.filter(not_named(name)),
        moods: s.moods.filter(mood_not_of(name)),
        api_tokens: s.api_tokens.filter(token_not_of(name)),
        user_files: s.user_files.filter(file_not_of(name)),
    }
}

/// Gives the user called `name` the password digest `digest`.
pub open spec fn repassworded(name: Seq<char>, digest: Seq<char>) -> spec_fn(UserView) -> UserView {
    |u: UserView|
        if u.username == name {
            UserView { pwd: digest, ..u }
        } else {
            u
        }
}

/// Gives the user called `name` the email digest `digest` and the
/// verification token `token`.
pub open spec fn readdressed(name: Seq<char>, digest: Seq<char>, token: Seq<char>) -> spec_fn(
    UserView,
) -> UserView {
    |u: UserView|
        if u.username == name {
            UserView { email: digest, email_token: token, ..u }
        } else {
            u
        }
}

/// Marks the user called `name` as verified and gives it the verification
/// token `token`.
pub open spec fn activated(name: Seq<char>, token: Seq<char>) -> spec_fn(UserView) -> UserView {
    |u: UserView|
        if u.username == name {
            UserView { is_active: true, email_token: token, ..u }
        } else {
            u
        }
}

/// The store after every user is passed through `f`.
pub open spec fn with_users_mapped(s: StoreView, f: spec_fn(UserView) -> UserView) -> StoreView {
    StoreView { users: s.users.map_values(f), ..s }
}

/// The store after the API token `t` is inserted.
pub open spec fn with_token(s: StoreView, t: TokenView) -> StoreView {
    StoreView { api_tokens: s.api_tokens.push(t), ..s }
}

/// Revokes the API token whose text is `token`; nothing else of it changes.
pub open spec fn revoked(token: Seq<char>) -> spec_fn(TokenView) -> TokenView {
    |t: TokenView|
        if t.token == token {
            TokenView { is_active: false, ..t }
        } else {
            t
        }
}

/// The store after the API token whose text is `token` is revoked.
pub open spec fn with_token_revoked(s: StoreView, token: Seq<char>) -> StoreView {
    StoreView { api_tokens: s.api_tokens.map_values(revoked(token)), ..s }
}

/// Deactivates a mood of `owner`; moods of other users are left alone.
pub open spec fn retired(owner: Seq<char>) -> spec_fn(MoodView) -> MoodView {
    |m: MoodView|
        if m.username == owner {
            MoodView { is_active: false, ..m }
        } else {
            m
        }
}

/// The active mood that `owner` sets with the label `label` at `at`.
pub open spec fn fresh_mood(owner: Seq<char>, label: Seq<char>, at: Seq<char>) -> MoodView {
    MoodView { username: owner, is_active: true, mood: label, created_at: at }
}

/// The store after `owner` sets a mood: every earlier mood of `owner` is
/// deactivated and the new one is appended as the active one.
pub open spec fn with_mood(
    s: StoreView,
    owner: Seq<char>,
    label: Seq<char>,
    at: Seq<char>,
) -> StoreView {
    StoreView { moods: s.moods.map_values(retired(owner)).push(fresh_mood(owner, label, at)), ..s }
}

/// The store after every mood of `owner` is deleted, active or not.
pub open spec fn without_moods(s: StoreView, owner: Seq<char>) -> StoreView {
    StoreView { moods: s.moods.filter(mood_not_of(owner)), ..s }
}

/// The store after the file `f` is inserted.
pub open spec fn with_file(s: StoreView, f: FileView) -> StoreView {
    StoreView { user_files: s.user_files.push(f), ..s }
}

/// Every element that a filter keeps satisfies the predicate; so the user
/// that a lookup by name finds bears that name.
pub proof fn lemma_named_hit(users: Seq<UserView>, name: Seq<char>)
    ensures
        forall|i: int|
            0 <= i < users.filter(named(name)).len() ==> (#[trigger] users.filter(
                named(name),
            )[i]).username == name,
{
    assert forall|i: int| 0 <= i < users.filter(named(name)).len() implies (#[trigger] users.filter(
        named(name),
    )[i]).username == name by {
        users.lemma_filter_pred(named(name), i);
    }
}

} // verus!
