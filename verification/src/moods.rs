//! The mood ledger: setting a mood, reading the active one and the history,
//! and deleting moods. A user has at most one active mood at any time.

use vstd::prelude::*;
use crate::err::ErrKind;
use crate::err::JadeErr;
use crate::err::fails_with;
use crate::err::gives;
use crate::seqs::lemma_filter_ends;
use crate::seqs::lemma_filter_step;
use crate::store::Store;
use crate::store::StoreView;
use crate::store::active_mood;
use crate::store::active_of;
use crate::store::fresh_mood;
use crate::store::inactive_of;
use crate::store::mood_not_of;
use crate::store::permitted;
use crate::store::retired;
use crate::store::rows;
use crate::store::token_owner;
use crate::store::user_named;
use crate::store::with_mood;
use crate::store::without_moods;
use crate::time::get_time;
use crate::time::is_stamp;
use crate::tokens::authorize;
use crate::tokens::get_user_from_token;
use crate::units::Capability;
use crate::units::JadeMood;
use crate::units::MoodActionPayload;
use crate::units::MoodView;
use crate::units::StatusResponse;
use crate::units::UserMoodsResponse;
use crate::units::UsernameOnlyPayload;
use crate::users::get_user_by_handle;
use crate::users::not_single;

verus! {

/// How many moods of `owner` are active, and where the first of them stands.
pub(crate) fn scan_active_moods(moods: &Vec<JadeMood>, owner: &String) -> (r: (usize, usize))
    ensures
        r.0 == rows(moods@).filter(active_of(owner@)).len(),
        r.0 > 0 ==> r.1 < moods.len() && moods[r.1 as int]@ == rows(moods@).filter(
            active_of(owner@),
        )[0],
{
    let ghost all = rows(moods@);
    let ghost p = active_of(owner@);
    let mut count: usize = 0;
    let mut first: usize = 0;
    let mut i: usize = 0;
    proof {
        lemma_filter_ends(all, p);
    }
    while i < moods.len()
        invariant
            i <= moods.len(),
            all == rows(moods@),
            p == active_of(owner@),
            count == all.take(i as int).filter(p).len(),
            count > 0 ==> first < i && moods[first as int]@ == all.take(i as int).filter(p)[0],
        decreases moods.len() - i,
    {
        proof {
            lemma_filter_step(all, p, i as int);
        }
        if moods[i].username == *owner && moods[i].is_active {
            if count == 0 {
                first = i;
            }
            count = count + 1;
        }
        i = i + 1;
    }
    (count, first)
}

/// The moods with every mood of `owner` deactivated.
pub(crate) fn retire_in(moods: &Vec<JadeMood>, owner: &String) -> (r: Vec<JadeMood>)
    ensures
        rows(r@) == rows(moods@).map_values(retired(owner@)),
{
    let ghost f = retired(owner@);
    let mut out: Vec<JadeMood> = Vec::new();
    let mut i: usize = 0;
    while i < moods.len()
        invariant
            i <= moods.len(),
            f == retired(owner@),
            out.len() == i,
            forall|j: int| 0 <= j < i ==> (#[trigger] out[j])@ == f(moods[j]@),
        decreases moods.len() - i,
    {
        let mut m = moods[i].clone();
        if m.username == *owner {
            m.is_active = false;
        }
        out.push(m);
        i = i + 1;
    }
    assert(rows(out@) =~= rows(moods@).map_values(f));
    out
}

/// Copies of the moods that do not belong to `owner`.
pub(crate) fn moods_without(moods: &Vec<JadeMood>, owner: &String) -> (r: Vec<JadeMood>)
    ensures
        rows(r@) == rows(moods@).filter(mood_not_of(owner@)),
{
    let ghost all = rows(moods@);
    let ghost p = mood_not_of(owner@);
    let mut out: Vec<JadeMood> = Vec::new();
    let mut i: usize = 0;
    proof {
        lemma_filter_ends(all, p);
        assert(rows(out@) =~= all.take(0).filter(p));
    }
    while i < moods.len()
        invariant
            i <= moods.len(),
            all == rows(moods@),
            p == mood_not_of(owner@),
            rows(out@) == all.take(i as int).filter(p),
        decreases moods.len() - i,
    {
        proof {
            lemma_filter_step(all, p, i as int);
        }
        if moods[i].username != *owner {
            let ghost before = out@;
            out.push(moods[i].clone());
            assert(rows(out@) =~= rows(before).push(moods[i as int]@));
        }
        i = i + 1;
    }
    out
}

/// Copies of the moods of `owner` that are not active.
pub(crate) fn moods_inactive(moods: &Vec<JadeMood>, owner: &String) -> (r: Vec<JadeMood>)
    ensures
        rows(r@) == rows(moods@).filter(inactive_of(owner@)),
{
    let ghost all = rows(moods@);
    let ghost p = inactive_of(owner@);
    let mut out: Vec<JadeMood> = Vec::new();
    let mut i: usize = 0;
    proof {
        lemma_filter_ends(all, p);
        assert(rows(out@) =~= all.take(0).filter(p));
    }
    while i < moods.len()
        invariant
            i <= moods.len(),
            all == rows(moods@),
            p == inactive_of(owner@),
            rows(out@) == all.take(i as int).filter(p),
        decreases moods.len() - i,
    {
        proof {
            lemma_filter_step(all, p, i as int);
        }
        if moods[i].username == *owner && !moods[i].is_active {
            let ghost before = out@;
            out.push(moods[i].clone());
            assert(rows(out@) =~= rows(before).push(moods[i as int]@));
        }
        i = i + 1;
    }
    out
}

/// What setting a mood does to the store. The token must be live and carry
/// the capability to set moods, and must resolve to its owner; then every
/// earlier mood of the owner is deactivated and the new one becomes the
/// active one, in one step.
pub open spec fn mood_setting(s: StoreView, token: Seq<char>, label: Seq<char>, at: Seq<char>)
    -> Result<StoreView, ErrKind> {
    match permitted(s, token, Capability::SetMood) {
        Ok(owner) => Ok(with_mood(s, owner.username, label, at)),
        Err(kind) => Err(kind),
    }
}

/// The mood that a successful [`record_mood`] answers with.
pub open spec fn mood_set(s: StoreView, token: Seq<char>, label: Seq<char>, at: Seq<char>)
    -> MoodView {
    fresh_mood(permitted(s, token, Capability::SetMood).unwrap().username, label, at)
}

/// Sets the mood of the request for the owner of its token, stamped with
/// `created_at`. On failure the store is left as it was.
pub fn record_mood(payload: &MoodActionPayload, store: &mut Store, created_at: String) -> (r:
    Result<JadeMood, JadeErr>)
    ensures
        match mood_setting(old(store)@, payload.api_token@, payload.mood@, created_at@) {
            Ok(next) => final(store)@ == next && gives(
                r,
                mood_set(old(store)@, payload.api_token@, payload.mood@, created_at@),
            ),
            Err(kind) => final(store)@ == old(store)@ && fails_with(r, kind),
        },
{
    let owner = match authorize(&payload.api_token, Capability::SetMood, store) {
        Ok(owner) => owner,
        Err(e) => {
            return Err(e);
        },
    };
    let mood = JadeMood {
        username: owner.username,
        is_active: true,
        mood: payload.mood.clone(),
        created_at,
    };
    let mut moods = retire_in(&store.moods, &mood.username);
    let ghost before = moods@;
    moods.push(mood.clone());
    assert(rows(moods@) =~= rows(before).push(mood@));
    store.moods = moods;
    Ok(mood)
}

/// Sets the mood of the request for the owner of its token, stamped with
/// the current time. A token that is revoked or may not set moods is
/// `Forbidden`.
pub fn create_new_mood(payload: &MoodActionPayload, store: &mut Store) -> (r: Result<
    JadeMood,
    JadeErr,
>)
    ensures
        match permitted(old(store)@, payload.api_token@, Capability::SetMood) {
            Ok(owner) => r matches Ok(m) && {
                &&& m@ == fresh_mood(owner.username, payload.mood@, m.created_at@)
                &&& is_stamp(m.created_at@)
                &&& final(store)@ == with_mood(
                    old(store)@,
                    owner.username,
                    payload.mood@,
                    m.created_at@,
                )
            },
            Err(kind) => final(store)@ == old(store)@ && fails_with(r, kind),
        },
{
    let created_at = get_time();
    record_mood(payload, store, created_at)
}

/// Deletes every mood of the owner of the request's token, the active one
/// and the earlier ones alike. The token must be valid.
pub fn wipe_mood(payload: &MoodActionPayload, store: &mut Store) -> (r: Result<
    StatusResponse,
    JadeErr,
>)
    ensures
        match token_owner(old(store)@, payload.api_token@) {
            Ok(owner) => final(store)@ == without_moods(old(store)@, owner.username) && r
                == Ok::<StatusResponse, JadeErr>(StatusResponse { status: 0 }),
            Err(kind) => final(store)@ == old(store)@ && fails_with(r, kind),
        },
{
    let owner = match get_user_from_token(&payload.api_token, store) {
        Ok(owner) => owner,
        Err(e) => {
            return Err(e);
        },
    };
    let kept = moods_without(&store.moods, &owner.username);
    store.moods = kept;
    Ok(StatusResponse { status: 0 })
}

/// What reading the active mood of `name` answers: the user must exist, and
/// must have exactly one active mood. None is `NotFound`; more than one
/// means a switch of moods went wrong and is `Inconsistency`.
pub open spec fn mood_reading(s: StoreView, name: Seq<char>) -> Result<MoodView, ErrKind> {
    match user_named(s, name) {
        Ok(u) => active_mood(s, u.username),
        Err(kind) => Err(kind),
    }
}

/// The active mood of the user of the request.
pub fn get_user_mood(payload: &UsernameOnlyPayload, store: &Store) -> (r: Result<
    JadeMood,
    JadeErr,
>)
    ensures
        match mood_reading(store@, payload.username@) {
            Ok(m) => gives(r, m),
            Err(kind) => fails_with(r, kind),
        },
{
    let user = match get_user_by_handle(&payload.username, store) {
        Ok(user) => user,
        Err(e) => {
            return Err(e);
        },
    };
    let (count, first) = scan_active_moods(&store.moods, &user.username);
    if count == 1 {
        Ok(store.moods[first].clone())
    } else {
        Err(not_single(count, "An active mood of user", &user.username))
    }
}

/// All moods of the user of the request: the active one, and the others in
/// the order of the store. Without a well-defined active mood the whole
/// read fails, with the error of [`get_user_mood`].
pub fn get_user_moods(payload: &UsernameOnlyPayload, store: &Store) -> (r: Result<
    UserMoodsResponse,
    JadeErr,
>)
    ensures
        match mood_reading(store@, payload.username@) {
            Ok(m) => r matches Ok(all) && all.active_mood@ == m && rows(all.inactive_moods@)
                == store@.moods.filter(inactive_of(payload.username@)),
            Err(kind) => fails_with(r, kind),
        },
{
    let active_mood = match get_user_mood(payload, store) {
        Ok(active_mood) => active_mood,
        Err(e) => {
            return Err(e);
        },
    };
    let inactive_moods = moods_inactive(&store.moods, &payload.username);
    Ok(UserMoodsResponse { active_mood, inactive_moods })
}

} // verus!
