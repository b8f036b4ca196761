//! Files that users upload.

use vstd::prelude::*;
use crate::creds::derive_token;
use crate::creds::digest_of;
use crate::err::ErrKind;
use crate::err::JadeErr;
use crate::err::fails_with;
use crate::err::gives;
use crate::seqs::lemma_filter_ends;
use crate::seqs::lemma_filter_step;
use crate::store::Store;
use crate::store::StoreView;
use crate::store::file_not_of;
use crate::store::rows;
use crate::store::token_owner;
use crate::store::with_file;
use crate::text::join3;
use crate::time::get_time;
use crate::time::is_stamp;
use crate::tokens::get_user_from_token;
use crate::units::FileView;
use crate::units::JadeUserFile;

verus! {

/// Copies of the files that do not belong to `owner`.
pub(crate) fn files_without(files: &Vec<JadeUserFile>, owner: &String) -> (r: Vec<JadeUserFile>)
    ensures
        rows(r@) == rows(files@).filter(file_not_of(owner@)),
{
    let ghost all = rows(files@);
    let ghost p = file_not_of(owner@);
    let mut out: Vec<JadeUserFile> = Vec::new();
    let mut i: usize = 0;
    proof {
        lemma_filter_ends(all, p);
        assert(rows(out@) =~= all.take(0).filter(p));
    }
    while i < files.len()
        invariant
            i <= files.len(),
            all == rows(files@),
            p == file_not_of(owner@),
            rows(out@) == all.take(i as int).filter(p),
        decreases files.len() - i,
    {
        proof {
            lemma_filter_step(all, p, i as int);
        }
        if files[i].username != *owner {
            let ghost before = out@;
            out.push(files[i].clone());
            assert(rows(out@) =~= rows(before).push(files[i as int]@));
        }
        i = i + 1;
    }
    out
}

/// The seed a file identifier is derived from: the file's name, a colon and
/// the time of the upload.
pub open spec fn file_seed(name: Seq<char>, at: Seq<char>) -> Seq<char> {
    name + ":"@ + at
}

/// The record of an upload by `owner`.
pub open spec fn file_record(
    owner: Seq<char>,
    file_id: Seq<char>,
    name: Seq<char>,
    data: Seq<u8>,
) -> FileView {
    FileView { file_id, username: owner, file_name: name, data }
}

/// What keeping an upload does to the store: the token must be valid; the
/// file is then recorded for the token's owner.
pub open spec fn upload(
    s: StoreView,
    token: Seq<char>,
    file_id: Seq<char>,
    name: Seq<char>,
    data: Seq<u8>,
) -> Result<StoreView, ErrKind> {
    match token_owner(s, token) {
        Ok(owner) => Ok(with_file(s, file_record(owner.username, file_id, name, data))),
        Err(kind) => Err(kind),
    }
}

/// Records the upload `file` under the identifier `file_id` for the owner of
/// `api_token`. On failure the store is left as it was.
pub fn keep_file(
    file: &Vec<u8>,
    api_token: &String,
    name: &String,
    store: &mut Store,
    file_id: String,
) -> (r: Result<JadeUserFile, JadeErr>)
    ensures
        match upload(old(store)@, api_token@, file_id@, name@, file@) {
            Ok(next) => final(store)@ == next && gives(
                r,
                file_record(
                    token_owner(old(store)@, api_token@).unwrap().username,
                    file_id@,
                    name@,
                    file@,
                ),
            ),
            Err(kind) => final(store)@ == old(store)@ && fails_with(r, kind),
        },
{
    let owner = match get_user_from_token(api_token, store) {
        Ok(owner) => owner,
        Err(e) => {
            return Err(e);
        },
    };
    let kept = JadeUserFile {
        file_id,
        username: owner.username,
        file_name: name.clone(),
        data: file.clone(),
    };
    let ghost before = store.user_files@;
    store.user_files.push(kept.clone());
    assert(rows(store.user_files@) =~= rows(before).push(kept@));
    Ok(kept)
}

/// Records the upload `file` for the owner of `api_token`, under an
/// identifier that is a fresh digest of the file's name and the current
/// time.
pub fn store_file(file: &Vec<u8>, api_token: &String, name: &String, store: &mut Store) -> (r:
    Result<JadeUserFile, JadeErr>)
    ensures
        match token_owner(old(store)@, api_token@) {
            Ok(owner) => match r {
                Ok(f) => {
                    &&& f@ == file_record(owner.username, f.file_id@, name@, file@)
                    &&& exists|at: Seq<char>|
                        is_stamp(at) && #[trigger] digest_of(file_seed(name@, at), f.file_id@)
                    &&& final(store)@ == with_file(old(store)@, f@)
                },
                Err(e) => final(store)@ == old(store)@ && e.kind == ErrKind::HashingError,
            },
            Err(kind) => final(store)@ == old(store)@ && fails_with(r, kind),
        },
{
    match get_user_from_token(api_token, store) {
        Ok(_) => {},
        Err(e) => {
            return Err(e);
        },
    }
    let at = get_time();
    let seed = join3(name.as_str(), ":", at.as_str());
    match derive_token(seed.as_str()) {
        Ok(file_id) => {
            assert(is_stamp(at@) && digest_of(file_seed(name@, at@), file_id@));
            keep_file(file, api_token, name, store, file_id)
        },
        Err(e) => Err(e),
    }
}

} // verus!
