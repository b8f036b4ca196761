//! Jade: the account, API-token and mood rules of a small multi-tenant
//! backend, stated over an explicit store and proved with Verus.

pub mod creds;
pub mod err;
pub mod files;
pub mod laws;
pub mod mail;
pub mod moods;
pub mod seqs;
pub mod store;
pub mod text;
pub mod time;
pub mod tokens;
pub mod units;
pub mod users;

pub use creds::derive_token;
pub use creds::hash_secret;
pub use creds::verify_secret;
pub use err::ErrKind;
pub use err::JadeErr;
pub use files::keep_file;
pub use files::store_file;
pub use mail::compose_verification;
pub use mail::EmailMessage;
pub use moods::create_new_mood;
pub use moods::get_user_mood;
pub use moods::get_user_moods;
pub use moods::record_mood;
pub use moods::wipe_mood;
pub use store::Store;
pub use time::get_time;
pub use time::TimeNow;
pub use tokens::authorize;
pub use tokens::create_new_token;
pub use tokens::find_token;
pub use tokens::get_user_from_token;
pub use tokens::get_user_tokens;
pub use tokens::issue_token;
pub use tokens::list_tokens;
pub use tokens::revoke_token;
pub use tokens::validate_token;
pub use tokens::wipe_token;
pub use units::APIToken;
pub use units::Capability;
pub use units::ChangeEntityPayload;
pub use units::ConfigData;
pub use units::CreateTokenPayload;
pub use units::CreateUserPayload;
pub use units::DeleteTokenPayload;
pub use units::EmailVerificationStatus;
pub use units::JadeMood;
pub use units::JadeUser;
pub use units::JadeUserFile;
pub use units::MetaData;
pub use units::MoodActionPayload;
pub use units::StatusResponse;
pub use units::TokenOnlyPayload;
pub use units::TokenStatus;
pub use units::UserAPITokensPayload;
pub use units::UserMoodsResponse;
pub use units::UsernameOnlyPayload;
pub use users::confirm_email;
pub use users::email_change_of;
pub use users::enrollment_of;
pub use users::get_user_by_handle;
pub use users::prepare_email_change;
pub use users::prepare_user;
pub use users::set_password;
pub use users::update_user_email;
pub use users::update_user_password;
pub use users::verify_user_email;
pub use users::wipe_user;
pub use users::write_user;
pub use users::EmailChange;
pub use users::Enrollment;
