//! The records the store holds, the payloads of the operations and the
//! values they answer with. Every record has a view: the same fields with
//! each text as a sequence of characters.

use vstd::prelude::*;

verus! {

/// The mathematical value of a [`JadeUser`].
pub struct UserView {
    pub username: Seq<char>,
    pub email: Seq<char>,
    pub pwd: Seq<char>,
    pub email_token: Seq<char>,
    pub is_active: bool,
}

/// A registered user. `email` and `pwd` hold digests, never plain text.
#[derive(Debug, PartialEq, Eq)]
pub struct JadeUser {
    pub username: String,
    pub email: String,
    pub pwd: String,
    pub email_token: String,
    pub is_active: bool,
}

impl View for JadeUser {
    type V = UserView;

    open spec fn view(&self) -> UserView {
        UserView {
            username: self.username@,
            email: self.email@,
            pwd: self.pwd@,
            email_token: self.email_token@,
            is_active: self.is_active,
        }
    }
}

impl Clone for JadeUser {
    fn clone(&self) -> (r: Self)
        ensures
            r == *self,
    {
        JadeUser {
            username: self.username.clone(),
            email: self.email.clone(),
            pwd: self.pwd.clone(),
            email_token: self.email_token.clone(),
            is_active: self.is_active,
        }
    }
}

/// The mathematical value of a [`JadeUserFile`].
pub struct FileView {
    pub file_id: Seq<char>,
    pub username: Seq<char>,
    pub file_name: Seq<char>,
    pub data: Seq<u8>,
}

/// A file a user has uploaded.
#[derive(Debug, PartialEq, Eq)]
pub struct JadeUserFile {
    pub file_id: String,
    pub username: String,
    pub file_name: String,
    pub data: Vec<u8>,
}

impl View for JadeUserFile {
    type V = FileView;

    open spec fn view(&self) -> FileView {
        FileView {
            file_id: self.file_id@,
            username: self.username@,
            file_name: self.file_name@,
            data: self.data@,
        }
    }
}

impl Clone for JadeUserFile {
    fn clone(&self) -> (r: Self)
        ensures
            r@ == self@,
    {
        JadeUserFile {
            file_id: self.file_id.clone(),
            username: self.username.clone(),
            file_name: self.file_name.clone(),
            data: self.data.clone(),
        }
    }
}

/// The mathematical value of a [`JadeMood`].
pub struct MoodView {
    pub username: Seq<char>,
    pub is_active: bool,
    pub mood: Seq<char>,
    pub created_at: Seq<char>,
}

/// One mood a user has set. At most one mood of a user is active.
#[derive(Debug, PartialEq, Eq)]
pub struct JadeMood {
    pub username: String,
    pub is_active: bool,
    pub mood: String,
    pub created_at: String,
}

impl View for JadeMood {
    type V = MoodView;

    open spec fn view(&self) -> MoodView {
        MoodView {
            username: self.username@,
            is_active: self.is_active,
            mood: self.mood@,
            created_at: self.created_at@,
        }
    }
}

impl Clone for JadeMood {
    fn clone(&self) -> (r: Self)
        ensures
            r == *self,
    {
        JadeMood {
            username: self.username.clone(),
            is_active: self.is_active,
            mood: self.mood.clone(),
            created_at: self.created_at.clone(),
        }
    }
}

/// The mathematical value of an [`APIToken`].
pub struct TokenView {
    pub username: Seq<char>,
    pub token: Seq<char>,
    pub created_at: Seq<char>,
    pub is_active: bool,
    pub can_change_pwd: bool,
    pub can_set_mood: bool,
    pub can_delete_user: bool,
    pub can_change_email: bool,
}

/// An API token bound to a user. Its capabilities are fixed when it is
/// issued; only `is_active` ever changes, and only from true to false.
#[derive(Debug, PartialEq, Eq)]
pub struct APIToken {
    pub username: String,
    pub token: String,
    pub created_at: String,
    pub is_active: bool,
    pub can_change_pwd: bool,
    pub can_set_mood: bool,
    pub can_delete_user: bool,
    pub can_change_email: bool,
}

impl View for APIToken {
    type V = TokenView;

    open spec fn view(&self) -> TokenView {
        TokenView {
            username: self.username@,
            token: self.token@,
            created_at: self.created_at@,
            is_active: self.is_active,
            can_change_pwd: self.can_change_pwd,
            can_set_mood: self.can_set_mood,
            can_delete_user: self.can_delete_user,
            can_change_email: self.can_change_email,
        }
    }
}

impl Clone for APIToken {
    fn clone(&self) -> (r: Self)
        ensures
            r == *self,
    {
        APIToken {
            username: self.username.clone(),
            token: self.token.clone(),
            created_at: self.created_at.clone(),
            is_active: self.is_active,
            can_change_pwd: self.can_change_pwd,
            can_set_mood: self.can_set_mood,
            can_delete_user: self.can_delete_user,
            can_change_email: self.can_change_email,
        }
    }
}

/// What an API token may be allowed to do.
#[derive(Clone, Copy, Debug, PartialEq, Eq, Structural)]
pub enum Capability {
    /// Change the password or the email address of the owner: the flag
    /// `can_change_pwd`, which gates both operations.
    ChangeCredentials,
    /// Set a mood for the owner: the flag `can_set_mood`.
    SetMood,
    /// The flag `can_delete_user`. A token records it; no operation of this
    /// library asks for it.
    DeleteUser,
    /// The flag `can_change_email`. A token records it; no operation of this
    /// library asks for it: an email change is gated by `ChangeCredentials`.
    ChangeEmail,
}

/// Whether the token carries the flag for `cap`.
pub open spec fn grants(t: TokenView, cap: Capability) -> bool {
    match cap {
        Capability::ChangeCredentials => t.can_change_pwd,
        Capability::SetMood => t.can_set_mood,
        Capability::DeleteUser => t.can_delete_user,
        Capability::ChangeEmail => t.can_change_email,
    }
}

impl APIToken {
    /// Whether this token carries the flag for `cap`.
    pub fn allows(&self, cap: Capability) -> (r: bool)
        ensures
            r == grants(self@, cap),
    {
        match cap {
            Capability::ChangeCredentials => self.can_change_pwd,
            Capability::SetMood => self.can_set_mood,
            Capability::DeleteUser => self.can_delete_user,
            Capability::ChangeEmail => self.can_change_email,
        }
    }
}

/// What a caller submits to register a user.
#[derive(Debug)]
pub struct CreateUserPayload {
    pub email: String,
    pub username: String,
    pub password: String,
}

/// What a caller submits to an operation that needs only an API token.
#[derive(Debug)]
pub struct TokenOnlyPayload {
    pub api_token: String,
}

/// What a caller submits to change a password or an email address.
#[derive(Debug)]
pub struct ChangeEntityPayload {
    pub new_entity: String,
    pub api_token: String,
}

/// What a caller submits to have an API token issued.
#[derive(Debug)]
pub struct CreateTokenPayload {
    pub username: String,
    pub password: String,
    pub can_change_pwd: bool,
    pub can_set_mood: bool,
    pub can_delete_user: bool,
    pub can_change_email: bool,
}

/// What a caller submits to revoke an API token.
#[derive(Debug)]
pub struct DeleteTokenPayload {
    pub username: String,
    pub password: String,
    pub api_token: String,
}

/// What a caller submits to set or delete moods.
#[derive(Debug)]
pub struct MoodActionPayload {
    pub api_token: String,
    pub mood: String,
}

/// The answer of an operation that returns no data: 0 for success, 1 for
/// failure.
#[derive(Debug, PartialEq, Eq)]
pub struct StatusResponse {
    pub status: usize,
}

/// What a caller submits to an operation that needs only a username.
#[derive(Debug)]
pub struct UsernameOnlyPayload {
    pub username: String,
}

/// All moods of one user: the active one, and the others.
#[derive(Debug, PartialEq, Eq)]
pub struct UserMoodsResponse {
    pub active_mood: JadeMood,
    pub inactive_moods: Vec<JadeMood>,
}

/// What a caller submits to list the API tokens of a user.
#[derive(Debug)]
pub struct UserAPITokensPayload {
    pub username: String,
    pub password: String,
}

/// Whether an email address was verified.
#[derive(Debug, PartialEq, Eq)]
pub struct EmailVerificationStatus {
    pub status: bool,
}

/// The metadata that accompanies an uploaded file.
#[derive(Debug)]
pub struct MetaData {
    pub name: String,
    pub api_token: String,
}

/// Which tokens a listing shows.
#[derive(Clone, Copy, Debug, PartialEq, Eq, Structural)]
pub enum TokenStatus {
    /// Tokens that have not been revoked.
    Active,
    /// Tokens that have been revoked.
    Inactive,
    /// Every token, revoked or not.
    All,
}

/// The settings the backend is started with.
#[derive(Debug)]
pub struct ConfigData {
    pub db_url: String,
    pub actix_host: String,
    pub actix_port: String,
    pub smtp_server: String,
}

impl ConfigData {
    /// The settings made of copies of the four given texts.
    pub fn new(
        db_url: &String,
        actix_host: &String,
        actix_port: &String,
        smtp_server: &String,
    ) -> (r: ConfigData)
        ensures
            r.db_url@ == db_url@,
            r.actix_host@ == actix_host@,
            r.actix_port@ == actix_port@,
            r.smtp_server@ == smtp_server@,
    {
        ConfigData {
            db_url: db_url.clone(),
            actix_host: actix_host.clone(),
            actix_port: actix_port.clone(),
            smtp_server: smtp_server.clone(),
        }
    }
}

} // verus!
