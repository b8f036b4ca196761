//! The verification mail: what is sent to a user who must confirm an email
//! address. The library composes it; sending it is the caller's part.

use vstd::prelude::*;
use crate::text::join2;
use crate::text::join3;

verus! {

/// The mathematical value of an [`EmailMessage`].
pub struct MailView {
    pub from: Seq<char>,
    pub to: Seq<char>,
    pub subject: Seq<char>,
    pub body: Seq<char>,
}

/// A mail ready to be handed to the mail collaborator.
#[derive(Debug, PartialEq, Eq)]
pub struct EmailMessage {
    pub from: String,
    pub to: String,
    pub subject: String,
    pub body: String,
}

impl View for EmailMessage {
    type V = MailView;

    open spec fn view(&self) -> MailView {
        MailView { from: self.from@, to: self.to@, subject: self.subject@, body: self.body@ }
    }
}

impl Clone for EmailMessage {
    fn clone(&self) -> (r: Self)
        ensures
            r == *self,
    {
        EmailMessage {
            from: self.from.clone(),
            to: self.to.clone(),
            subject: self.subject.clone(),
            body: self.body.clone(),
        }
    }
}

/// The sender address of mails that leave through `server`.
pub open spec fn sender_text(server: Seq<char>) -> Seq<char> {
    "Jade <noreply@"@ + server + ">"@
}

/// The recipient: the user's name and, in angle brackets, the address.
pub open spec fn recipient_text(username: Seq<char>, address: Seq<char>) -> Seq<char> {
    username + " <"@ + address + ">"@
}

/// The subject line; it differs for a changed address.
pub open spec fn subject_text(username: Seq<char>, changed: bool) -> Seq<char> {
    if changed {
        "Confirm your new email address, "@ + username + "."@
    } else {
        "Confirm your email address, "@ + username + "."@
    }
}

/// The body: an invitation to open the verification link for `token`.
pub open spec fn body_text(server: Seq<char>, token: Seq<char>) -> Seq<char> {
    "Please copy and paste this link into your browser to confirm your email address: "@
        + server + "/email/verify/"@ + token
}

/// The mail that asks `username` to confirm `address` with `token`.
pub open spec fn verification_mail(
    server: Seq<char>,
    username: Seq<char>,
    address: Seq<char>,
    token: Seq<char>,
    changed: bool,
) -> MailView {
    MailView {
        from: sender_text(server),
        to: recipient_text(username, address),
        subject: subject_text(username, changed),
        body: body_text(server, token),
    }
}

/// Composes the mail that asks `username` to confirm `address` with `token`.
pub fn compose_verification(
    server: &String,
    username: &String,
    address: &String,
    token: &String,
    changed: bool,
) -> (r: EmailMessage)
    ensures
        r@ == verification_mail(server@, username@, address@, token@, changed),
{
    let subject = if changed {
        join3("Confirm your new email address, ", username.as_str(), ".")
    } else {
        join3("Confirm your email address, ", username.as_str(), ".")
    };
    let lead = join2(
        "Please copy and paste this link into your browser to confirm your email address: ",
        server.as_str(),
    );
    let to_name = join2(username.as_str(), " <");
    EmailMessage {
        from: join3("Jade <noreply@", server.as_str(), ">"),
        to: join3(to_name.as_str(), address.as_str(), ">"),
        subject,
        body: join3(lead.as_str(), "/email/verify/", token.as_str()),
    }
}

} // verus!
