//! What is sent to users by e-mail: to whom, under which subject, with
//! which text.

use crate::user::UserId;
use vstd::prelude::*;
use vstd::string::StringExecFns;

verus! {

/// Subject and text of an e-mail.
#[derive(Clone, Debug)]
pub struct Notification {
    pub subject: String,
    pub text: String,
}

/// The page of the chat with the user `username`.
pub open spec fn spec_chat_url(base_url: Seq<char>, username: Seq<char>) -> Seq<char> {
    base_url + "/chat/"@ + username
}

/// Subject of the e-mail that announces a message from `visible_name`.
pub open spec fn spec_chat_subject(visible_name: Seq<char>) -> Seq<char> {
    "DevAndDev - "@ + visible_name + " sent you a new message"@
}

/// Text of the e-mail that announces a message from `visible_name`.
pub open spec fn spec_chat_text(visible_name: Seq<char>, chat_url: Seq<char>) -> Seq<char> {
    "You have a message from "@ + visible_name + ". View on DevAndDev: "@ + chat_url
}

/// The page on which the password is reset with `token`.
pub open spec fn spec_token_url(base_url: Seq<char>, token: Seq<char>) -> Seq<char> {
    base_url + "/password_reset/"@ + token
}

/// The page on which a new password reset link is asked for.
pub open spec fn spec_retry_url(base_url: Seq<char>) -> Seq<char> {
    base_url + "/password_reset"@
}

/// Text of the e-mail that carries a password reset link.
pub open spec fn spec_password_reset_text(token_url: Seq<char>, retry_url: Seq<char>) -> Seq<
    char,
> {
    "We heard that you lost your DevAndDev password. Sorry about that!\n\n\n\nBut don\u{2019}t worry! You can use the following link to reset your password:\n\n\n\n"@
        + token_url
        + "\n\n\n\nIf you don\u{2019}t use this link within 3 hours, it will expire. To get a new password reset link, visit "@
        + retry_url + "\n\n\n\nThanks,\n\nThe DevAndDev team\n"@
}

/// The members of a chat that are told of a message: all but its author,
/// in their order.
pub open spec fn spec_chat_recipients(to: Seq<UserId>, from: UserId) -> Seq<UserId>
    decreases to.len(),
{
    if to.len() == 0 {
        Seq::empty()
    } else if to.last() == from {
        spec_chat_recipients(to.drop_last(), from)
    } else {
        spec_chat_recipients(to.drop_last(), from).push(to.last())
    }
}

/// The members of a chat that are told of a message from `from`: all but
/// `from`, in their order.
pub fn chat_recipients(to: &Vec<UserId>, from: UserId) -> (recipients: Vec<UserId>)
    ensures
        recipients@ == spec_chat_recipients(to@, from),
{
    let mut recipients: Vec<UserId> = Vec::new();
    let mut i: usize = 0;
    while i < to.len()
        invariant
            i <= to.len(),
            recipients@ == spec_chat_recipients(to@.take(i as int), from),
        decreases to.len() - i,
    {
        proof {
            assert(to@.take(i + 1).drop_last() =~= to@.take(i as int));
        }
        if to[i].0 != from.0 {
            recipients.push(to[i]);
        }
        i += 1;
    }
    proof {
        assert(to@.take(i as int) =~= to@);
    }
    recipients
}

/// The e-mail that tells the members of a chat of a new message from the
/// user `username`, shown as `visible_name`.
pub fn chat_notification(base_url: &str, username: &str, visible_name: &str) -> (mail:
    Notification)
    ensures
        mail.subject@ == spec_chat_subject(visible_name@),
        mail.text@ == spec_chat_text(visible_name@, spec_chat_url(base_url@, username@)),
{
    let mut chat_url = String::from_str(base_url);
    chat_url.append("/chat/");
    chat_url.append(username);

    let mut subject = String::from_str("DevAndDev - ");
    subject.append(visible_name);
    subject.append(" sent you a new message");

    let mut text = String::from_str("You have a message from ");
    text.append(visible_name);
    text.append(". View on DevAndDev: ");
    text.append(chat_url.as_str());

    Notification { subject, text }
}

/// The e-mail that carries the link on which a password is reset with
/// `token`.
pub fn password_reset_notification(base_url: &str, token: &str) -> (mail: Notification)
    ensures
        mail.subject@ == "DevAndDev - Please reset your password"@,
        mail.text@ == spec_password_reset_text(
            spec_token_url(base_url@, token@),
            spec_retry_url(base_url@),
        ),
{
    let mut token_url = String::from_str(base_url);
    token_url.append("/password_reset/");
    token_url.append(token);

    let mut retry_url = String::from_str(base_url);
    retry_url.append("/password_reset");

    let subject = String::from_str("DevAndDev - Please reset your password");

    let mut text = String::from_str(
        "We heard that you lost your DevAndDev password. Sorry about that!\n\n\n\nBut don\u{2019}t worry! You can use the following link to reset your password:\n\n\n\n",
    );
    text.append(token_url.as_str());
    text.append(
        "\n\n\n\nIf you don\u{2019}t use this link within 3 hours, it will expire. To get a new password reset link, visit ",
    );
    text.append(retry_url.as_str());
    text.append("\n\n\n\nThanks,\n\nThe DevAndDev team\n");

    Notification { subject, text }
}

} // verus!
