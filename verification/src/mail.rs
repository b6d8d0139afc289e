use vstd::prelude::*;

use crate::config::{sender_of, skips_mail, Config};
use crate::error::{AppError, AppErrorView};

verus! {

/// The mail that forwards a contact message to the site's owner.
#[derive(Debug, Clone)]
pub struct ContactEmail {
    pub from: String,
    pub to: Vec<String>,
    pub reply_to: String,
    pub subject: String,
    pub text: String,
}

/// The subject of a forwarded contact message.
pub open spec fn contact_subject(name: Seq<char>) -> Seq<char> {
    "Contact form: "@ + name
}

/// The text of a forwarded contact message: who sent it, a blank line, the message.
pub open spec fn contact_text(name: Seq<char>, reply_to: Seq<char>, message: Seq<char>) -> Seq<
    char,
> {
    "From: "@ + name + " <"@ + reply_to + ">\n\n"@ + message
}

/// The mail to send for a contact message from `name` at `reply_to`, or
/// `None` when the settings say that no mail goes out.
pub fn contact_email(config: &Config, name: &str, reply_to: &str, message: &str) -> (r: Option<
    ContactEmail,
>)
    ensures
        if skips_mail(config.resend_api_key@) {
            r is None
        } else {
            r matches Some(m) && m.from@ == sender_of(config@) && m.to.deep_view() == seq![
                config.contact_to_email@,
            ] && m.reply_to@ == reply_to@ && m.subject@ == contact_subject(name@) && m.text@
                == contact_text(name@, reply_to@, message@)
        },
{
    if config.skips_outbound_mail() {
        return None;
    }
    let mut to: Vec<String> = Vec::new();
    to.push(config.contact_to_email.clone());
    assert(to.deep_view() =~= seq![config.contact_to_email@]);
    let mut subject = "Contact form: ".to_owned();
    subject.append(name);
    let mut text = "From: ".to_owned();
    text.append(name);
    text.append(" <");
    text.append(reply_to);
    text.append(">\n\n");
    text.append(message);
    Some(
        ContactEmail {
            from: config.resend_from(),
            to,
            reply_to: reply_to.to_owned(),
            subject,
            text,
        },
    )
}

/// The outcome of handing the mail over: success when the mail service
/// answered with success, else an internal error.
pub fn delivery_outcome(accepted: bool) -> (r: Result<(), AppError>)
    ensures
        if accepted {
            r is Ok
        } else {
            r matches Err(e) && e@ == AppErrorView::Internal("failed to send contact email"@)
        },
{
    if accepted {
        Ok(())
    } else {
        Err(AppError::Internal("failed to send contact email".to_owned()))
    }
}

} // verus!
