use vstd::prelude::*;
use vstd::utf8::encode_utf8;

use crate::domain::ContactRequest;
use crate::error::{AppError, AppErrorView};
use crate::text::{
    lemma_trim_idempotent, chars_of, find_char, first_at, has_char, has_white_space, no_white_space, trim, trimmed,
};

verus! {

/// The two parts around the first `@` of an address are acceptable: the
/// local part is not empty, and the domain is not empty, holds a dot, and
/// neither begins nor ends with one.
pub open spec fn email_parts_ok(local: Seq<char>, domain: Seq<char>) -> bool {
    &&& local.len() > 0
    &&& domain.len() > 0
    &&& has_char(domain, '.')
    &&& domain[0] != '.'
    &&& domain.last() != '.'
}

/// Whether `e` passes as an e-mail address: it holds an `@`, the parts
/// around the first `@` are acceptable, and it holds no white space.
pub open spec fn email_ok(e: Seq<char>) -> bool {
    &&& exists|i: int| #[trigger] first_at(e, '@', i) && email_parts_ok(e.take(i), e.skip(i + 1))
    &&& no_white_space(e)
}

/// The refusal for a bad name.
pub open spec fn name_refusal() -> Seq<char> {
    "name must be between 1 and 120 characters"@
}

/// The refusal for a bad e-mail address.
pub open spec fn email_refusal() -> Seq<char> {
    "enter a valid email address"@
}

/// The refusal for a bad message.
pub open spec fn message_refusal() -> Seq<char> {
    "message must be between 1 and 8000 characters"@
}

/// A trimmed name is accepted when it is 1 to 120 bytes long in UTF-8.
pub open spec fn name_ok(n: Seq<char>) -> bool {
    n.len() > 0 && encode_utf8(n).len() <= 120
}

/// A trimmed message is accepted when it is 1 to 8000 bytes long in UTF-8.
pub open spec fn message_ok(m: Seq<char>) -> bool {
    m.len() > 0 && encode_utf8(m).len() <= 8000
}

/// Why a contact form with these fields is refused, checked in order on the
/// trimmed name, e-mail and message; `None` when it is accepted.
pub open spec fn contact_refusal(name: Seq<char>, email: Seq<char>, message: Seq<char>) -> Option<
    Seq<char>,
> {
    if !name_ok(trimmed(name)) {
        Some(name_refusal())
    } else if !email_ok(trimmed(email)) {
        Some(email_refusal())
    } else if !message_ok(trimmed(message)) {
        Some(message_refusal())
    } else {
        None
    }
}

/// An accepted contact message: its fields trimmed.
#[derive(Debug, Clone)]
pub struct ContactSubmission {
    pub name: String,
    pub email: String,
    pub message: String,
}

/// Whether `email` passes as an e-mail address.
pub fn is_valid_email(email: &str) -> (r: bool)
    ensures
        r == email_ok(email@),
{
    let v = chars_of(email);
    let n = v.len();
    let at = match find_char(&v, '@') {
        Some(i) => i,
        None => {
            assert forall|i: int| !#[trigger] first_at(email@, '@', i) by {
                if first_at(email@, '@', i) {
                    assert(email@[i] == '@');
                }
            }
            return false;
        },
    };
    let ghost local = email@.take(at as int);
    let ghost domain = email@.skip(at + 1);
    assert forall|k: int| #[trigger] first_at(email@, '@', k) implies k == at by {
        if k < at {
            assert(email@[k] != '@');
        } else if k > at {
            assert(email@[at as int] != '@');
        }
    }
    let mut parts_ok = at > 0 && at + 1 < n && v[at + 1] != '.' && v[n - 1] != '.';
    if parts_ok {
        assert(domain[0] == v@[at + 1]);
        assert(domain.last() == v@[n - 1]);
        let mut j: usize = at + 1;
        let mut dot = false;
        while j < n
            invariant
                v@ == email@,
                n == v@.len(),
                at + 1 <= j <= n,
                domain == email@.skip(at + 1),
                dot == exists|k: int| at + 1 <= k < j && v@[k] == '.',
            decreases n - j,
        {
            if v[j] == '.' {
                dot = true;
            }
            j = j + 1;
        }
        if dot {
            let ghost k = choose|k: int| at + 1 <= k < n && v@[k] == '.';
            assert(domain[k - at - 1] == '.');
        } else {
            assert forall|k: int| 0 <= k < domain.len() implies #[trigger] domain[k] != '.' by {
                assert(domain[k] == v@[k + at + 1]);
            }
        }
        parts_ok = dot;
    } else {
        assert(!email_parts_ok(local, domain));
    }
    assert(parts_ok == email_parts_ok(local, domain));
    let ws = has_white_space(&v);
    parts_ok && !ws
}

/// Checks a contact form: the trimmed fields, or the refusal that the first
/// failed check gives.
pub fn validate_contact(req: &ContactRequest) -> (r: Result<ContactSubmission, AppError>)
    ensures
        match contact_refusal(req.name@, req.email@, req.message@) {
            Some(m) => r matches Err(e) && e@ == AppErrorView::Unprocessable(m),
            None => r matches Ok(s) && s.name@ == trimmed(req.name@) && s.email@ == trimmed(
                req.email@,
            ) && s.message@ == trimmed(req.message@),
        },
{
    let name = trim(req.name.as_str());
    let email = trim(req.email.as_str());
    let message = trim(req.message.as_str());
    if name.is_empty() || name.as_bytes().len() > 120 {
        return Err(AppError::Unprocessable("name must be between 1 and 120 characters".to_owned()));
    }
    if !is_valid_email(email) {
        return Err(AppError::Unprocessable("enter a valid email address".to_owned()));
    }
    if message.is_empty() || message.as_bytes().len() > 8000 {
        return Err(
            AppError::Unprocessable("message must be between 1 and 8000 characters".to_owned()),
        );
    }
    Ok(
        ContactSubmission {
            name: name.to_owned(),
            email: email.to_owned(),
            message: message.to_owned(),
        },
    )
}

/// Checking is stable: the fields of an accepted contact form, checked
/// again, are accepted and left as they are.
pub proof fn lemma_accepted_contact_is_fixed(name: Seq<char>, email: Seq<char>, message: Seq<char>)
    requires
        contact_refusal(name, email, message) is None,
    ensures
        contact_refusal(trimmed(name), trimmed(email), trimmed(message)) is None,
        trimmed(trimmed(name)) == trimmed(name),
        trimmed(trimmed(email)) == trimmed(email),
        trimmed(trimmed(message)) == trimmed(message),
{
    lemma_trim_idempotent(name);
    lemma_trim_idempotent(email);
    lemma_trim_idempotent(message);
}

} // verus!
