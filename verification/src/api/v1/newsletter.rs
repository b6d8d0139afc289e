use vstd::prelude::*;

use crate::api::v1::contact::{email_ok, email_refusal, is_valid_email};
use crate::domain::NewsletterRequest;
use crate::error::{AppError, AppErrorView};
use crate::text::{is_white_space, no_white_space, trim, trim_end, trim_start, trimmed};

verus! {

/// What `str::to_lowercase` gives for a string: its lowercase form as the
/// Unicode Lowercase property and mappings define it (final sigma included).
pub uninterp spec fn lowercase(s: Seq<char>) -> Seq<char>;

/// Whether every character of `s` is ASCII.
pub open spec fn all_ascii(s: Seq<char>) -> bool {
    forall|k: int| 0 <= k < s.len() ==> (#[trigger] s[k] as u32) < 128
}

/// `c` with `A` to `Z` turned into `a` to `z`.
pub open spec fn ascii_lower_char(c: char) -> char {
    if 'A' <= c <= 'Z' {
        ((c as u32) + 32) as char
    } else {
        c
    }
}

/// `s` with its ASCII capitals turned into small letters.
pub open spec fn ascii_lowercase(s: Seq<char>) -> Seq<char> {
    s.map_values(|c: char| ascii_lower_char(c))
}

/// `str::to_lowercase`: the result is claimed to be `lowercase` of the
/// argument's characters, a function of them alone, and, for a string of
/// ASCII characters, that string with `A` to `Z` made small and every other
/// character kept (Unicode maps the ASCII capitals to the ASCII small letters
/// and leaves the other ASCII characters as they are).
#[verifier::external_body]
fn to_lowercase(s: &str) -> (r: String)
    ensures
        r@ == lowercase(s@),
        all_ascii(s@) ==> r@ == ascii_lowercase(s@),
{
    s.to_lowercase()
}

/// Accepts an address for the newsletter when it passes as an e-mail address.
pub fn accept_subscription_email(email: String) -> (r: Result<String, AppError>)
    ensures
        if email_ok(email@) {
            r matches Ok(s) && s@ == email@
        } else {
            r matches Err(e) && e@ == AppErrorView::Unprocessable(email_refusal())
        },
{
    if !is_valid_email(email.as_str()) {
        return Err(AppError::Unprocessable("enter a valid email address".to_owned()));
    }
    Ok(email)
}

/// The address under which a subscription is recorded: the given one,
/// trimmed and lower-cased, if it passes as an e-mail address.
pub fn subscription_email(req: &NewsletterRequest) -> (r: Result<String, AppError>)
    ensures
        if email_ok(lowercase(trimmed(req.email@))) {
            r matches Ok(s) && s@ == lowercase(trimmed(req.email@))
        } else {
            r matches Err(e) && e@ == AppErrorView::Unprocessable(email_refusal())
        },
        all_ascii(trimmed(req.email@)) ==> (if email_ok(ascii_lowercase(trimmed(req.email@))) {
            r matches Ok(s) && s@ == ascii_lowercase(trimmed(req.email@))
        } else {
            r is Err
        }),
{
    let email = to_lowercase(trim(req.email.as_str()));
    accept_subscription_email(email)
}

proof fn lemma_ascii_lower_char_fixed(c: char)
    ensures
        ascii_lower_char(ascii_lower_char(c)) == ascii_lower_char(c),
        (c as u32) < 128 ==> (ascii_lower_char(c) as u32) < 128,
{
    if 'A' <= c <= 'Z' {
        let d = ((c as u32) + 32) as char;
        assert(d == ascii_lower_char(c));
        vstd::utf8::char_u32_cast(c, c as u32);
        assert((d as u32) == (c as u32) + 32);
    }
}

proof fn lemma_no_white_space_trimmed(s: Seq<char>)
    requires
        no_white_space(s),
    ensures
        trimmed(s) == s,
{
    if s.len() > 0 {
        assert(!is_white_space(s[0]));
        assert(!is_white_space(s.last()));
    }
    assert(trim_start(s) == s);
    assert(trim_end(s) == s);
}

/// An ASCII address that was recorded is recorded as itself when it is
/// subscribed again: after trimming and lower-casing it is still ASCII, it
/// has no white space to trim, and lower-casing leaves it unchanged.
pub proof fn lemma_recorded_address_resubscribes_unchanged(raw: Seq<char>)
    requires
        all_ascii(trimmed(raw)),
        email_ok(ascii_lowercase(trimmed(raw))),
    ensures
        ({
            let e = ascii_lowercase(trimmed(raw));
            &&& trimmed(e) == e
            &&& all_ascii(trimmed(e))
            &&& ascii_lowercase(trimmed(e)) == e
            &&& email_ok(ascii_lowercase(trimmed(e)))
        }),
{
    let t = trimmed(raw);
    let e = ascii_lowercase(t);
    lemma_no_white_space_trimmed(e);
    assert forall|k: int| 0 <= k < e.len() implies (#[trigger] e[k] as u32) < 128 by {
        lemma_ascii_lower_char_fixed(t[k]);
    }
    assert forall|k: int| 0 <= k < e.len() implies #[trigger] ascii_lowercase(e)[k] == e[k] by {
        lemma_ascii_lower_char_fixed(t[k]);
    }
    assert(ascii_lowercase(e) =~= e);
}

} // verus!
