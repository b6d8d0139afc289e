use vstd::prelude::*;

verus! {

/// What the newsletter form sends.
#[derive(Debug, Clone)]
pub struct NewsletterRequest {
    pub email: String,
}

/// The answer to a subscription: its status and the address as recorded.
#[derive(Debug, Clone)]
pub struct NewsletterResponse {
    pub status: &'static str,
    pub email: String,
}

impl NewsletterResponse {
    /// The answer that says `email` is subscribed.
    pub fn subscribed(email: String) -> (r: NewsletterResponse)
        ensures
            r.status@ == "subscribed"@,
            r.email@ == email@,
    {
        NewsletterResponse { status: "subscribed", email }
    }
}

} // verus!
