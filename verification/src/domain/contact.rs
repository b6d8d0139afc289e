use vstd::prelude::*;

verus! {

/// What the contact form sends.
#[derive(Debug, Clone)]
pub struct ContactRequest {
    pub name: String,
    pub email: String,
    pub message: String,
}

/// The answer to an accepted contact message.
#[derive(Debug, Clone)]
pub struct ContactResponse {
    pub status: &'static str,
}

impl ContactResponse {
    /// The answer that says the message was received.
    pub fn received() -> (r: ContactResponse)
        ensures
            r.status@ == "received"@,
    {
        ContactResponse { status: "received" }
    }
}

} // verus!
