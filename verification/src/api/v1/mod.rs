pub mod blogs;
pub mod contact;
pub mod newsletter;
pub mod projects;
