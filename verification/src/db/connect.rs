use vstd::prelude::*;

use crate::error::{AppError, AppErrorView};
use crate::text::{contains_text, is_prefix, occurs_in, same_text, starts_with};

verus! {

/// How to reach the database that a URL names.
#[derive(Debug, Clone)]
pub enum ConnectTarget {
    /// A database held in memory, reached by `url`.
    Memory { url: String },
    /// A local file kept in step with a remote database.
    Replica { local_path: String, remote_url: String, auth_token: Option<String> },
    /// A local database reached by `url`.
    Local { url: String },
}

/// The file that a replica is kept in when no path is given.
pub open spec fn default_replica_path() -> Seq<char> {
    "data/voidreg.db"@
}

/// Whether `url` names the in-memory database.
pub open spec fn is_memory_url(url: Seq<char>) -> bool {
    url == "memory"@ || url == "turso::memory:"@
}

/// Whether `url` names a remote database.
pub open spec fn is_remote_url(url: Seq<char>) -> bool {
    is_prefix("libsql://"@, url) || is_prefix("https://"@, url)
}

/// The URL under which a local database is opened: `url` itself when it
/// already starts with `turso:`, else with that prefix put before it.
pub open spec fn local_url(url: Seq<char>) -> Seq<char> {
    if is_prefix("turso:"@, url) {
        url
    } else {
        "turso:"@ + url
    }
}

/// How to reach the database named by `url`, with the access token `token`
/// and the replica file `local_path` (when one is configured).
pub fn connect_target(url: &str, token: &str, local_path: Option<String>) -> (r: ConnectTarget)
    ensures
        if is_memory_url(url@) {
            r matches ConnectTarget::Memory { url: u } && u@ == "turso::memory:"@
        } else if is_remote_url(url@) {
            r matches ConnectTarget::Replica { local_path: p, remote_url: ru, auth_token: t }
                && p@ == (match local_path {
                Some(lp) => lp@,
                None => default_replica_path(),
            }) && ru@ == url@ && t.deep_view() == (if token@.len() == 0 {
                None
            } else {
                Some(token@)
            })
        } else {
            r matches ConnectTarget::Local { url: u } && u@ == local_url(url@)
        },
{
    if same_text(url, "memory") || same_text(url, "turso::memory:") {
        return ConnectTarget::Memory { url: "turso::memory:".to_owned() };
    }
    if starts_with(url, "libsql://") || starts_with(url, "https://") {
        let path = match local_path {
            Some(p) => p,
            None => "data/voidreg.db".to_owned(),
        };
        let auth_token = if token.is_empty() {
            None
        } else {
            Some(token.to_owned())
        };
        return ConnectTarget::Replica { local_path: path, remote_url: url.to_owned(), auth_token };
    }
    if starts_with(url, "turso:") {
        ConnectTarget::Local { url: url.to_owned() }
    } else {
        let mut u = "turso:".to_owned();
        u.append(url);
        ConnectTarget::Local { url: u }
    }
}

/// Whether an error message says that the schema is there already.
pub fn schema_already_exists(message: &str) -> (r: bool)
    ensures
        r == occurs_in("already exists"@, message@),
{
    contains_text(message, "already exists")
}

/// The outcome of creating the schema: success, also when the store says
/// the schema already exists; any other failure is an internal error.
pub fn schema_outcome(pushed: Result<(), String>) -> (r: Result<(), AppError>)
    ensures
        match pushed {
            Ok(_) => r is Ok,
            Err(m) => if occurs_in("already exists"@, m@) {
                r is Ok
            } else {
                r matches Err(e) && e@ == AppErrorView::Internal(m@)
            },
        },
{
    match pushed {
        Ok(()) => Ok(()),
        Err(m) => {
            if schema_already_exists(m.as_str()) {
                Ok(())
            } else {
                Err(AppError::Internal(m))
            }
        },
    }
}

} // verus!
