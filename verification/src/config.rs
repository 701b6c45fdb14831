//! The configuration surface the process hands the core.
//!
//! Two optional paths, both plain strings: where application data lives, and
//! the credential list whose presence alone decides that access is
//! token-gated.

use vstd::prelude::*;

verus! {

/// The two settings the bot starts from.
#[derive(Debug)]
pub struct Args {
    /// Location for application-related data; a fixed default applies.
    pub data_dir: Option<String>,
    /// Location of a tokens file.  If provided, enables token-gated access.
    pub tokens_file: Option<String>,
}

impl Args {
    /// Whether access is token-gated: exactly when a tokens file was given.
    pub fn wants_token_auth(&self) -> (r: bool)
        ensures
            r == (self.tokens_file is Some),
    {
        self.tokens_file.is_some()
    }

    /// The data directory to use: the given one, or the fixed default.
    pub fn effective_data_dir(&self) -> (d: String)
        ensures
            match self.data_dir {
                Some(p) => d@ == p@,
                None => d@ == "var/data"@,
            },
    {
        match &self.data_dir {
            Some(p) => p.clone(),
            None => "var/data".to_owned(),
        }
    }
}

} // verus!
