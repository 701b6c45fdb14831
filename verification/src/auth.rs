//! Who may talk to the bot.
//!
//! The strategy is either open — everyone is authorized — or token-gated,
//! wrapping the token table.  An unauthorized user's message is read as a
//! redemption attempt: the fixed marker `!token`, whitespace, and the
//! credential occupying the rest of the message.  A well-formed attempt with
//! a valid token binds it to the user; everything else reports exactly why it
//! failed.

use vstd::prelude::*;

use crate::commands::{space_run_end, space_run_end_exec, str_eq};
use crate::store::{allocate_post, Store};

verus! {

/// How a redemption attempt ended.
#[derive(Clone, Copy, Debug, PartialEq, Eq, Structural)]
pub enum AuthResult {
    /// The token was valid and is now bound to the user.
    Success,
    /// The message was well formed but the token is unknown or already used.
    InvalidToken,
    /// The message does not carry a token in the expected shape.
    MalformedTokenRequest,
}

/// The token a message redeems, if the message has the shape
/// `!token <whitespace> <credential>`; the credential runs to the end of the
/// message, and when whitespace swallows the whole tail its last character is
/// given up again, as in the command grammar.
pub open spec fn parse_token_request(s: Seq<char>) -> Option<Seq<char>> {
    if s.len() < 7 || s.subrange(0, 6) != "!token"@ {
        None
    } else {
        let se = space_run_end(s, 6);
        if se == 6 || s.len() - 6 < 2 {
            None
        } else {
            let split = if se < s.len() {
                se
            } else {
                s.len() - 1
            };
            Some(s.subrange(split, s.len() as int))
        }
    }
}

/// Reads a redemption message: the credential it carries, if well formed.
pub fn read_token_request(s: &str) -> (r: Option<String>)
    ensures
        r.deep_view() == parse_token_request(s@),
{
    let n = s.unicode_len();
    if n < 7 {
        return None;
    }
    let prefix = s.substring_char(0, 6);
    if !str_eq(prefix, "!token") {
        return None;
    }
    let se = space_run_end_exec(s, 6, n);
    if se == 6 || n - 6 < 2 {
        return None;
    }
    let split = if se < n {
        se
    } else {
        n - 1
    };
    Some(s.substring_char(split, n).to_owned())
}

/// Open access, or access gated on the token table.
#[derive(Debug)]
pub enum AuthenticationStrategy {
    NoAuthentication,
    TokenList(Store),
}

impl AuthenticationStrategy {
    pub open spec fn wf(&self) -> bool {
        match self {
            AuthenticationStrategy::NoAuthentication => true,
            AuthenticationStrategy::TokenList(store) => store.wf(),
        }
    }

    /// Whether this user may proceed: always under the open strategy, and
    /// exactly when some token is bound to them under the gated one.
    pub open spec fn spec_is_authorized(&self, user_id: Seq<char>) -> bool {
        match self {
            AuthenticationStrategy::NoAuthentication => true,
            AuthenticationStrategy::TokenList(store) => store.user_has_allocation(user_id),
        }
    }

    /// Whether users must authenticate at all.
    pub fn auth_required(&self) -> (r: bool)
        ensures
            r == (self is TokenList),
    {
        match self {
            AuthenticationStrategy::NoAuthentication => false,
            AuthenticationStrategy::TokenList(_) => true,
        }
    }

    /// Whether this user is already authorized.
    pub fn is_user_authenticated(&self, user_id: &str) -> (r: bool)
        ensures
            r == self.spec_is_authorized(user_id@),
    {
        match self {
            AuthenticationStrategy::NoAuthentication => true,
            AuthenticationStrategy::TokenList(store) => store.has_allocated_token(user_id),
        }
    }

    /// Reads an unauthorized user's message as a redemption attempt.  Under
    /// the open strategy nothing is asked and the outcome is success.  Under
    /// the gated one: a malformed message changes nothing and says so; a
    /// well-formed one binds the token to the user exactly when the token is
    /// valid, and otherwise reports it unusable — also when a race was lost
    /// between the validity check and the binding, which the table's
    /// atomicity turns into an `InvalidToken` outcome, never a double grant.
    pub fn add_auth_for_new_user(&mut self, user_id: &str, msg: &str) -> (r: AuthResult)
        requires
            old(self).wf(),
        ensures
            final(self).wf(),
            match *old(self) {
                AuthenticationStrategy::NoAuthentication => {
                    &&& r == AuthResult::Success
                    &&& *final(self) == *old(self)
                },
                AuthenticationStrategy::TokenList(pre) => {
                    match parse_token_request(msg@) {
                        None => {
                            &&& r == AuthResult::MalformedTokenRequest
                            &&& *final(self) == *old(self)
                        },
                        Some(t) => {
                            if pre.token_valid(t) {
                                &&& r == AuthResult::Success
                                &&& match *final(self) {
                                    AuthenticationStrategy::TokenList(post) => allocate_post(
                                        pre,
                                        post,
                                        user_id@,
                                        t,
                                    ),
                                    _ => false,
                                }
                            } else {
                                &&& r == AuthResult::InvalidToken
                                &&& *final(self) == *old(self)
                            }
                        },
                    }
                },
            },
    {
        match self {
            AuthenticationStrategy::NoAuthentication => AuthResult::Success,
            AuthenticationStrategy::TokenList(store) => {
                match read_token_request(msg) {
                    None => AuthResult::MalformedTokenRequest,
                    Some(token) => {
                        if store.is_token_valid(token.as_str()) {
                            match store.allocate(user_id, token.as_str()) {
                                Ok(()) => AuthResult::Success,
                                Err(_) => AuthResult::InvalidToken,
                            }
                        } else {
                            AuthResult::InvalidToken
                        }
                    },
                }
            },
        }
    }
}

} // verus!
