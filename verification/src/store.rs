//! The single-use token table.
//!
//! Each row binds one credential string to at most one user, and the binding,
//! once set, never changes.  The surrounding program keeps this table in step
//! with its durable storage: it feeds persisted rows back in through
//! `load_entry` at start-up and writes through after a successful
//! `allocate`.  Every rule about the rows themselves — idempotent seeding,
//! at-most-one allocation, what makes a token valid — is decided and proved
//! here.

use vstd::prelude::*;

use crate::commands::str_eq;

verus! {

/// Why an allocation attempt was refused.  Both are expected, user-facing
/// outcomes, not faults of the store.
#[derive(Clone, Copy, Debug, PartialEq, Eq, Structural)]
pub enum TokenError {
    /// The token does not exist.
    Invalid,
    /// The token is already bound to a user.
    AlreadyAllocated,
}

/// One row of the table: the credential and, once redeemed, its user.
#[derive(Debug)]
pub struct TokenEntry {
    pub token: String,
    pub user_id: Option<String>,
}

impl View for TokenEntry {
    type V = (Seq<char>, Option<Seq<char>>);

    open spec fn view(&self) -> (Seq<char>, Option<Seq<char>>) {
        (self.token@, self.user_id.deep_view())
    }
}

impl DeepView for TokenEntry {
    type V = (Seq<char>, Option<Seq<char>>);

    open spec fn deep_view(&self) -> (Seq<char>, Option<Seq<char>>) {
        self@
    }
}

/// The token table.
#[derive(Debug)]
pub struct Store {
    entries: Vec<TokenEntry>,
}

impl View for Store {
    type V = Seq<(Seq<char>, Option<Seq<char>>)>;

    closed spec fn view(&self) -> Seq<(Seq<char>, Option<Seq<char>>)> {
        self.entries.deep_view()
    }
}

/// What `allocate` returns on a table in a given state.
pub open spec fn allocate_result(s: Store, t: Seq<char>) -> Result<(), TokenError> {
    if !s.has_token(t) {
        Err(TokenError::Invalid)
    } else if s.allocation_of(t) is Some {
        Err(TokenError::AlreadyAllocated)
    } else {
        Ok(())
    }
}

/// How a successful `allocate` of token `t` to user `u` changes the table.
pub open spec fn allocate_post(pre: Store, post: Store, u: Seq<char>, t: Seq<char>) -> bool {
    &&& post@ == pre@.update(pre.token_index(t), (t, Some(u)))
    &&& post.wf()
    &&& post.allocation_of(t) == Some(u)
    &&& post.user_has_allocation(u)
    &&& forall|t2: Seq<char>| post.has_token(t2) == pre.has_token(t2)
    &&& forall|t2: Seq<char>|
        t2 != t && pre.has_token(t2) ==> post.allocation_of(t2) == pre.allocation_of(t2)
}

impl Store {
    /// Tokens are unique: a credential has one row.
    pub open spec fn wf(&self) -> bool {
        forall|i: int, j: int|
            0 <= i < j < self@.len() ==> (#[trigger] self@[i]).0 != (#[trigger] self@[j]).0
    }

    /// The table has a row for this token.
    pub open spec fn has_token(&self, t: Seq<char>) -> bool {
        exists|i: int| 0 <= i < self@.len() && (#[trigger] self@[i]).0 == t
    }

    /// The row index of this token, meaningful when `has_token` holds.
    pub open spec fn token_index(&self, t: Seq<char>) -> int {
        choose|i: int| 0 <= i < self@.len() && (#[trigger] self@[i]).0 == t
    }

    /// The user bound to this token, or `None` while it is unredeemed.
    pub open spec fn allocation_of(&self, t: Seq<char>) -> Option<Seq<char>> {
        self@[self.token_index(t)].1
    }

    /// A token is valid while it exists and is not yet bound.
    pub open spec fn token_valid(&self, t: Seq<char>) -> bool {
        self.has_token(t) && self.allocation_of(t) is None
    }

    /// Some token is bound to this user.
    pub open spec fn user_has_allocation(&self, u: Seq<char>) -> bool {
        exists|i: int| 0 <= i < self@.len() && (#[trigger] self@[i]).1 == Some(u)
    }

    /// An empty table.
    pub fn new() -> (s: Store)
        ensures
            s@ == Seq::<(Seq<char>, Option<Seq<char>>)>::empty(),
            s.wf(),
    {
        let s = Store { entries: Vec::new() };
        proof {
            assert(s@ =~= Seq::<(Seq<char>, Option<Seq<char>>)>::empty());
        }
        s
    }

    /// The row holding `token`, if any.
    fn find_token(&self, token: &str) -> (r: Option<usize>)
        requires
            self.wf(),
        ensures
            match r {
                Some(i) => {
                    &&& i < self@.len()
                    &&& self@[i as int].0 == token@
                    &&& i as int == self.token_index(token@)
                    &&& self.has_token(token@)
                },
                None => !self.has_token(token@),
            },
    {
        let mut i: usize = 0;
        while i < self.entries.len()
            invariant
                self.wf(),
                i <= self@.len(),
                forall|k: int| 0 <= k < i ==> (#[trigger] self@[k]).0 != token@,
            decreases self@.len() - i,
        {
            if str_eq(self.entries[i].token.as_str(), token) {
                proof {
                    lemma_token_index_is(*self, token@, i as int);
                }
                return Some(i);
            }
            i = i + 1;
        }
        None
    }

    /// True iff some row is bound to this user.
    pub fn has_allocated_token(&self, user_id: &str) -> (r: bool)
        ensures
            r == self.user_has_allocation(user_id@),
    {
        let mut i: usize = 0;
        while i < self.entries.len()
            invariant
                i <= self@.len(),
                forall|k: int| 0 <= k < i ==> (#[trigger] self@[k]).1 != Some(user_id@),
            decreases self@.len() - i,
        {
            let bound = match &self.entries[i].user_id {
                Some(u) => str_eq(u.as_str(), user_id),
                None => false,
            };
            if bound {
                proof {
                    assert(self@[i as int].1 == Some(user_id@));
                }
                return true;
            }
            i = i + 1;
        }
        false
    }

    /// True iff the token exists and is not yet bound.
    pub fn is_token_valid(&self, token: &str) -> (r: bool)
        requires
            self.wf(),
        ensures
            r == self.token_valid(token@),
    {
        match self.find_token(token) {
            Some(i) => self.entries[i].user_id.is_none(),
            None => false,
        }
    }

    /// Atomically binds `token` to `user_id`: succeeds exactly when the token
    /// exists and is still unbound, and changes that one row and nothing else.
    /// A caller that lost a race observes `AlreadyAllocated` or `Invalid`,
    /// never a silent success.
    pub fn allocate(&mut self, user_id: &str, token: &str) -> (r: Result<(), TokenError>)
        requires
            old(self).wf(),
        ensures
            final(self).wf(),
            r == allocate_result(*old(self), token@),
            r is Ok ==> allocate_post(*old(self), *final(self), user_id@, token@),
            r is Err ==> final(self)@ == old(self)@,
    {
        match self.find_token(token) {
            None => Err(TokenError::Invalid),
            Some(i) => {
                if self.entries[i].user_id.is_some() {
                    Err(TokenError::AlreadyAllocated)
                } else {
                    let row = &mut self.entries[i];
                    *row = TokenEntry {
                        token: token.to_owned(),
                        user_id: Some(user_id.to_owned()),
                    };
                    proof {
                        let ghost pre = *old(self);
                        let ghost t = token@;
                        let ghost u = user_id@;
                        assert(self@ =~= pre@.update(pre.token_index(t), (t, Some(u))));
                        assert forall|a: int, b: int| 0 <= a < b < self@.len() implies (
                        #[trigger] self@[a]).0 != (#[trigger] self@[b]).0 by {
                            assert(pre@[a].0 != pre@[b].0);
                        }
                        lemma_token_index_is(*self, t, pre.token_index(t));
                        assert forall|t2: Seq<char>|
                            self.has_token(t2) == pre.has_token(t2) by {
                            if self.has_token(t2) {
                                let k = choose|k: int|
                                    0 <= k < self@.len() && (#[trigger] self@[k]).0 == t2;
                                assert(pre@[k].0 == t2);
                            }
                            if pre.has_token(t2) {
                                let k = choose|k: int|
                                    0 <= k < pre@.len() && (#[trigger] pre@[k]).0 == t2;
                                assert(self@[k].0 == t2);
                            }
                        }
                        assert forall|t2: Seq<char>|
                            t2 != t && pre.has_token(t2) implies self.allocation_of(t2)
                            == pre.allocation_of(t2) by {
                            lemma_token_index_is(pre, t2, pre.token_index(t2));
                            assert(self@[pre.token_index(t2)].0 == t2);
                            lemma_token_index_is(*self, t2, pre.token_index(t2));
                        }
                        assert(self.user_has_allocation(u)) by {
                            assert(self@[pre.token_index(t)].1 == Some(u));
                        }
                    }
                    Ok(())
                }
            },
        }
    }

    /// Feeds one persisted row back into the table.  A token already present
    /// is left exactly as it is.
    pub fn load_entry(&mut self, token: String, user_id: Option<String>)
        requires
            old(self).wf(),
        ensures
            final(self).wf(),
            old(self).has_token(token@) ==> final(self)@ == old(self)@,
            !old(self).has_token(token@) ==> final(self)@ == old(self)@.push(
                (token@, user_id.deep_view()),
            ),
    {
        match self.find_token(token.as_str()) {
            Some(_) => {},
            None => {
                let ghost pre = *self;
                self.entries.push(TokenEntry { token, user_id });
                proof {
                    assert(self@ =~= pre@.push((token@, user_id.deep_view())));
                    assert forall|a: int, b: int| 0 <= a < b < self@.len() implies (
                    #[trigger] self@[a]).0 != (#[trigger] self@[b]).0 by {
                        if b < pre@.len() {
                            assert(pre@[a].0 != pre@[b].0);
                        } else {
                            assert(self@[b].0 == token@);
                            assert(pre@[a].0 != token@);
                        }
                    }
                }
            },
        }
    }

    /// Seeds the table: every given token not already present is inserted
    /// unbound; tokens already present — bound or not — are left untouched.
    /// Idempotent, and safe to repeat with overlapping sets: seeding never
    /// changes any token's allocation state.
    pub fn ensure_tokens(&mut self, tokens: &Vec<String>)
        requires
            old(self).wf(),
        ensures
            final(self).wf(),
            old(self)@.is_prefix_of(final(self)@),
            forall|t: Seq<char>|
                old(self).has_token(t) ==> final(self).has_token(t) && final(self).allocation_of(
                    t,
                ) == old(self).allocation_of(t),
            forall|k: int|
                0 <= k < tokens@.len() ==> final(self).has_token((#[trigger] tokens@[k])@),
            forall|t: Seq<char>|
                final(self).has_token(t) ==> old(self).has_token(t) || exists|k: int|
                    0 <= k < tokens@.len() && (#[trigger] tokens@[k])@ == t,
            forall|t: Seq<char>|
                final(self).has_token(t) && !old(self).has_token(t) ==> final(self).allocation_of(
                    t,
                ) is None,
            forall|u: Seq<char>|
                final(self).user_has_allocation(u) == old(self).user_has_allocation(u),
    {
        let mut k: usize = 0;
        while k < tokens.len()
            invariant
                self.wf(),
                old(self)@.is_prefix_of(self@),
                k <= tokens@.len(),
                forall|j: int| 0 <= j < k ==> self.has_token((#[trigger] tokens@[j])@),
                forall|t: Seq<char>|
                    old(self).has_token(t) ==> self.has_token(t) && self.allocation_of(t) == old(
                        self,
                    ).allocation_of(t),
                forall|t: Seq<char>|
                    self.has_token(t) ==> old(self).has_token(t) || exists|j: int|
                        0 <= j < k && (#[trigger] tokens@[j])@ == t,
                forall|t: Seq<char>|
                    self.has_token(t) && !old(self).has_token(t) ==> self.allocation_of(t) is None,
                forall|u: Seq<char>|
                    self.user_has_allocation(u) == old(self).user_has_allocation(u),
            decreases tokens@.len() - k,
        {
            let ghost mid = *self;
            let t = tokens[k].clone();
            let ghost tv = t@;
            self.load_entry(t, None);
            proof {
                assert(tokens@[k as int]@ == tv);
                if !mid.has_token(tv) {
                    lemma_push_preserves_lookups(mid, *self, tv, None);
                }
            }
            k = k + 1;
        }
    }
}

/// A row holding `t` at a unique-token table's index `i` is the row
/// `token_index` names.
proof fn lemma_token_index_is(s: Store, t: Seq<char>, i: int)
    requires
        s.wf(),
        0 <= i < s@.len(),
        s@[i].0 == t,
    ensures
        s.has_token(t),
        s.token_index(t) == i,
{
    assert(s.has_token(t));
    let j = s.token_index(t);
    assert(0 <= j < s@.len() && s@[j].0 == t);
    if i < j {
        assert(s@[i].0 != s@[j].0);
    } else if j < i {
        assert(s@[j].0 != s@[i].0);
    }
}

/// Appending a fresh unbound row changes no existing token's presence,
/// allocation, or any user's authorization, and adds the new token unbound.
proof fn lemma_push_preserves_lookups(pre: Store, post: Store, t: Seq<char>, u: Option<Seq<char>>)
    requires
        pre.wf(),
        post.wf(),
        !pre.has_token(t),
        post@ == pre@.push((t, u)),
    ensures
        post.has_token(t),
        post.allocation_of(t) == u,
        forall|t2: Seq<char>| t2 != t ==> post.has_token(t2) == pre.has_token(t2),
        forall|t2: Seq<char>|
            pre.has_token(t2) ==> post.allocation_of(t2) == pre.allocation_of(t2),
        u is None ==> forall|u2: Seq<char>|
            post.user_has_allocation(u2) == pre.user_has_allocation(u2),
{
    assert(post@[pre@.len() as int].0 == t);
    lemma_token_index_is(post, t, pre@.len() as int);
    assert forall|t2: Seq<char>| t2 != t implies post.has_token(t2) == pre.has_token(t2) by {
        if post.has_token(t2) {
            let k = choose|k: int| 0 <= k < post@.len() && (#[trigger] post@[k]).0 == t2;
            assert(k < pre@.len());
            assert(pre@[k].0 == t2);
        }
        if pre.has_token(t2) {
            let k = choose|k: int| 0 <= k < pre@.len() && (#[trigger] pre@[k]).0 == t2;
            assert(post@[k].0 == t2);
        }
    }
    assert forall|t2: Seq<char>| pre.has_token(t2) implies post.allocation_of(t2)
        == pre.allocation_of(t2) by {
        lemma_token_index_is(pre, t2, pre.token_index(t2));
        assert(post@[pre.token_index(t2)].0 == t2);
        lemma_token_index_is(post, t2, pre.token_index(t2));
    }
    if u is None {
        assert forall|u2: Seq<char>|
            post.user_has_allocation(u2) == pre.user_has_allocation(u2) by {
            if post.user_has_allocation(u2) {
                let k = choose|k: int| 0 <= k < post@.len() && (#[trigger] post@[k]).1 == Some(u2);
                assert(k < pre@.len());
                assert(pre@[k].1 == Some(u2));
            }
            if pre.user_has_allocation(u2) {
                let k = choose|k: int| 0 <= k < pre@.len() && (#[trigger] pre@[k]).1 == Some(u2);
                assert(post@[k].1 == Some(u2));
            }
        }
    }
}

/// Once `allocate(u, t)` has succeeded, a further `allocate` on `t` returns
/// `AlreadyAllocated` — by `allocate`'s own contract it can return `Ok` only
/// on an unbound token, so a token is won at most once and the loser never
/// sees a silent success.
pub proof fn lemma_allocate_at_most_once(pre: Store, post: Store, u: Seq<char>, t: Seq<char>)
    requires
        pre.wf(),
        allocate_result(pre, t) is Ok,
        allocate_post(pre, post, u, t),
    ensures
        allocate_result(post, t) == Err::<(), TokenError>(TokenError::AlreadyAllocated),
{
}

/// After a successful `allocate(u, t)`, the user holds an allocated token and
/// the token is no longer valid for anyone else.
pub proof fn lemma_allocate_grants_authorization(pre: Store, post: Store, u: Seq<char>, t: Seq<
    char,
>)
    requires
        pre.wf(),
        allocate_result(pre, t) is Ok,
        allocate_post(pre, post, u, t),
    ensures
        post.user_has_allocation(u),
        !post.token_valid(t),
{
}

} // verus!
