//! The process-wide map from user identity to session.
//!
//! Sessions are created lazily on first contact and live for the process
//! lifetime.  Look-up-or-create is one short step; the caller then works on
//! the session it was pointed at, so one user's slow completion call never
//! has to hold the whole registry.

use vstd::prelude::*;

use crate::conversation::Role;
use crate::session::{spec_conversation_prompt, TeachBot};

verus! {

/// Maps each user id to their one session.
#[derive(Debug)]
pub struct SessionRegistry {
    user_ids: Vec<u64>,
    sessions: Vec<TeachBot>,
}

impl SessionRegistry {
    /// The user ids, in order of first contact.
    pub closed spec fn ids(&self) -> Seq<u64> {
        self.user_ids@
    }

    /// The sessions, in the same order.
    pub closed spec fn sessions(&self) -> Seq<TeachBot> {
        self.sessions@
    }

    /// One session per user, each with its system prompt in place.
    pub open spec fn wf(&self) -> bool {
        &&& self.ids().len() == self.sessions().len()
        &&& forall|i: int, j: int|
            0 <= i < j < self.ids().len() ==> self.ids()[i] != self.ids()[j]
        &&& forall|i: int| 0 <= i < self.sessions().len() ==> (#[trigger] self.sessions()[i]).wf()
    }

    /// Whether this user has a session already.
    pub open spec fn has_user(&self, user_id: u64) -> bool {
        exists|i: int| 0 <= i < self.ids().len() && self.ids()[i] == user_id
    }

    /// An empty registry.
    pub fn new() -> (r: SessionRegistry)
        ensures
            r.wf(),
            r.ids() == Seq::<u64>::empty(),
            r.sessions() == Seq::<TeachBot>::empty(),
    {
        SessionRegistry { user_ids: Vec::new(), sessions: Vec::new() }
    }

    /// The index of this user's session; on first contact a fresh session —
    /// the default system prompt and nothing else — is created for them.
    /// Returns the index and whether the user is new.  Every later call for
    /// the same user yields the same index, and never touches anyone else's
    /// session.
    pub fn get_or_create(&mut self, user_id: u64) -> (r: (usize, bool))
        requires
            old(self).wf(),
        ensures
            final(self).wf(),
            r.0 < final(self).ids().len(),
            final(self).ids()[r.0 as int] == user_id,
            r.1 == !old(self).has_user(user_id),
            old(self).has_user(user_id) ==> {
                &&& final(self).ids() == old(self).ids()
                &&& final(self).sessions() == old(self).sessions()
            },
            !old(self).has_user(user_id) ==> {
                &&& r.0 == old(self).ids().len()
                &&& final(self).ids() == old(self).ids().push(user_id)
                &&& final(self).sessions().drop_last() == old(self).sessions()
                &&& final(self).sessions().last()@ == seq![
                    (Role::System, spec_conversation_prompt()),
                ]
            },
    {
        let mut i: usize = 0;
        while i < self.user_ids.len()
            invariant
                *self == *old(self),
                self.wf(),
                i <= self.ids().len(),
                forall|k: int| 0 <= k < i ==> self.ids()[k] != user_id,
            decreases self.ids().len() - i,
        {
            if self.user_ids[i] == user_id {
                return (i, false);
            }
            i = i + 1;
        }
        let idx = self.user_ids.len();
        self.user_ids.push(user_id);
        self.sessions.push(TeachBot::default());
        proof {
            assert(self.sessions().drop_last() =~= old(self).sessions());
        }
        (idx, true)
    }

    /// Exclusive access to the session at `idx`.  Whatever the caller does
    /// through the borrow is exactly what happens to that one slot.
    pub fn session_mut(&mut self, idx: usize) -> (s: &mut TeachBot)
        requires
            old(self).wf(),
            idx < old(self).sessions().len(),
        ensures
            *s == old(self).sessions()[idx as int],
            final(self).ids() == old(self).ids(),
            final(self).sessions() == old(self).sessions().update(idx as int, *final(s)),
    {
        &mut self.sessions[idx]
    }
}

} // verus!
