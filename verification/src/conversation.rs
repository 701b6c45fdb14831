//! Ordered, role-tagged conversation history.
//!
//! A `Conversation` always begins with the system prompt that sets its
//! persona; later entries alternate between the user's turns and the
//! assistant's answers.  Only the owning session mutates it.

use vstd::prelude::*;

verus! {

/// Who authored an entry of a conversation history.
#[derive(Clone, Copy, Debug, PartialEq, Eq, Structural)]
pub enum Role {
    System,
    User,
    Assistant,
}

/// One history entry: a role together with the text of that turn.
#[derive(Debug)]
pub struct Message {
    pub role: Role,
    pub content: String,
}

impl View for Message {
    type V = (Role, Seq<char>);

    open spec fn view(&self) -> (Role, Seq<char>) {
        (self.role, self.content@)
    }
}

impl DeepView for Message {
    type V = (Role, Seq<char>);

    open spec fn deep_view(&self) -> (Role, Seq<char>) {
        self@
    }
}

impl Message {
    pub fn new(role: Role, content: &str) -> (m: Message)
        ensures
            m@ == (role, content@),
    {
        Message { role, content: content.to_owned() }
    }

    /// A copy whose view equals `self`'s.
    pub fn duplicate(&self) -> (m: Message)
        ensures
            m@ == self@,
    {
        Message { role: self.role, content: self.content.clone() }
    }
}

/// Ordered history of one conversation.
#[derive(Debug)]
pub struct Conversation {
    history: Vec<Message>,
}

impl View for Conversation {
    type V = Seq<(Role, Seq<char>)>;

    closed spec fn view(&self) -> Seq<(Role, Seq<char>)> {
        self.history.deep_view()
    }
}

impl Conversation {
    /// A history is well formed when it still carries its leading system prompt.
    pub open spec fn wf(&self) -> bool {
        self@.len() >= 1 && self@[0].0 == Role::System
    }

    /// Fresh history holding nothing but the given system prompt.
    pub fn new(prompt: &str) -> (c: Conversation)
        ensures
            c@ == seq![(Role::System, prompt@)],
            c.wf(),
    {
        let mut history: Vec<Message> = Vec::new();
        history.push(Message::new(Role::System, prompt));
        let c = Conversation { history };
        proof {
            assert(c@ =~= seq![(Role::System, prompt@)]);
        }
        c
    }

    /// How many entries the history holds.
    pub fn len(&self) -> (n: usize)
        ensures
            n == self@.len(),
    {
        self.history.len()
    }

    /// Drops the most recent entry and returns its text, unless only the
    /// system prompt is left, which is never removed.
    pub fn forget_last(&mut self) -> (r: Option<String>)
        ensures
            old(self)@.len() > 1 ==> {
                &&& final(self)@ == old(self)@.drop_last()
                &&& match r {
                    Some(s) => s@ == old(self)@.last().1,
                    None => false,
                }
            },
            old(self)@.len() <= 1 ==> final(self)@ == old(self)@ && r is None,
    {
        if self.history.len() > 1 {
            match self.history.pop() {
                Some(m) => {
                    proof {
                        assert(self@ =~= old(self)@.drop_last());
                    }
                    Some(m.content)
                },
                None => None,
            }
        } else {
            None
        }
    }

    /// Appends one turn.
    pub fn push_turn(&mut self, role: Role, content: &str)
        ensures
            final(self)@ == old(self)@.push((role, content@)),
    {
        self.history.push(Message::new(role, content));
        proof {
            assert(self@ =~= old(self)@.push((role, content@)));
        }
    }

    /// Removes the trailing user turn again, after the completion request it
    /// was written for failed or was abandoned.  Leaves any other history
    /// alone, so an abandoned request never half-mutates the state.
    pub fn retract_pending_turn(&mut self)
        ensures
            old(self)@.len() > 1 && old(self)@.last().0 == Role::User ==> final(self)@ == old(
                self,
            )@.drop_last(),
            !(old(self)@.len() > 1 && old(self)@.last().0 == Role::User) ==> final(self)@ == old(
                self,
            )@,
    {
        let n = self.history.len();
        if n > 1 {
            let is_user = match self.history[n - 1].role {
                Role::User => true,
                _ => false,
            };
            if is_user {
                self.history.pop();
                proof {
                    assert(self@ =~= old(self)@.drop_last());
                }
            }
        }
    }

    /// The request payload for a completion call that continues this history
    /// with nothing further added: a copy of every entry, in order.
    pub fn request_messages(&self) -> (v: Vec<Message>)
        ensures
            v.deep_view() == self@,
    {
        let mut v: Vec<Message> = Vec::new();
        let mut i: usize = 0;
        while i < self.history.len()
            invariant
                i <= self.history.len(),
                v.deep_view() == self@.subrange(0, i as int),
            decreases self.history.len() - i,
        {
            let ghost prev = v.deep_view();
            let m = self.history[i].duplicate();
            v.push(m);
            i = i + 1;
            proof {
                assert(v.deep_view() =~= prev.push(m@));
                assert(v.deep_view() =~= self@.subrange(0, i as int));
            }
        }
        proof {
            assert(v.deep_view() =~= self@);
        }
        v
    }
}

} // verus!
