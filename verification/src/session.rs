//! The per-user tutoring session.
//!
//! A `TeachBot` owns one conversation history and decides, for each inbound
//! message, what the completion collaborator should be asked and how its
//! answers extend the history.  The collaborator itself lives outside this
//! crate: `handle` returns the request payloads as a `HandleAction`, and the
//! caller brings the answers back through `absorb_answer` or
//! `absorb_exchange`, or withdraws the pending turn through
//! `abandon_exchange` when a request failed or timed out.  A user turn is
//! therefore appended before its request goes out and removed again if no
//! answer ever arrives, so a failed call never leaves the history
//! half-mutated.

use vstd::prelude::*;

use crate::commands::{parse_command, Command, CommandView};
use crate::conversation::{Conversation, Message, Role};

verus! {

/// The system prompt of the standing conversation persona.
pub open spec fn spec_conversation_prompt() -> Seq<char> {
    "I am learning to speak Polish. You are a Polish teacher. Let's have a conversation at A2 level in Polish. Do not provide any translations."@
}

/// The system prompt under which free-form messages are reviewed and one-shot
/// questions are answered.
pub open spec fn spec_teach_prompt() -> Seq<char> {
    "I am learning to speak Polish. You are a Polish teacher. Please correct any grammar or mistakes I make in the following sentences, in English. Please only speak in English. Do not patronise me with complements."@
}

/// The system prompt for word definitions.
pub open spec fn spec_define_prompt() -> Seq<char> {
    "I am learning to speak Polish. You are a Polish teacher. What does this word mean?"@
}

/// The system prompt for grammatical cases.
pub open spec fn spec_cases_prompt() -> Seq<char> {
    "I am learning to speak Polish. You are a Polish teacher. Please provide me with all of the cases for the following Polish word."@
}

/// The system prompt for example sentences.
pub open spec fn spec_examples_prompt() -> Seq<char> {
    "I am learning to speak Polish. You are a Polish teacher. Please provide me with 3 example sentences and translations containing the following Polish word."@
}

pub fn conversation_prompt() -> (s: &'static str)
    ensures
        s@ == spec_conversation_prompt(),
{
    "I am learning to speak Polish. You are a Polish teacher. Let's have a conversation at A2 level in Polish. Do not provide any translations."
}

pub fn teach_prompt() -> (s: &'static str)
    ensures
        s@ == spec_teach_prompt(),
{
    "I am learning to speak Polish. You are a Polish teacher. Please correct any grammar or mistakes I make in the following sentences, in English. Please only speak in English. Do not patronise me with complements."
}

pub fn define_prompt() -> (s: &'static str)
    ensures
        s@ == spec_define_prompt(),
{
    "I am learning to speak Polish. You are a Polish teacher. What does this word mean?"
}

pub fn cases_prompt() -> (s: &'static str)
    ensures
        s@ == spec_cases_prompt(),
{
    "I am learning to speak Polish. You are a Polish teacher. Please provide me with all of the cases for the following Polish word."
}

pub fn examples_prompt() -> (s: &'static str)
    ensures
        s@ == spec_examples_prompt(),
{
    "I am learning to speak Polish. You are a Polish teacher. Please provide me with 3 example sentences and translations containing the following Polish word."
}

/// What goes back to the chat gateway for one handled message.
#[derive(Debug)]
pub struct MessageReply {
    /// Threaded onto the triggering message.
    pub reply: Option<String>,
    /// Broadcast to the channel.
    pub channel: Option<String>,
}

impl MessageReply {
    /// A channel-only payload.
    pub fn channel(msg: String) -> (r: MessageReply)
        ensures
            r.channel == Some(msg),
            r.reply is None,
    {
        MessageReply { channel: Some(msg), reply: None }
    }

    /// A threaded-reply-only payload.
    pub fn reply(msg: String) -> (r: MessageReply)
        ensures
            r.reply == Some(msg),
            r.channel is None,
    {
        MessageReply { reply: Some(msg), channel: None }
    }

    /// Both parts at once: the in-persona continuation for the channel and
    /// the teacher's feedback threaded onto the message.
    pub fn message_and_reply(msg: String, reply: String) -> (r: MessageReply)
        ensures
            r.channel == Some(msg),
            r.reply == Some(reply),
    {
        MessageReply { reply: Some(reply), channel: Some(msg) }
    }
}

/// The one-shot request payload: a topic prompt and the question under it.
pub open spec fn one_shot_request(prompt: Seq<char>, question: Seq<char>) -> Seq<
    (Role, Seq<char>),
> {
    seq![(Role::System, prompt), (Role::User, question)]
}

/// Builds the one-shot payload.
pub fn ask_request(prompt: &str, question: &str) -> (v: Vec<Message>)
    ensures
        v.deep_view() == one_shot_request(prompt@, question@),
{
    let mut v: Vec<Message> = Vec::new();
    v.push(Message::new(Role::System, prompt));
    v.push(Message::new(Role::User, question));
    proof {
        assert(v.deep_view() =~= one_shot_request(prompt@, question@));
    }
    v
}

/// What `handle` asks its caller to do before the reply can be composed.
#[derive(Debug)]
pub enum HandleAction {
    /// Nothing further: the reply is ready.
    Done(MessageReply),
    /// Request one completion; its answer is the whole reply and the session
    /// state has nothing to record.
    OneShot(Vec<Message>),
    /// Request one completion that continues the session history; bring the
    /// answer back through `absorb_answer`, or call `abandon_exchange`.
    Continue(Vec<Message>),
    /// Request both completions concurrently: the history continuation and
    /// the teacher's feedback; bring the answers back through
    /// `absorb_exchange`, or call `abandon_exchange`.
    Dual(Vec<Message>, Vec<Message>),
}

/// The history left after an undo: the last two entries go, but never the
/// leading system prompt.
pub open spec fn undo_history(h: Seq<(Role, Seq<char>)>) -> Seq<(Role, Seq<char>)> {
    if h.len() <= 1 {
        h
    } else if h.len() == 2 {
        h.drop_last()
    } else {
        h.subrange(0, h.len() - 2)
    }
}

/// The notice an undo sends back: either that there was nothing to undo, or
/// the texts of the forgotten entries.
pub open spec fn undo_notice(h: Seq<(Role, Seq<char>)>) -> Seq<char> {
    if h.len() <= 1 {
        "There are no messages in the history to undo."@
    } else if h.len() == 2 {
        "Forgot about the following messages:\n"@ + "\n> "@ + h.last().1
    } else {
        "Forgot about the following messages:\n"@ + "> "@ + h[h.len() - 2].1 + "\n> "@
            + h.last().1
    }
}

/// Undo reverses an exchange exactly: after a free-form message appended its
/// user turn and the answer its assistant turn, the undone history is the
/// history the exchange started from, whatever it held.
pub proof fn lemma_undo_reverses_exchange(h: Seq<(Role, Seq<char>)>, m: Seq<char>, a: Seq<char>)
    requires
        h.len() >= 1,
    ensures
        undo_history(h.push((Role::User, m)).push((Role::Assistant, a))) == h,
{
    let grown = h.push((Role::User, m)).push((Role::Assistant, a));
    assert(undo_history(grown) =~= h);
}

/// One user's session: the standing conversation the bot keeps with them.
#[derive(Debug)]
pub struct TeachBot {
    conversation: Conversation,
}

impl View for TeachBot {
    type V = Seq<(Role, Seq<char>)>;

    closed spec fn view(&self) -> Seq<(Role, Seq<char>)> {
        self.conversation@
    }
}

impl TeachBot {
    /// The session still carries its leading system prompt.
    pub open spec fn wf(&self) -> bool {
        self@.len() >= 1 && self@[0].0 == Role::System
    }

    /// Rolls back the most recent exchange: up to two trailing entries, never
    /// the system prompt.  Returns the notice describing what was forgotten.
    pub fn undo_reply(&mut self) -> (r: MessageReply)
        requires
            old(self).wf(),
        ensures
            final(self).wf(),
            final(self)@ == undo_history(old(self)@),
            match r.reply {
                Some(s) => s@ == undo_notice(old(self)@),
                None => false,
            },
            r.channel is None,
    {
        let message_last = self.conversation.forget_last();
        let message_last_but_one = self.conversation.forget_last();

        if message_last_but_one.is_none() && message_last.is_none() {
            MessageReply::reply("There are no messages in the history to undo.".to_owned())
        } else {
            let mut reply = String::new();
            reply.append("Forgot about the following messages:\n");

            if let Some(msg) = &message_last_but_one {
                reply.append("> ");
                reply.append(msg.as_str());
            }
            if let Some(msg) = &message_last {
                reply.append("\n> ");
                reply.append(msg.as_str());
            }
            proof {
                assert(self@ =~= undo_history(old(self)@));
                assert(reply@ =~= undo_notice(old(self)@));
            }
            MessageReply::reply(reply)
        }
    }

    /// Decides what one inbound message means and what must be asked of the
    /// completion collaborator.  Commands reset, query or roll back state as
    /// the grammar says; anything unparseable is free-form chat and becomes a
    /// pending user turn plus a dual request.
    pub fn handle(&mut self, message: &str) -> (action: HandleAction)
        requires
            old(self).wf(),
        ensures
            final(self).wf(),
            ({
                let parsed = parse_command(message@);
                match parsed {
                    Some(CommandView::Chat(topic)) => {
                        &&& final(self)@ == seq![
                            (Role::System, spec_conversation_prompt()),
                            (Role::User, topic),
                        ]
                        &&& match action {
                            HandleAction::Continue(msgs) => msgs.deep_view() == final(self)@,
                            _ => false,
                        }
                    },
                    Some(CommandView::Ask(q)) => {
                        &&& final(self)@ == old(self)@
                        &&& match action {
                            HandleAction::OneShot(msgs) => msgs.deep_view() == one_shot_request(
                                spec_teach_prompt(),
                                q,
                            ),
                            _ => false,
                        }
                    },
                    Some(CommandView::Define(q)) => {
                        &&& final(self)@ == old(self)@
                        &&& match action {
                            HandleAction::OneShot(msgs) => msgs.deep_view() == one_shot_request(
                                spec_define_prompt(),
                                q,
                            ),
                            _ => false,
                        }
                    },
                    Some(CommandView::Cases(q)) => {
                        &&& final(self)@ == old(self)@
                        &&& match action {
                            HandleAction::OneShot(msgs) => msgs.deep_view() == one_shot_request(
                                spec_cases_prompt(),
                                q,
                            ),
                            _ => false,
                        }
                    },
                    Some(CommandView::Example(q)) => {
                        &&& final(self)@ == old(self)@
                        &&& match action {
                            HandleAction::OneShot(msgs) => msgs.deep_view() == one_shot_request(
                                spec_examples_prompt(),
                                q,
                            ),
                            _ => false,
                        }
                    },
                    Some(CommandView::Undo) => {
                        &&& final(self)@ == undo_history(old(self)@)
                        &&& match action {
                            HandleAction::Done(r) => {
                                &&& match r.reply {
                                    Some(s) => s@ == undo_notice(old(self)@),
                                    None => false,
                                }
                                &&& r.channel is None
                            },
                            _ => false,
                        }
                    },
                    None => {
                        &&& final(self)@ == old(self)@.push((Role::User, message@))
                        &&& match action {
                            HandleAction::Dual(chat, review) => {
                                &&& chat.deep_view() == final(self)@
                                &&& review.deep_view() == one_shot_request(
                                    spec_teach_prompt(),
                                    message@,
                                )
                            },
                            _ => false,
                        }
                    },
                }
            }),
    {
        match Command::read(message) {
            Some(Command::Chat(new_topic)) => {
                self.conversation = Conversation::new(conversation_prompt());
                self.conversation.push_turn(Role::User, new_topic.as_str());
                let msgs = self.conversation.request_messages();
                proof {
                    assert(self@ =~= seq![
                        (Role::System, spec_conversation_prompt()),
                        (Role::User, new_topic@),
                    ]);
                }
                HandleAction::Continue(msgs)
            },
            Some(Command::Ask(question)) => HandleAction::OneShot(
                ask_request(teach_prompt(), question.as_str()),
            ),
            Some(Command::Define(question)) => HandleAction::OneShot(
                ask_request(define_prompt(), question.as_str()),
            ),
            Some(Command::Cases(word)) => HandleAction::OneShot(
                ask_request(cases_prompt(), word.as_str()),
            ),
            Some(Command::Example(word)) => HandleAction::OneShot(
                ask_request(examples_prompt(), word.as_str()),
            ),
            Some(Command::Undo) => HandleAction::Done(self.undo_reply()),
            None => {
                self.conversation.push_turn(Role::User, message);
                let chat = self.conversation.request_messages();
                let review = ask_request(teach_prompt(), message);
                HandleAction::Dual(chat, review)
            },
        }
    }

    /// Records the answer that continues the history after a `Continue`
    /// request succeeded, and wraps it as the channel reply.
    pub fn absorb_answer(&mut self, answer: &str) -> (r: MessageReply)
        requires
            old(self).wf(),
        ensures
            final(self).wf(),
            final(self)@ == old(self)@.push((Role::Assistant, answer@)),
            match r.channel {
                Some(m) => m@ == answer@,
                None => false,
            },
            r.reply is None,
    {
        self.conversation.push_turn(Role::Assistant, answer);
        MessageReply::channel(answer.to_owned())
    }

    /// Records the continuation answer of a `Dual` request and composes the
    /// two-part reply: the continuation for the channel, the review threaded.
    pub fn absorb_exchange(&mut self, chat_answer: &str, review: &str) -> (r: MessageReply)
        requires
            old(self).wf(),
        ensures
            final(self).wf(),
            final(self)@ == old(self)@.push((Role::Assistant, chat_answer@)),
            match r.channel {
                Some(m) => m@ == chat_answer@,
                None => false,
            },
            match r.reply {
                Some(m) => m@ == review@,
                None => false,
            },
    {
        self.conversation.push_turn(Role::Assistant, chat_answer);
        MessageReply::message_and_reply(chat_answer.to_owned(), review.to_owned())
    }

    /// Withdraws the pending user turn after a failed or abandoned request,
    /// so the history is exactly what it was before the message arrived.
    pub fn abandon_exchange(&mut self)
        requires
            old(self).wf(),
        ensures
            final(self).wf(),
            old(self)@.len() > 1 && old(self)@.last().0 == Role::User ==> final(self)@ == old(
                self,
            )@.drop_last(),
            !(old(self)@.len() > 1 && old(self)@.last().0 == Role::User) ==> final(self)@ == old(
                self,
            )@,
    {
        self.conversation.retract_pending_turn();
    }
}

impl Default for TeachBot {
    /// A fresh session: the standing persona prompt and nothing else.
    fn default() -> (b: TeachBot)
        ensures
            b@ == seq![(Role::System, spec_conversation_prompt())],
            b.wf(),
    {
        TeachBot { conversation: Conversation::new(conversation_prompt()) }
    }
}

} // verus!
