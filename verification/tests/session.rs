use teachbot::conversation::{Conversation, Role};
use teachbot::registry::SessionRegistry;
use teachbot::session::{
    cases_prompt, conversation_prompt, define_prompt, examples_prompt, teach_prompt,
    HandleAction, MessageReply, TeachBot,
};

#[test]
fn test_conversation_starts_with_prompt_only() {
    let mut c = Conversation::new("prompt");
    assert_eq!(c.len(), 1);
    assert_eq!(c.forget_last(), None);
    assert_eq!(c.len(), 1);
}

#[test]
fn test_conversation_forget_last_returns_trailing_content() {
    let mut c = Conversation::new("prompt");
    c.push_turn(Role::User, "first");
    c.push_turn(Role::Assistant, "second");
    assert_eq!(c.forget_last(), Some("second".to_string()));
    assert_eq!(c.forget_last(), Some("first".to_string()));
    assert_eq!(c.forget_last(), None);
}

#[test]
fn test_message_reply_builders() {
    let channel_only = MessageReply::channel("to the channel".to_string());
    assert_eq!(channel_only.channel.as_deref(), Some("to the channel"));
    assert!(channel_only.reply.is_none());

    let reply_only = MessageReply::reply("threaded".to_string());
    assert_eq!(reply_only.reply.as_deref(), Some("threaded"));
    assert!(reply_only.channel.is_none());

    let both = MessageReply::message_and_reply("to the channel".to_string(), "threaded".to_string());
    assert_eq!(both.channel.as_deref(), Some("to the channel"));
    assert_eq!(both.reply.as_deref(), Some("threaded"));
}

#[test]
fn test_undo_on_fresh_session_has_nothing_to_undo() {
    let mut bot = TeachBot::default();
    let r = bot.undo_reply();
    assert_eq!(
        r.reply.as_deref(),
        Some("There are no messages in the history to undo.")
    );
    assert!(r.channel.is_none());
}

#[test]
fn test_free_form_message_issues_dual_request() {
    let mut bot = TeachBot::default();
    match bot.handle("hello there") {
        HandleAction::Dual(chat, review) => {
            assert_eq!(chat.len(), 2);
            assert!(matches!(chat[0].role, Role::System));
            assert_eq!(chat[0].content, conversation_prompt());
            assert!(matches!(chat[1].role, Role::User));
            assert_eq!(chat[1].content, "hello there");

            assert_eq!(review.len(), 2);
            assert!(matches!(review[0].role, Role::System));
            assert_eq!(review[0].content, teach_prompt());
            assert!(matches!(review[1].role, Role::User));
            assert_eq!(review[1].content, "hello there");
        }
        _ => panic!("free-form chat must request both completions"),
    }
    let reply = bot.absorb_exchange("Cze\u{15b}\u{107}!", "All correct.");
    assert_eq!(reply.channel.as_deref(), Some("Cze\u{15b}\u{107}!"));
    assert_eq!(reply.reply.as_deref(), Some("All correct."));
}

#[test]
fn test_undo_after_exchange_removes_exactly_the_two_entries() {
    let mut bot = TeachBot::default();
    let _ = bot.handle("hello there");
    let _ = bot.absorb_exchange("answer text", "review text");

    match bot.handle("!undo") {
        HandleAction::Done(r) => {
            assert_eq!(
                r.reply.as_deref(),
                Some("Forgot about the following messages:\n> hello there\n> answer text")
            );
            assert!(r.channel.is_none());
        }
        _ => panic!("undo needs no completion"),
    }

    // The history is back to the system prompt alone.
    match bot.handle("!undo") {
        HandleAction::Done(r) => {
            assert_eq!(
                r.reply.as_deref(),
                Some("There are no messages in the history to undo.")
            );
        }
        _ => panic!("undo needs no completion"),
    }
}

#[test]
fn test_undo_with_single_trailing_entry_reports_it_alone() {
    let mut bot = TeachBot::default();
    let _ = bot.handle("pending question");
    // The exchange never completed: only the user turn is there to forget.
    let r = bot.undo_reply();
    assert_eq!(
        r.reply.as_deref(),
        Some("Forgot about the following messages:\n\n> pending question")
    );
}

#[test]
fn test_abandoned_exchange_leaves_no_trace() {
    let mut bot = TeachBot::default();
    let _ = bot.handle("never answered");
    bot.abandon_exchange();
    let r = bot.undo_reply();
    assert_eq!(
        r.reply.as_deref(),
        Some("There are no messages in the history to undo.")
    );
}

#[test]
fn test_chat_command_resets_history_before_the_call() {
    let mut bot = TeachBot::default();
    let _ = bot.handle("some earlier turn");
    let _ = bot.absorb_exchange("earlier answer", "earlier review");

    match bot.handle("!chat Let's talk about food") {
        HandleAction::Continue(msgs) => {
            assert_eq!(msgs.len(), 2);
            assert!(matches!(msgs[0].role, Role::System));
            assert_eq!(msgs[0].content, conversation_prompt());
            assert!(matches!(msgs[1].role, Role::User));
            assert_eq!(msgs[1].content, "Let's talk about food");
        }
        _ => panic!("a chat reset must request one continuation"),
    }

    let reply = bot.absorb_answer("O jedzeniu!");
    assert_eq!(reply.channel.as_deref(), Some("O jedzeniu!"));
    assert!(reply.reply.is_none());

    // Undo then forgets exactly the reset topic and its answer.
    match bot.handle("!undo") {
        HandleAction::Done(r) => {
            assert_eq!(
                r.reply.as_deref(),
                Some("Forgot about the following messages:\n> Let's talk about food\n> O jedzeniu!")
            );
        }
        _ => panic!("undo needs no completion"),
    }
}

#[test]
fn test_one_shot_commands_use_their_prompts_and_keep_state() {
    let mut bot = TeachBot::default();
    let cases = [
        ("!ask bar baz", teach_prompt(), "bar baz"),
        ("!def mleko", define_prompt(), "mleko"),
        ("!cases quup", cases_prompt(), "quup"),
        ("!ex quux!", examples_prompt(), "quux!"),
    ];
    for (message, prompt, argument) in cases {
        match bot.handle(message) {
            HandleAction::OneShot(msgs) => {
                assert_eq!(msgs.len(), 2);
                assert!(matches!(msgs[0].role, Role::System));
                assert_eq!(msgs[0].content, prompt);
                assert!(matches!(msgs[1].role, Role::User));
                assert_eq!(msgs[1].content, argument);
            }
            _ => panic!("a one-shot command must request one completion"),
        }
    }
    // None of it touched the session history.
    let r = bot.undo_reply();
    assert_eq!(
        r.reply.as_deref(),
        Some("There are no messages in the history to undo.")
    );
}

#[test]
fn test_registry_creates_once_and_finds_again() {
    let mut registry = SessionRegistry::new();
    let (idx, created) = registry.get_or_create(7);
    assert!(created);

    {
        let bot = registry.session_mut(idx);
        match bot.handle("hello there") {
            HandleAction::Dual(chat, review) => {
                assert!(!chat.is_empty());
                assert!(!review.is_empty());
            }
            _ => panic!("free-form chat must request both completions"),
        }
        let reply = bot.absorb_exchange("channel part", "reply part");
        assert!(reply.channel.is_some());
        assert!(reply.reply.is_some());
    }

    let (again, created_again) = registry.get_or_create(7);
    assert_eq!(again, idx);
    assert!(!created_again);

    // The same session is found: its history still holds the exchange.
    let bot = registry.session_mut(again);
    match bot.handle("!undo") {
        HandleAction::Done(r) => {
            assert_eq!(
                r.reply.as_deref(),
                Some("Forgot about the following messages:\n> hello there\n> channel part")
            );
        }
        _ => panic!("undo needs no completion"),
    }

    let (other, other_created) = registry.get_or_create(8);
    assert!(other_created);
    assert_ne!(other, idx);
}
