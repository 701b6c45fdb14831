use teachbot::auth::AuthResult;
use teachbot::config::Args;
use teachbot::gateway::{
    auth_outcome_reply, completion_failure_reply, first_contact_notice, public_refusal_notice,
    timeout_reply, triage, InboundDecision,
};

#[test]
fn test_triage_decisions() {
    assert_eq!(triage(true, true), InboundDecision::Ignore);
    assert_eq!(triage(true, false), InboundDecision::Ignore);
    assert_eq!(triage(false, false), InboundDecision::PublicRefusal);
    assert_eq!(triage(false, true), InboundDecision::Engage);
}

#[test]
fn test_auth_outcome_replies() {
    let success = auth_outcome_reply(AuthResult::Success);
    assert_eq!(
        success.reply.as_deref(),
        Some("Looks good! Your user is now authenticated :D")
    );
    assert!(success.channel.is_none());

    let invalid = auth_outcome_reply(AuthResult::InvalidToken);
    assert_eq!(
        invalid.reply.as_deref(),
        Some("Unfortunately, your token appears to be invalid or has already been used before.\n\nAre you sure you entered it correctly?")
    );

    let malformed = auth_outcome_reply(AuthResult::MalformedTokenRequest);
    assert_eq!(
        malformed.reply.as_deref(),
        Some("Hey there!\n\nUnfortunately, you are not authenticated yet. Please paste in your authentication token in the following format:\n\n`!token YOUR_TOKEN`")
    );
}

#[test]
fn test_fixed_notices() {
    assert_eq!(
        public_refusal_notice(),
        "I'm shy, so I don't talk in public! Message me directly to chat :)"
    );
    assert_eq!(
        first_contact_notice(),
        "_This is your first message of the session. Did Gnome Chompski just wake up?_"
    );
    let failed = completion_failure_reply();
    assert!(failed.reply.unwrap().contains("Something went wrong"));
    assert!(failed.channel.is_none());
    let late = timeout_reply();
    assert!(late.reply.unwrap().contains("timed out"));
    assert!(late.channel.is_none());
}

#[test]
fn test_args_decide_strategy_and_data_dir() {
    let bare = Args { data_dir: None, tokens_file: None };
    assert!(!bare.wants_token_auth());
    assert_eq!(bare.effective_data_dir(), "var/data");

    let gated = Args {
        data_dir: Some("elsewhere/data".to_string()),
        tokens_file: Some("tokens.txt".to_string()),
    };
    assert!(gated.wants_token_auth());
    assert_eq!(gated.effective_data_dir(), "elsewhere/data");
}

#[test]
fn test_just_log_error_passes_ok() {
    let context = "doing foo";
    let x: Result<usize, String> = Ok(123);
    let res = match x {
        Ok(v) => v,
        Err(e) => panic!("Error while {context}: {e:?}"),
    };

    assert_eq!(res, 123);
}
