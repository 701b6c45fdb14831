use teachbot::commands::Command;

#[test]
fn test_parse_commands() {
    assert_eq!(
        Command::read("!chat foo bar"),
        Some(Command::Chat("foo bar".to_string()))
    );

    assert_eq!(
        Command::read("!ask bar baz"),
        Some(Command::Ask("bar baz".to_string()))
    );
    assert_eq!(
        Command::read("!cases quup"),
        Some(Command::Cases("quup".to_string()))
    );
    assert_eq!(
        Command::read("!ex quux!"),
        Some(Command::Example("quux!".to_string()))
    );
    assert_eq!(Command::read("!undo foo bar"), Some(Command::Undo));
}

#[test]
fn test_bad_commands() {
    assert_eq!(Command::read("chat foo"), None);
    assert_eq!(Command::read("!foo"), None);
    assert_eq!(Command::read(""), None);
    assert_eq!(Command::read("!chat"), None);
    assert_eq!(Command::read("!chat "), None);
}

#[test]
fn test_define_command() {
    assert_eq!(
        Command::read("!def mleko"),
        Some(Command::Define("mleko".to_string()))
    );
}

#[test]
fn test_undo_without_argument() {
    assert_eq!(Command::read("!undo"), Some(Command::Undo));
    assert_eq!(Command::read("!undo "), None);
    assert_eq!(Command::read("!undone"), None);
}

#[test]
fn test_argument_keeps_inner_whitespace_and_newlines() {
    assert_eq!(
        Command::read("!chat a  b\nc"),
        Some(Command::Chat("a  b\nc".to_string()))
    );
    assert_eq!(
        Command::read("!ask \t spaced"),
        Some(Command::Ask("spaced".to_string()))
    );
}

#[test]
fn test_trailing_whitespace_backtracks_one_character() {
    // Two blanks and nothing else: the second blank becomes the argument.
    assert_eq!(Command::read("!chat  "), Some(Command::Chat(" ".to_string())));
    // A single blank leaves nothing to be the argument.
    assert_eq!(Command::read("!ask "), None);
}

#[test]
fn test_marker_word_must_match_exactly(){
    assert_eq!(Command::read("!chats foo"), None);
    assert_eq!(Command::read("!Chat foo"), None);
    assert_eq!(Command::read("! chat foo"), None);
    assert_eq!(Command::read("!!chat foo"), None);
}
