use chat_session::command::{is_bare_join, parse_command, Command};

#[test]
fn join_with_valid_id_parses() {
    assert!(matches!(parse_command("/join 7"), Command::Join(7)));
    assert!(matches!(parse_command("  /join 42  "), Command::Join(42)));
    assert!(matches!(parse_command("/join +3"), Command::Join(3)));
}

#[test]
fn join_with_invalid_id_reports_the_rest() {
    match parse_command("/join abc") {
        Command::InvalidJoin(rest) => assert_eq!(rest, "abc"),
        other => panic!("expected InvalidJoin, got {:?}", other),
    }
    // the rest is everything after the first space, spaces included
    match parse_command("/join  7") {
        Command::InvalidJoin(rest) => assert_eq!(rest, " 7"),
        other => panic!("expected InvalidJoin, got {:?}", other),
    }
    match parse_command("/join -1") {
        Command::InvalidJoin(rest) => assert_eq!(rest, "-1"),
        other => panic!("expected InvalidJoin, got {:?}", other),
    }
    match parse_command("/join 1 2") {
        Command::InvalidJoin(rest) => assert_eq!(rest, "1 2"),
        other => panic!("expected InvalidJoin, got {:?}", other),
    }
}

#[test]
fn unknown_commands_keep_the_trimmed_line() {
    match parse_command("/leave now") {
        Command::Unknown(text) => assert_eq!(text, "/leave now"),
        other => panic!("expected Unknown, got {:?}", other),
    }
    match parse_command("  /x  ") {
        Command::Unknown(text) => assert_eq!(text, "/x"),
        other => panic!("expected Unknown, got {:?}", other),
    }
    // a tab is not the space the command grammar splits on
    match parse_command("/join\t7") {
        Command::Unknown(text) => assert_eq!(text, "/join\t7"),
        other => panic!("expected Unknown, got {:?}", other),
    }
}

#[test]
fn text_without_slash_is_plain_content() {
    match parse_command("  hello there  ") {
        Command::Plain(text) => assert_eq!(text, "hello there"),
        other => panic!("expected Plain, got {:?}", other),
    }
    match parse_command("") {
        Command::Plain(text) => assert_eq!(text, ""),
        other => panic!("expected Plain, got {:?}", other),
    }
}

#[test]
fn bare_join_is_detected() {
    assert!(is_bare_join("/join"));
    assert!(is_bare_join("  /join  "));
    assert!(!is_bare_join("/join 7"));
    assert!(!is_bare_join("/joinx"));
    assert!(!is_bare_join("join"));
    assert!(!is_bare_join(""));
}
