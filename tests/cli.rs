use chatgpt_cli::{
    is_clear_flag, is_help_flag, parse_api_key, parse_args, parse_input, trimmed, Command, Message,
    Role, UserInput,
};

fn args(a: &[&str]) -> Vec<String> {
    a.iter().map(|s| s.to_string()).collect()
}

#[test]
fn help_flags_any_case() {
    for a in ["--help", "-h", "--HELP", "-H", "--HeLp"] {
        assert!(is_help_flag(a), "{}", a);
    }
    for a in ["help", "--hel", "-hh", "", "--help "] {
        assert!(!is_help_flag(a), "{}", a);
    }
}

#[test]
fn clear_flags_any_case() {
    assert!(is_clear_flag("--clear"));
    assert!(is_clear_flag("-C"));
    assert!(is_clear_flag("--CLEAR"));
    assert!(!is_clear_flag("--clean"));
}

#[test]
fn parse_args_picks_command() {
    assert_eq!(parse_args(&args(&["chatgpt", "-c", "--help"])), Command::Help);
    assert_eq!(parse_args(&args(&["chatgpt", "-c"])), Command::Clear);
    assert_eq!(
        parse_args(&args(&["chatgpt", "  How do I sort?\n"])),
        Command::Chat(Some("How do I sort?".to_string()))
    );
    assert_eq!(parse_args(&args(&["chatgpt"])), Command::Chat(None));
    assert_eq!(parse_args(&args(&["chatgpt", "a", "b"])), Command::Chat(None));
}

#[test]
fn input_lines() {
    assert_eq!(parse_input("exit\n"), UserInput::Exit);
    assert_eq!(parse_input("  exit  "), UserInput::Exit);
    assert_eq!(parse_input(" \n"), UserInput::Empty);
    assert_eq!(parse_input("exits\n"), UserInput::Prompt("exits".to_string()));
    assert_eq!(parse_input("EXIT"), UserInput::Prompt("EXIT".to_string()));
    assert_eq!(parse_input("  hi there \n"), UserInput::Prompt("hi there".to_string()));
}

#[test]
fn api_keys() {
    assert_eq!(parse_api_key("  sk-abc123\n"), Some("sk-abc123".to_string()));
    assert_eq!(parse_api_key("sk-\n"), None);
    assert_eq!(parse_api_key("abc-123"), None);
    assert_eq!(parse_api_key("sk-x"), Some("sk-x".to_string()));
    assert_eq!(parse_api_key(""), None);
}

#[test]
fn trimming_uses_unicode_whitespace() {
    assert_eq!(trimmed("\u{3000} a b \u{85}\t"), "a b");
    assert_eq!(trimmed("   "), "");
    assert_eq!(trimmed("x"), "x");
}

#[test]
fn message_constructors() {
    let u = Message::user("q".to_string());
    assert_eq!(u.role, Some(Role::User));
    assert_eq!(u.content.as_deref(), Some("q"));
    let a = Message::assistant(String::new());
    assert_eq!(a.role, Some(Role::Assistant));
    assert_eq!(a.content.as_deref(), Some(""));
}
