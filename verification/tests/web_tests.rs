use gib::web::{parse_session_flag, session_token, Header, Msg, SessionToken};

#[test]
fn session_flags() {
    assert_eq!(parse_session_flag("true"), Some(true));
    assert_eq!(parse_session_flag("false"), Some(false));
    assert_eq!(parse_session_flag("True"), None);
    assert_eq!(parse_session_flag(""), None);
}

#[test]
fn header_from_session() {
    let h = Header::create(Some("12".to_string()), Some(true));
    assert_eq!(h.auth_token, "12");
    assert!(h.logged_in);
    let h = Header::create(None, None);
    assert_eq!(h.auth_token, "");
    assert!(!h.logged_in);
}

#[test]
fn header_links() {
    let h = Header::create(None, Some(false));
    let links = h.links();
    assert_eq!(links.len(), 2);
    assert_eq!((links[0].label.as_str(), links[0].href.as_str()), ("Home", "/"));
    assert_eq!((links[1].label.as_str(), links[1].href.as_str()), ("Login", "/account/login.html"));
    let h = Header::create(Some("1".to_string()), Some(true));
    let links = h.links();
    assert_eq!(links.len(), 3);
    assert_eq!((links[1].label.as_str(), links[1].href.as_str()), ("Account", "/account"));
    assert_eq!((links[2].label.as_str(), links[2].href.as_str(), links[2].logs_out), ("Logout", "javascript: void(0)", true));
}

#[test]
fn logout_clears_the_session() {
    let mut h = Header::create(Some("1".to_string()), Some(true));
    let (render, writes) = h.update(Msg::Logout);
    assert!(render);
    assert_eq!(h.auth_token, "");
    assert!(!h.logged_in);
    assert_eq!((writes[0].key.as_str(), writes[0].value.as_str()), ("loggedIn", "false"));
    assert_eq!((writes[1].key.as_str(), writes[1].value.as_str()), ("authToken", ""));
    assert_eq!(h.links().len(), 2);
    assert!(!h.change());
}

#[test]
fn session_tokens() {
    assert!(matches!(session_token(None), SessionToken::NoSession));
    assert!(matches!(session_token(Some("42".to_string())), SessionToken::Token(42)));
    assert!(matches!(session_token(Some("-7".to_string())), SessionToken::Token(-7)));
    assert!(matches!(session_token(Some("abc".to_string())), SessionToken::Malformed));
    assert!(matches!(session_token(Some("99999999999".to_string())), SessionToken::Malformed));
}

#[test]
fn session_token_edges() {
    assert!(matches!(session_token(Some("+3".to_string())), SessionToken::Token(3)));
    assert!(matches!(session_token(Some("-2147483648".to_string())), SessionToken::Token(i32::MIN)));
    assert!(matches!(session_token(Some("2147483647".to_string())), SessionToken::Token(i32::MAX)));
    assert!(matches!(session_token(Some("2147483648".to_string())), SessionToken::Malformed));
    assert!(matches!(session_token(Some(" 1".to_string())), SessionToken::Malformed));
    assert!(matches!(session_token(Some("".to_string())), SessionToken::Malformed));
    assert!(matches!(session_token(Some("-".to_string())), SessionToken::Malformed));
    assert!(matches!(session_token(Some("+".to_string())), SessionToken::Malformed));
}

#[test]
fn session_flag_edges() {
    assert_eq!(parse_session_flag("tru"), None);
    assert_eq!(parse_session_flag("truee"), None);
    assert_eq!(parse_session_flag(" true"), None);
    assert_eq!(parse_session_flag("FALSE"), None);
    assert_eq!(parse_session_flag("fals"), None);
}
