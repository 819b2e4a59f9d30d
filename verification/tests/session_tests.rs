use gib::login::{
    login_start, login_step, logout_start, logout_step, AuthRequest, LogOutRequest, LoginAction, LoginEvent, LoginState,
    LogoutAction, LogoutEvent, LogoutState,
};
use gib::models::{User, UserToken};
use gib::response::{Body, ContentType, Response};

fn page(token: &str, logged_in: &str) -> String {
    format!(
        "<!doctype html>
<html lang=\"en\">
<head>
    <meta charset=\"UTF-8\">
    <meta name=\"viewport\"
          content=\"width=device-width, user-scalable=no, initial-scale=1.0, maximum-scale=1.0, minimum-scale=1.0\">
    <meta http-equiv=\"X-UA-Compatible\" content=\"ie=edge\">
    <meta http-equiv=\"refresh\" content=\"0; url=/\">
    <title>Please Wait</title>
</head>
<body>
    <script>
        sessionStorage[\"authToken\"] = \"{}\";
        sessionStorage[\"loggedIn\"] = \"{}\";
    </script>
</body>
</html>",
        token, logged_in
    )
}

fn user(id: i32) -> User {
    User { id, username: "octo".to_string(), email: "o@x".to_string(), avatar_url: "http://a".to_string() }
}

fn login_text(a: &LoginAction) -> (u16, ContentType, String) {
    match a {
        LoginAction::Respond(Response { status, content_type, body: Body::Text(t) }) => (*status, *content_type, t.clone()),
        _ => panic!("expected a text response"),
    }
}

fn logout_text(a: &LogoutAction) -> (u16, ContentType, String) {
    match a {
        LogoutAction::Respond(Response { status, content_type, body: Body::Text(t) }) => (*status, *content_type, t.clone()),
        _ => panic!("expected a text response"),
    }
}

#[test]
fn logout_deletes_the_found_token() {
    let (s, a) = logout_start(LogOutRequest { auth_token: 42 });
    assert!(matches!(a, LogoutAction::Connect));
    let (s, a) = logout_step(s, LogoutEvent::Connected { connection: Ok(()) });
    assert!(matches!(a, LogoutAction::FindToken { token_id: 42 }));
    let (s, a) = logout_step(s, LogoutEvent::TokensFound { tokens: Some(vec![UserToken { id: 42, user_id: 5 }]) });
    assert!(matches!(a, LogoutAction::DeleteToken { token_id: 42 }));
    let (s, a) = logout_step(s, LogoutEvent::TokenDeleted);
    assert!(matches!(s, LogoutState::Finished));
    assert_eq!(logout_text(&a), (200, ContentType::Unspecified, page("", "false")));
}

#[test]
fn logout_without_token_still_signs_out() {
    let (_, a) = logout_step(LogoutState::Finding, LogoutEvent::TokensFound { tokens: Some(vec![]) });
    assert_eq!(logout_text(&a), (200, ContentType::Unspecified, page("", "false")));
    let (_, a) = logout_step(LogoutState::Finding, LogoutEvent::TokensFound { tokens: None });
    assert!(matches!(a, LogoutAction::Abort));
    let (_, a) = logout_step(LogoutState::Connecting { token_id: 1 }, LogoutEvent::Connected { connection: Err("no db".to_string()) });
    assert_eq!(logout_text(&a), (500, ContentType::Json, "{\"status\": 3, error: \"Database connection error no db\" ".to_string()));
}

#[test]
fn login_needs_a_client_secret() {
    let (s, a) = login_start(AuthRequest { code: "c".to_string() }, None);
    assert!(matches!(s, LoginState::Finished));
    assert_eq!(
        login_text(&a),
        (500, ContentType::Unspecified, "{\"status\": 8, \"error\": \"Error getting client secret for github authentication, please set CLIENT_SECRET env var\"}".to_string())
    );
}

#[test]
fn login_trades_the_code() {
    let (_, a) = login_start(AuthRequest { code: "abc".to_string() }, Some("s3cr3t".to_string()));
    match a {
        LoginAction::Post { url, headers } => {
            assert_eq!(url, "https://github.com/login/oauth/access_token?client_id=3858b07a17ad5a97dd40&client_secret=s3cr3t&code=abc");
            assert_eq!(headers.len(), 2);
            assert_eq!((headers[0].name.as_str(), headers[0].value.as_str()), ("User-Agent", "gib-pm"));
            assert_eq!((headers[1].name.as_str(), headers[1].value.as_str()), ("Accept", "application/json"));
        }
        _ => panic!("expected a POST"),
    }
}

#[test]
fn login_github_errors() {
    let (_, a) = login_step(LoginState::RequestingToken, LoginEvent::TokenReply { token_reply: Err("Timeout".to_string()) });
    assert_eq!(login_text(&a), (500, ContentType::Json, "{\"status\": 8, \"error\": \"Error with GitHub: \"Timeout\"\"}".to_string()));
    let (_, a) = login_step(LoginState::ParsingToken, LoginEvent::TokenParsed { access_token: Err("Eof".to_string()) });
    assert_eq!(login_text(&a), (500, ContentType::Json, "{\"status\": 8, \"error\": 'Error with GitHub: Eof'}".to_string()));
    let (_, a) = login_step(LoginState::RequestingUser, LoginEvent::UserReply { user_reply: Err("Eof".to_string()) });
    assert_eq!(login_text(&a), (500, ContentType::Json, "{\"status\": 8, \"error\": 'Error with GitHub: Eof'}".to_string()));
    let (_, a) = login_step(LoginState::RequestingToken, LoginEvent::TokenReply { token_reply: Ok(vec![0xff]) });
    assert!(matches!(a, LoginAction::Abort));
}

#[test]
fn login_asks_for_the_user_with_the_token() {
    let (s, a) = login_step(LoginState::RequestingToken, LoginEvent::TokenReply { token_reply: Ok(b"{\"access_token\":\"t\"}".to_vec()) });
    assert!(matches!(a, LoginAction::ParseToken { ref text } if text == "{\"access_token\":\"t\"}"));
    let (_, a) = login_step(s, LoginEvent::TokenParsed { access_token: Ok("tok".to_string()) });
    match a {
        LoginAction::Get { url, headers } => {
            assert_eq!(url, "https://api.github.com/user");
            assert_eq!((headers[0].name.as_str(), headers[0].value.as_str()), ("Authorization", "token tok"));
            assert_eq!((headers[1].name.as_str(), headers[1].value.as_str()), ("User-Agent", "gib-pm"));
        }
        _ => panic!("expected a GET"),
    }
}

#[test]
fn login_issues_token_for_existing_user() {
    let (s, a) = login_step(LoginState::ParsingUser, LoginEvent::UserParsed { parsed_user: Some(user(9)) });
    assert!(matches!(a, LoginAction::Connect));
    let (s, a) = login_step(s, LoginEvent::Connected { connection: Ok(()) });
    assert!(matches!(a, LoginAction::FindUser { user_id: 9 }));
    let (s, a) = login_step(s, LoginEvent::UsersFound { users: Ok(vec![user(9)]) });
    assert!(matches!(a, LoginAction::CreateToken { user_id: 9 }));
    let (s, a) = login_step(s, LoginEvent::TokenCreated { created_token: Some(UserToken { id: 77, user_id: 9 }) });
    assert!(matches!(s, LoginState::Finished));
    assert_eq!(login_text(&a), (200, ContentType::Unspecified, page("77", "true")));
}

#[test]
fn login_creates_missing_user_first() {
    let (s, a) = login_step(LoginState::FindingUser { user: user(9) }, LoginEvent::UsersFound { users: Ok(vec![]) });
    assert!(matches!(a, LoginAction::CreateUser { ref user } if user.id == 9));
    let (_, a) = login_step(s, LoginEvent::UserCreated { created_user: Some(user(10)) });
    assert!(matches!(a, LoginAction::CreateToken { user_id: 10 }));
    let (_, a) = login_step(LoginState::FindingUser { user: user(9) }, LoginEvent::UsersFound { users: Err("bad".to_string()) });
    assert_eq!(login_text(&a), (500, ContentType::Json, "{\"status\": 6, error: \"Database error bad\" ".to_string()));
    let (_, a) = login_step(LoginState::CreatingToken, LoginEvent::TokenCreated { created_token: None });
    assert!(matches!(a, LoginAction::Abort));
}

#[test]
fn logging_out_twice_answers_the_same_and_deletes_once() {
    let mut deletes = 0;
    let mut answers = Vec::new();
    for found in [vec![UserToken { id: 42, user_id: 5 }], vec![]] {
        let (s, _) = logout_start(LogOutRequest { auth_token: 42 });
        let (s, _) = logout_step(s, LogoutEvent::Connected { connection: Ok(()) });
        let (mut s, mut a) = logout_step(s, LogoutEvent::TokensFound { tokens: Some(found) });
        if let LogoutAction::DeleteToken { token_id } = a {
            assert_eq!(token_id, 42);
            deletes += 1;
            let next = logout_step(s, LogoutEvent::TokenDeleted);
            s = next.0;
            a = next.1;
        }
        assert!(matches!(s, LogoutState::Finished));
        answers.push(logout_text(&a));
    }
    assert_eq!(deletes, 1);
    assert_eq!(answers[0], answers[1]);
    assert_eq!(answers[0], (200, ContentType::Unspecified, page("", "false")));
}
