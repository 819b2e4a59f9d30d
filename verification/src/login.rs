//! `GET /login/oauth` and `GET /logout`: signing in with GitHub, and
//! signing out.
//!
//! Both handlers are state machines that the server drives: it performs the
//! HTTP requests and database work, and reports what came of them.

use vstd::prelude::*;
use vstd::utf8::{decode_utf8, valid_utf8};
use crate::archive::utf8_to_string;
use crate::models::{User, UserToken};
use crate::response::{concat2, concat3, decimal, int_decimal, is_text_response, text_response, ContentType, Response};

verus! {

/// The query of `GET /login/oauth`: the code GitHub handed to the browser.
pub struct AuthRequest {
    pub code: String,
}

/// The query of `GET /logout`: the token to revoke.
pub struct LogOutRequest {
    pub auth_token: i32,
}

/// An HTTP header: name and value.
pub struct Header {
    pub name: String,
    pub value: String,
}

/// The answer with the database connection error.
pub open spec fn session_connection_failed_body(e: Seq<char>) -> Seq<char> {
    "{\"status\": 3, error: \"Database connection error "@ + e + "\" "@
}

/// The page that stores the session in the browser and returns to `/`.
pub open spec fn session_page(token: Seq<char>, logged_in: Seq<char>) -> Seq<char> {
    "<!doctype html>
<html lang=\"en\">
<head>
    <meta charset=\"UTF-8\">
    <meta name=\"viewport\"
          content=\"width=device-width, user-scalable=no, initial-scale=1.0, maximum-scale=1.0, minimum-scale=1.0\">
    <meta http-equiv=\"X-UA-Compatible\" content=\"ie=edge\">
    <meta http-equiv=\"refresh\" content=\"0; url=/\">
    <title>Please Wait</title>
</head>
<body>
    <script>
        sessionStorage[\"authToken\"] = \""@ + token + "\";
        sessionStorage[\"loggedIn\"] = \""@ + logged_in + "\";
    </script>
</body>
</html>"@
}

/// The page that signs the browser out.
pub open spec fn logout_page() -> Seq<char> {
    session_page(Seq::empty(), "false"@)
}

/// The page that signs the browser in with `token`.
pub open spec fn login_page(token: i32) -> Seq<char> {
    session_page(int_decimal(token as int), "true"@)
}

/// Builds the session page.
fn make_session_page(token: &str, logged_in: &str) -> (r: String)
    ensures
        r@ == session_page(token@, logged_in@),
{
    let head = "<!doctype html>
<html lang=\"en\">
<head>
    <meta charset=\"UTF-8\">
    <meta name=\"viewport\"
          content=\"width=device-width, user-scalable=no, initial-scale=1.0, maximum-scale=1.0, minimum-scale=1.0\">
    <meta http-equiv=\"X-UA-Compatible\" content=\"ie=edge\">
    <meta http-equiv=\"refresh\" content=\"0; url=/\">
    <title>Please Wait</title>
</head>
<body>
    <script>
        sessionStorage[\"authToken\"] = \"";
    let middle = "\";
        sessionStorage[\"loggedIn\"] = \"";
    let tail = "\";
    </script>
</body>
</html>";
    String::from_str(head).concat(token).concat(middle).concat(logged_in).concat(tail)
}

// ---------------------------------------------------------------------------
// Logout

/// Where a logout stands.
pub enum LogoutState {
    Connecting { token_id: i32 },
    Finding,
    Deleting,
    Finished,
}

/// What the server reports back during a logout.
pub enum LogoutEvent {
    /// The database connection, or the error's text.
    Connected { connection: Result<(), String> },
    /// The tokens with the id, or `None` where the query failed.
    TokensFound { tokens: Option<Vec<UserToken>> },
    /// The token was deleted (whatever the database said).
    TokenDeleted,
}

/// What the server has to do next during a logout.
pub enum LogoutAction {
    Connect,
    /// Find the tokens with this id.
    FindToken { token_id: i32 },
    /// Delete the token with this id.
    DeleteToken { token_id: i32 },
    Respond(Response),
    Abort,
    Nothing,
}

/// The sign-out answer.
pub open spec fn is_logout_reply(a: LogoutAction) -> bool {
    a matches LogoutAction::Respond(r) && is_text_response(r, 200, ContentType::Unspecified, logout_page())
}

/// Starts a logout of `request.auth_token`.
pub fn logout_start(request: LogOutRequest) -> (r: (LogoutState, LogoutAction))
    ensures
        r.0 == (LogoutState::Connecting { token_id: request.auth_token }),
        r.1 is Connect,
{
    (LogoutState::Connecting { token_id: request.auth_token }, LogoutAction::Connect)
}

/// One step of a logout.
pub open spec fn logout_transition(s: LogoutState, e: LogoutEvent, s2: LogoutState, a: LogoutAction) -> bool {
    match (s, e) {
        (LogoutState::Connecting { token_id }, LogoutEvent::Connected { connection }) => match connection {
            Err(msg) => {
                &&& s2 is Finished
                &&& a matches LogoutAction::Respond(r)
                &&& is_text_response(r, 500, ContentType::Json, session_connection_failed_body(msg@))
            },
            Ok(_) => s2 is Finding && a == (LogoutAction::FindToken { token_id }),
        },
        (LogoutState::Finding, LogoutEvent::TokensFound { tokens }) => match tokens {
            None => s2 is Finished && a is Abort,
            Some(found) => if found.len() > 0 {
                s2 is Deleting && a == (LogoutAction::DeleteToken { token_id: found@[0].id })
            } else {
                s2 is Finished && is_logout_reply(a)
            },
        },
        (LogoutState::Deleting, LogoutEvent::TokenDeleted) => s2 is Finished && is_logout_reply(a),
        (LogoutState::Finished, _) => s2 is Finished && a is Nothing,
        _ => s2 is Finished && a is Abort,
    }
}

/// The sign-out page.
fn logout_reply() -> (a: LogoutAction)
    ensures
        is_logout_reply(a),
{
    let page = make_session_page("", "false");
    proof {
        reveal_strlit("");
        assert(""@ =~= Seq::<char>::empty());
    }
    LogoutAction::Respond(text_response(200, ContentType::Unspecified, page))
}

/// Takes one step of a logout.
pub fn logout_step(state: LogoutState, event: LogoutEvent) -> (r: (LogoutState, LogoutAction))
    ensures
        logout_transition(state, event, r.0, r.1),
{
    match (state, event) {
        (LogoutState::Connecting { token_id }, LogoutEvent::Connected { connection }) => match connection {
            Err(msg) => {
                let body = concat3("{\"status\": 3, error: \"Database connection error ", msg.as_str(), "\" ");
                (LogoutState::Finished, LogoutAction::Respond(text_response(500, ContentType::Json, body)))
            },
            Ok(_) => (LogoutState::Finding, LogoutAction::FindToken { token_id }),
        },
        (LogoutState::Finding, LogoutEvent::TokensFound { tokens }) => match tokens {
            None => (LogoutState::Finished, LogoutAction::Abort),
            Some(found) => {
                if found.len() > 0 {
                    (LogoutState::Deleting, LogoutAction::DeleteToken { token_id: found[0].id })
                } else {
                    (LogoutState::Finished, logout_reply())
                }
            },
        },
        (LogoutState::Deleting, LogoutEvent::TokenDeleted) => (LogoutState::Finished, logout_reply()),
        (LogoutState::Finished, _) => (LogoutState::Finished, LogoutAction::Nothing),
        (_, _) => (LogoutState::Finished, LogoutAction::Abort),
    }
}

/// A run of a logout.
pub open spec fn logout_run(states: Seq<LogoutState>, events: Seq<LogoutEvent>, actions: Seq<LogoutAction>) -> bool {
    &&& states.len() == events.len() + 1
    &&& actions.len() == events.len()
    &&& forall|i: int| 0 <= i < events.len() ==> #[trigger] logout_transition(states[i], events[i], states[i + 1], actions[i])
}

proof fn lemma_logout_step(states: Seq<LogoutState>, events: Seq<LogoutEvent>, actions: Seq<LogoutAction>, i: int)
    requires
        logout_run(states, events, actions),
        0 <= i < events.len(),
    ensures
        logout_transition(states[i], events[i], states[i + 1], actions[i]),
{
}

proof fn lemma_logout_stays_finished(states: Seq<LogoutState>, events: Seq<LogoutEvent>, actions: Seq<LogoutAction>, i: int, j: int)
    requires
        logout_run(states, events, actions),
        0 <= i <= j < states.len(),
        states[i] is Finished,
    ensures
        states[j] is Finished,
        j < actions.len() ==> actions[j] is Nothing,
    decreases j - i,
{
    if i < j {
        lemma_logout_step(states, events, actions, i);
        lemma_logout_stays_finished(states, events, actions, i + 1, j);
    } else if j < actions.len() {
        lemma_logout_step(states, events, actions, j);
    }
}

/// An action that ends a logout request.
pub open spec fn logout_ends_request(a: LogoutAction) -> bool {
    a is Respond || a is Abort
}

/// Law: a logout request is answered at most once.
pub proof fn law_logout_answered_at_most_once(
    states: Seq<LogoutState>,
    events: Seq<LogoutEvent>,
    actions: Seq<LogoutAction>,
    i: int,
    j: int,
)
    requires
        logout_run(states, events, actions),
        0 <= i < j < actions.len(),
        logout_ends_request(actions[i]),
    ensures
        !logout_ends_request(actions[j]),
{
    lemma_logout_step(states, events, actions, i);
    lemma_logout_stays_finished(states, events, actions, i + 1, j);
}

/// Law: a logout deletes at most one token, and only the token whose id
/// the request named: the first one the database finds under that id.
pub proof fn law_logout_deletes_only_requested_token(
    states: Seq<LogoutState>,
    events: Seq<LogoutEvent>,
    actions: Seq<LogoutAction>,
    token_id: i32,
    k: int,
)
    requires
        logout_run(states, events, actions),
        states[0] == (LogoutState::Connecting { token_id }),
        0 <= k < actions.len(),
        actions[k] is DeleteToken,
    ensures
        k == 1,
        actions[0] == (LogoutAction::FindToken { token_id }),
        events[1] matches LogoutEvent::TokensFound { tokens: Some(found) } && found.len() > 0
            && actions[1] == (LogoutAction::DeleteToken { token_id: found@[0].id }),
{
    lemma_logout_step(states, events, actions, 0);
    if k == 0 {
        return;
    }
    if states[1] is Finished {
        lemma_logout_stays_finished(states, events, actions, 1, k);
        return;
    }
    lemma_logout_step(states, events, actions, 1);
    if k > 1 {
        if states[2] is Finished {
            lemma_logout_stays_finished(states, events, actions, 2, k);
        } else {
            lemma_logout_step(states, events, actions, 2);
            if k > 2 {
                lemma_logout_stays_finished(states, events, actions, 3, k);
            }
        }
    }
}

/// Law: a logout that succeeds always answers with the one sign-out page.
/// In any run, every answer with status 200 is that page, whatever the token
/// and whatever the database found.
pub proof fn law_logout_success_is_sign_out_page(
    states: Seq<LogoutState>,
    events: Seq<LogoutEvent>,
    actions: Seq<LogoutAction>,
    k: int,
)
    requires
        logout_run(states, events, actions),
        0 <= k < actions.len(),
        actions[k] matches LogoutAction::Respond(r) && r.status == 200,
    ensures
        is_logout_reply(actions[k]),
{
    lemma_logout_step(states, events, actions, k);
}

/// Law: logging out twice answers the same and deletes nothing more. When a
/// first logout of a token succeeded, and a second logout of the same token
/// succeeded after the database found no token under the id any more, then
/// both answers are the same sign-out page and the second run asks to delete
/// no token.
pub proof fn law_logout_twice(
    states: Seq<LogoutState>,
    events: Seq<LogoutEvent>,
    actions: Seq<LogoutAction>,
    i: int,
    states2: Seq<LogoutState>,
    events2: Seq<LogoutEvent>,
    actions2: Seq<LogoutAction>,
    j: int,
    token_id: i32,
)
    requires
        logout_run(states, events, actions),
        states[0] == (LogoutState::Connecting { token_id }),
        0 <= i < actions.len(),
        actions[i] matches LogoutAction::Respond(r) && r.status == 200,
        logout_run(states2, events2, actions2),
        states2[0] == (LogoutState::Connecting { token_id }),
        events2.len() > 1,
        events2[1] matches LogoutEvent::TokensFound { tokens: Some(found) } && found.len() == 0,
        0 <= j < actions2.len(),
        actions2[j] matches LogoutAction::Respond(r) && r.status == 200,
    ensures
        is_logout_reply(actions[i]),
        is_logout_reply(actions2[j]),
        forall|k: int| 0 <= k < actions2.len() ==> !(#[trigger] actions2[k] is DeleteToken),
{
    law_logout_success_is_sign_out_page(states, events, actions, i);
    law_logout_success_is_sign_out_page(states2, events2, actions2, j);
    assert forall|k: int| 0 <= k < actions2.len() implies !(#[trigger] actions2[k] is DeleteToken) by {
        if actions2[k] is DeleteToken {
            law_logout_deletes_only_requested_token(states2, events2, actions2, token_id, k);
        }
    }
}

// ---------------------------------------------------------------------------
// Login

/// The GitHub endpoint that trades the browser's code for an access token,
/// for this application, with `secret` and `code` filled in.
pub open spec fn access_token_url(secret: Seq<char>, code: Seq<char>) -> Seq<char> {
    "https://github.com/login/oauth/access_token?client_id=3858b07a17ad5a97dd40&client_secret="@ + secret + "&code="@ + code
}

/// The GitHub endpoint that describes the signed-in user.
pub open spec fn user_url() -> Seq<char> {
    "https://api.github.com/user"@
}

/// The header has this name and value.
pub open spec fn is_header(h: Header, name: Seq<char>, value: Seq<char>) -> bool {
    h.name@ == name && h.value@ == value
}

/// Where a login stands.
pub enum LoginState {
    /// Waiting for GitHub's answer to the code.
    RequestingToken,
    /// Waiting for that answer to be parsed.
    ParsingToken,
    /// Waiting for GitHub's description of the user.
    RequestingUser,
    /// Waiting for that description to be parsed.
    ParsingUser,
    /// Waiting for a database connection; `user` is GitHub's description.
    Connecting { user: User },
    /// Waiting for the users with the GitHub user's id.
    FindingUser { user: User },
    /// Waiting for the user record to be created.
    CreatingUser,
    /// Waiting for the token to be created.
    CreatingToken,
    Finished,
}

/// What the server reports back during a login.
pub enum LoginEvent {
    /// GitHub's answer to the code (its body), or the error's debug text.
    TokenReply { token_reply: Result<Vec<u8>, String> },
    /// The access token from that answer, or the parse error's debug text.
    TokenParsed { access_token: Result<String, String> },
    /// GitHub's description of the user (its body), or the error's debug text.
    UserReply { user_reply: Result<Vec<u8>, String> },
    /// The parsed user, or `None` where the description did not parse.
    UserParsed { parsed_user: Option<User> },
    /// The database connection, or the error's text.
    Connected { connection: Result<(), String> },
    /// The users with the id, or the error's text.
    UsersFound { users: Result<Vec<User>, String> },
    /// The created user, or `None` where creating it failed.
    UserCreated { created_user: Option<User> },
    /// The created token, or `None` where creating it failed.
    TokenCreated { created_token: Option<UserToken> },
}

/// What the server has to do next during a login.
pub enum LoginAction {
    /// Send a `POST` to `url` with these headers; report the body.
    Post { url: String, headers: Vec<Header> },
    /// Send a `GET` to `url` with these headers; report the body.
    Get { url: String, headers: Vec<Header> },
    /// Parse `text` as GitHub's access token answer.
    ParseToken { text: String },
    /// Parse `text` as GitHub's description of a user.
    ParseUser { text: String },
    Connect,
    /// Find the users with this id.
    FindUser { user_id: i32 },
    /// Create this user record.
    CreateUser { user: User },
    /// Create a token for this user.
    CreateToken { user_id: i32 },
    Respond(Response),
    Abort,
    Nothing,
}

/// The answer when the client secret is not configured.
pub open spec fn missing_secret_body() -> Seq<char> {
    "{\"status\": 8, \"error\": \"Error getting client secret for github authentication, please set CLIENT_SECRET env var\"}"@
}

/// The answer when GitHub cannot be reached for the token.
pub open spec fn github_unreachable_body(e: Seq<char>) -> Seq<char> {
    "{\"status\": 8, \"error\": \"Error with GitHub: \""@ + e + "\"\"}"@
}

/// The answer when GitHub's token answer does not parse, or the user
/// cannot be asked for.
pub open spec fn github_error_body(e: Seq<char>) -> Seq<char> {
    "{\"status\": 8, \"error\": 'Error with GitHub: "@ + e + "'}"@
}

/// The answer when the user lookup fails.
pub open spec fn user_lookup_failed_body(e: Seq<char>) -> Seq<char> {
    "{\"status\": 6, error: \"Database error "@ + e + "\" "@
}

/// The action answers with status `status`, content type `ct` and `text`.
pub open spec fn login_replies(a: LoginAction, status: u16, ct: ContentType, text: Seq<char>) -> bool {
    a matches LoginAction::Respond(r) && is_text_response(r, status, ct, text)
}

/// How a login starts: `secret` is the configured client secret, if any.
pub open spec fn login_start_spec(request: AuthRequest, secret: Option<String>, s: LoginState, a: LoginAction) -> bool {
    match secret {
        None => s is Finished && login_replies(a, 500, ContentType::Unspecified, missing_secret_body()),
        Some(key) => {
            &&& s is RequestingToken
            &&& a matches LoginAction::Post { url, headers }
            &&& url@ == access_token_url(key@, request.code@)
            &&& headers.len() == 2
            &&& is_header(headers@[0], "User-Agent"@, "gib-pm"@)
            &&& is_header(headers@[1], "Accept"@, "application/json"@)
        },
    }
}

/// A header.
fn header(name: &str, value: &str) -> (h: Header)
    ensures
        is_header(h, name@, value@),
{
    Header { name: String::from_str(name), value: String::from_str(value) }
}

/// Starts a login with the code in `request`.
pub fn login_start(request: AuthRequest, secret: Option<String>) -> (r: (LoginState, LoginAction))
    ensures
        login_start_spec(request, secret, r.0, r.1),
{
    match secret {
        None => {
            let body = String::from_str("{\"status\": 8, \"error\": \"Error getting client secret for github authentication, please set CLIENT_SECRET env var\"}");
            (LoginState::Finished, LoginAction::Respond(text_response(500, ContentType::Unspecified, body)))
        },
        Some(key) => {
            let url = String::from_str("https://github.com/login/oauth/access_token?client_id=3858b07a17ad5a97dd40&client_secret=")
                .concat(key.as_str()).concat("&code=").concat(request.code.as_str());
            let mut headers = Vec::new();
            headers.push(header("User-Agent", "gib-pm"));
            headers.push(header("Accept", "application/json"));
            (LoginState::RequestingToken, LoginAction::Post { url, headers })
        },
    }
}

/// One step of a login.
pub open spec fn login_transition(s: LoginState, e: LoginEvent, s2: LoginState, a: LoginAction) -> bool {
    match (s, e) {
        (LoginState::RequestingToken, LoginEvent::TokenReply { token_reply }) => match token_reply {
            Err(msg) => s2 is Finished && login_replies(a, 500, ContentType::Json, github_unreachable_body(msg@)),
            Ok(bytes) => if valid_utf8(bytes@) {
                &&& s2 is ParsingToken
                &&& a matches LoginAction::ParseToken { text }
                &&& text@ == decode_utf8(bytes@)
            } else {
                s2 is Finished && a is Abort
            },
        },
        (LoginState::ParsingToken, LoginEvent::TokenParsed { access_token }) => match access_token {
            Err(msg) => s2 is Finished && login_replies(a, 500, ContentType::Json, github_error_body(msg@)),
            Ok(t) => {
                &&& s2 is RequestingUser
                &&& a matches LoginAction::Get { url, headers }
                &&& url@ == user_url()
                &&& headers.len() == 2
                &&& is_header(headers@[0], "Authorization"@, "token "@ + t@)
                &&& is_header(headers@[1], "User-Agent"@, "gib-pm"@)
            },
        },
        (LoginState::RequestingUser, LoginEvent::UserReply { user_reply }) => match user_reply {
            Err(msg) => s2 is Finished && login_replies(a, 500, ContentType::Json, github_error_body(msg@)),
            Ok(bytes) => if valid_utf8(bytes@) {
                &&& s2 is ParsingUser
                &&& a matches LoginAction::ParseUser { text }
                &&& text@ == decode_utf8(bytes@)
            } else {
                s2 is Finished && a is Abort
            },
        },
        (LoginState::ParsingUser, LoginEvent::UserParsed { parsed_user }) => match parsed_user {
            None => s2 is Finished && a is Abort,
            Some(u) => s2 == (LoginState::Connecting { user: u }) && a is Connect,
        },
        (LoginState::Connecting { user }, LoginEvent::Connected { connection }) => match connection {
            Err(msg) => s2 is Finished && login_replies(a, 500, ContentType::Json, session_connection_failed_body(msg@)),
            Ok(_) => s2 == (LoginState::FindingUser { user }) && a == (LoginAction::FindUser { user_id: user.id }),
        },
        (LoginState::FindingUser { user }, LoginEvent::UsersFound { users }) => match users {
            Err(msg) => s2 is Finished && login_replies(a, 500, ContentType::Json, user_lookup_failed_body(msg@)),
            Ok(found) => if found.len() == 0 {
                s2 is CreatingUser && a == (LoginAction::CreateUser { user })
            } else {
                s2 is CreatingToken && a == (LoginAction::CreateToken { user_id: found@[0].id })
            },
        },
        (LoginState::CreatingUser, LoginEvent::UserCreated { created_user }) => match created_user {
            None => s2 is Finished && a is Abort,
            Some(u) => s2 is CreatingToken && a == (LoginAction::CreateToken { user_id: u.id }),
        },
        (LoginState::CreatingToken, LoginEvent::TokenCreated { created_token }) => match created_token {
            None => s2 is Finished && a is Abort,
            Some(t) => s2 is Finished && login_replies(a, 200, ContentType::Unspecified, login_page(t.id)),
        },
        (LoginState::Finished, _) => s2 is Finished && a is Nothing,
        _ => s2 is Finished && a is Abort,
    }
}

/// A JSON response.
fn login_json(status: u16, text: String) -> (a: LoginAction)
    ensures
        login_replies(a, status, ContentType::Json, text@),
{
    LoginAction::Respond(text_response(status, ContentType::Json, text))
}

/// Takes one step of a login.
pub fn login_step(state: LoginState, event: LoginEvent) -> (r: (LoginState, LoginAction))
    ensures
        login_transition(state, event, r.0, r.1),
{
    match (state, event) {
        (LoginState::RequestingToken, LoginEvent::TokenReply { token_reply }) => match token_reply {
            Err(msg) => (LoginState::Finished, login_json(500, concat3("{\"status\": 8, \"error\": \"Error with GitHub: \"", msg.as_str(), "\"\"}"))),
            Ok(bytes) => match utf8_to_string(bytes) {
                Some(text) => (LoginState::ParsingToken, LoginAction::ParseToken { text }),
                None => (LoginState::Finished, LoginAction::Abort),
            },
        },
        (LoginState::ParsingToken, LoginEvent::TokenParsed { access_token }) => match access_token {
            Err(msg) => (LoginState::Finished, login_json(500, concat3("{\"status\": 8, \"error\": 'Error with GitHub: ", msg.as_str(), "'}"))),
            Ok(t) => {
                let mut headers = Vec::new();
                let authorization = concat2("token ", t.as_str());
                headers.push(Header { name: String::from_str("Authorization"), value: authorization });
                headers.push(header("User-Agent", "gib-pm"));
                (LoginState::RequestingUser, LoginAction::Get { url: String::from_str("https://api.github.com/user"), headers })
            },
        },
        (LoginState::RequestingUser, LoginEvent::UserReply { user_reply }) => match user_reply {
            Err(msg) => (LoginState::Finished, login_json(500, concat3("{\"status\": 8, \"error\": 'Error with GitHub: ", msg.as_str(), "'}"))),
            Ok(bytes) => match utf8_to_string(bytes) {
                Some(text) => (LoginState::ParsingUser, LoginAction::ParseUser { text }),
                None => (LoginState::Finished, LoginAction::Abort),
            },
        },
        (LoginState::ParsingUser, LoginEvent::UserParsed { parsed_user }) => match parsed_user {
            None => (LoginState::Finished, LoginAction::Abort),
            Some(u) => (LoginState::Connecting { user: u }, LoginAction::Connect),
        },
        (LoginState::Connecting { user }, LoginEvent::Connected { connection }) => match connection {
            Err(msg) => (LoginState::Finished, login_json(500, concat3("{\"status\": 3, error: \"Database connection error ", msg.as_str(), "\" "))),
            Ok(_) => {
                let user_id = user.id;
                (LoginState::FindingUser { user }, LoginAction::FindUser { user_id })
            },
        },
        (LoginState::FindingUser { user }, LoginEvent::UsersFound { users }) => match users {
            Err(msg) => (LoginState::Finished, login_json(500, concat3("{\"status\": 6, error: \"Database error ", msg.as_str(), "\" "))),
            Ok(found) => {
                if found.len() == 0 {
                    (LoginState::CreatingUser, LoginAction::CreateUser { user })
                } else {
                    (LoginState::CreatingToken, LoginAction::CreateToken { user_id: found[0].id })
                }
            },
        },
        (LoginState::CreatingUser, LoginEvent::UserCreated { created_user }) => match created_user {
            None => (LoginState::Finished, LoginAction::Abort),
            Some(u) => (LoginState::CreatingToken, LoginAction::CreateToken { user_id: u.id }),
        },
        (LoginState::CreatingToken, LoginEvent::TokenCreated { created_token }) => match created_token {
            None => (LoginState::Finished, LoginAction::Abort),
            Some(t) => {
                let id = decimal(t.id);
                let page = make_session_page(id.as_str(), "true");
                (LoginState::Finished, LoginAction::Respond(text_response(200, ContentType::Unspecified, page)))
            },
        },
        (LoginState::Finished, _) => (LoginState::Finished, LoginAction::Nothing),
        (_, _) => (LoginState::Finished, LoginAction::Abort),
    }
}

/// A run of a login.
pub open spec fn login_run(states: Seq<LoginState>, events: Seq<LoginEvent>, actions: Seq<LoginAction>) -> bool {
    &&& states.len() == events.len() + 1
    &&& actions.len() == events.len()
    &&& forall|i: int| 0 <= i < events.len() ==> #[trigger] login_transition(states[i], events[i], states[i + 1], actions[i])
}

proof fn lemma_login_step(states: Seq<LoginState>, events: Seq<LoginEvent>, actions: Seq<LoginAction>, i: int)
    requires
        login_run(states, events, actions),
        0 <= i < events.len(),
    ensures
        login_transition(states[i], events[i], states[i + 1], actions[i]),
{
}

proof fn lemma_login_stays_finished(states: Seq<LoginState>, events: Seq<LoginEvent>, actions: Seq<LoginAction>, i: int, j: int)
    requires
        login_run(states, events, actions),
        0 <= i <= j < states.len(),
        states[i] is Finished,
    ensures
        states[j] is Finished,
        j < actions.len() ==> actions[j] is Nothing,
    decreases j - i,
{
    if i < j {
        lemma_login_step(states, events, actions, i);
        lemma_login_stays_finished(states, events, actions, i + 1, j);
    } else if j < actions.len() {
        lemma_login_step(states, events, actions, j);
    }
}

/// An action that ends a login request.
pub open spec fn login_ends_request(a: LoginAction) -> bool {
    a is Respond || a is Abort
}

/// Law: a login request is answered at most once.
pub proof fn law_login_answered_at_most_once(
    states: Seq<LoginState>,
    events: Seq<LoginEvent>,
    actions: Seq<LoginAction>,
    i: int,
    j: int,
)
    requires
        login_run(states, events, actions),
        0 <= i < j < actions.len(),
        login_ends_request(actions[i]),
    ensures
        !login_ends_request(actions[j]),
{
    lemma_login_step(states, events, actions, i);
    lemma_login_stays_finished(states, events, actions, i + 1, j);
}

/// Law: a login creates a token only for the GitHub user it was told
/// about: for the account already stored under that user's id, or, when
/// there is none, for the account just created from GitHub's description.
pub proof fn law_token_goes_to_github_user(
    states: Seq<LoginState>,
    events: Seq<LoginEvent>,
    actions: Seq<LoginAction>,
    k: int,
)
    requires
        login_run(states, events, actions),
        states[0] is RequestingToken,
        0 <= k < actions.len(),
        actions[k] is CreateToken,
    ensures
        events[3] matches LoginEvent::UserParsed { parsed_user: Some(u) } && {
            &&& actions[4] == (LoginAction::FindUser { user_id: u.id })
            &&& events[5] matches LoginEvent::UsersFound { users: Ok(found) }
            &&& if found.len() > 0 {
                k == 5 && actions[5] == (LoginAction::CreateToken { user_id: found@[0].id })
            } else {
                &&& k == 6
                &&& actions[5] == (LoginAction::CreateUser { user: u })
                &&& events[6] matches LoginEvent::UserCreated { created_user: Some(c) }
                &&& actions[6] == (LoginAction::CreateToken { user_id: c.id })
            }
        },
{
    lemma_login_walk(states, events, actions, k, 0);
    lemma_login_step(states, events, actions, 0);
    if k == 0 {
        return;
    }
    lemma_login_step(states, events, actions, 1);
    if k == 1 {
        return;
    }
    lemma_login_step(states, events, actions, 2);
    if k == 2 {
        return;
    }
    lemma_login_step(states, events, actions, 3);
    if k == 3 {
        return;
    }
    lemma_login_step(states, events, actions, 4);
    if k == 4 {
        return;
    }
    lemma_login_step(states, events, actions, 5);
    if k == 5 {
        return;
    }
    lemma_login_step(states, events, actions, 6);
    if k == 6 {
        return;
    }
    lemma_login_step(states, events, actions, 7);
    if k == 7 {
        return;
    }
    assert(states[8] is Finished);
}

/// Walks a login run from step `i` towards the token creation at `k`: no
/// state before `k` is `Finished`.
proof fn lemma_login_walk(states: Seq<LoginState>, events: Seq<LoginEvent>, actions: Seq<LoginAction>, k: int, i: int)
    requires
        login_run(states, events, actions),
        0 <= i <= k < actions.len(),
        actions[k] is CreateToken,
    ensures
        forall|j: int| i <= j <= k ==> !(#[trigger] states[j] is Finished),
    decreases k - i,
{
    if states[i] is Finished {
        lemma_login_stays_finished(states, events, actions, i, k);
    }
    if i < k {
        lemma_login_walk(states, events, actions, k, i + 1);
    }
}

} // verus!
