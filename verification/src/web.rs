//! The web front end: the page header, which shows the account links of a
//! signed-in user and signs them out; and how the server reads the session
//! token a browser sends.

use vstd::prelude::*;

verus! {

/// What `str::parse::<bool>` gives: as its documentation says, only `true`
/// and `false` are accepted.
pub open spec fn parsed_flag(s: Seq<char>) -> Option<bool> {
    if s == seq!['t', 'r', 'u', 'e'] {
        Some(true)
    } else if s == seq!['f', 'a', 'l', 's', 'e'] {
        Some(false)
    } else {
        None
    }
}

/// Reads the `loggedIn` flag the browser's session storage holds, as
/// `str::parse::<bool>` does: `None` where it is neither `true` nor `false`.
pub fn parse_session_flag(text: &str) -> (r: Option<bool>)
    ensures
        r == parsed_flag(text@),
{
    let n = text.unicode_len();
    if n == 4 && text.get_char(0) == 't' && text.get_char(1) == 'r' && text.get_char(2) == 'u'
        && text.get_char(3) == 'e' {
        assert(text@ =~= seq!['t', 'r', 'u', 'e']);
        Some(true)
    } else if n == 5 && text.get_char(0) == 'f' && text.get_char(1) == 'a' && text.get_char(2) == 'l'
        && text.get_char(3) == 's' && text.get_char(4) == 'e' {
        assert(text@ =~= seq!['f', 'a', 'l', 's', 'e']);
        Some(false)
    } else {
        proof {
            if text@ == seq!['t', 'r', 'u', 'e'] {
                assert(text@[0] == 't' && text@[1] == 'r' && text@[2] == 'u' && text@[3] == 'e');
            }
            if text@ == seq!['f', 'a', 'l', 's', 'e'] {
                assert(text@[0] == 'f' && text@[1] == 'a' && text@[2] == 'l' && text@[3] == 's' && text@[4] == 'e');
            }
        }
        None
    }
}

/// The page header's state: the stored token and whether the user is
/// signed in.
pub struct Header {
    pub auth_token: String,
    pub logged_in: bool,
}

/// The messages the header handles.
pub enum Msg {
    /// The user clicked "Logout".
    Logout,
}

/// A write to the browser's session storage.
pub struct SessionWrite {
    pub key: String,
    pub value: String,
}

/// A link the header shows.
pub struct Link {
    pub label: String,
    pub href: String,
    /// Clicking it sends `Msg::Logout`.
    pub logs_out: bool,
}

/// The link has this label, target and click behaviour.
pub open spec fn is_link(l: Link, label: Seq<char>, href: Seq<char>, logs_out: bool) -> bool {
    l.label@ == label && l.href@ == href && l.logs_out == logs_out
}

/// The write stores `value` under `key`.
pub open spec fn is_write(w: SessionWrite, key: Seq<char>, value: Seq<char>) -> bool {
    w.key@ == key && w.value@ == value
}

fn link(label: &str, href: &str, logs_out: bool) -> (l: Link)
    ensures
        is_link(l, label@, href@, logs_out),
{
    Link { label: String::from_str(label), href: String::from_str(href), logs_out }
}

fn write(key: &str, value: &str) -> (w: SessionWrite)
    ensures
        is_write(w, key@, value@),
{
    SessionWrite { key: String::from_str(key), value: String::from_str(value) }
}

impl Header {
    /// The header for a page load: `auth_token` is the stored `authToken`
    /// (empty where none is stored) and `logged_in` the parsed `loggedIn`
    /// flag (signed out where none is stored).
    pub fn create(auth_token: Option<String>, logged_in: Option<bool>) -> (r: Header)
        ensures
            auth_token matches Some(t) ==> r.auth_token == t,
            auth_token is None ==> r.auth_token@ == Seq::<char>::empty(),
            r.logged_in == (logged_in == Some(true)),
    {
        let auth_token = match auth_token {
            Some(t) => t,
            None => String::new(),
        };
        let logged_in = match logged_in {
            Some(b) => b,
            None => false,
        };
        Header { auth_token, logged_in }
    }

    /// Handles a message. Signing out forgets the token, marks the user
    /// signed out, asks to store `loggedIn = false` and an empty `authToken`,
    /// and asks for the header to be drawn again (`true`).
    pub fn update(&mut self, msg: Msg) -> (r: (bool, Vec<SessionWrite>))
        ensures
            r.0,
            final(self).auth_token@ == Seq::<char>::empty(),
            !final(self).logged_in,
            r.1.len() == 2,
            is_write(r.1@[0], "loggedIn"@, "false"@),
            is_write(r.1@[1], "authToken"@, Seq::<char>::empty()),
    {
        match msg {
            Msg::Logout => {
                let mut writes = Vec::new();
                writes.push(write("loggedIn", "false"));
                writes.push(write("authToken", ""));
                proof {
                    reveal_strlit("");
                    assert(""@ =~= Seq::<char>::empty());
                }
                self.auth_token = String::new();
                self.logged_in = false;
                (true, writes)
            },
        }
    }

    /// A new set of properties never changes the header.
    pub fn change(&mut self) -> (r: bool)
        ensures
            !r,
            *final(self) == *old(self),
    {
        false
    }

    /// The links the header shows: "Home", then "Login" for a signed-out
    /// user, or "Account" and "Logout" for a signed-in one.
    pub fn links(&self) -> (r: Vec<Link>)
        ensures
            r.len() == if self.logged_in { 3nat } else { 2nat },
            is_link(r@[0], "Home"@, "/"@, false),
            !self.logged_in ==> is_link(r@[1], "Login"@, "/account/login.html"@, false),
            self.logged_in ==> is_link(r@[1], "Account"@, "/account"@, false),
            self.logged_in ==> is_link(r@[2], "Logout"@, "javascript: void(0)"@, true),
    {
        let mut links = Vec::new();
        links.push(link("Home", "/", false));
        if !self.logged_in {
            links.push(link("Login", "/account/login.html", false));
        } else {
            links.push(link("Account", "/account", false));
            links.push(link("Logout", "javascript: void(0)", true));
        }
        links
    }
}

/// The value of a text made of ASCII digits, read in base ten.
pub open spec fn digits_value(s: Seq<char>) -> int
    decreases s.len(),
{
    if s.len() == 0 {
        0
    } else {
        digits_value(s.drop_last()) * 10 + (s.last() as int - '0' as int)
    }
}

/// Every character of `s` is an ASCII digit.
pub open spec fn all_digits(s: Seq<char>) -> bool {
    forall|i: int| 0 <= i < s.len() ==> '0' <= #[trigger] s[i] <= '9'
}

/// What `str::parse::<i32>` gives for a text, as its documentation says: an
/// optional `+` or `-` followed by one or more ASCII digits, whose value
/// fits in an `i32`; anything else (whitespace included) is refused.
pub open spec fn parsed_i32(s: Seq<char>) -> Option<i32> {
    let negative = s.len() > 0 && s[0] == '-';
    let digits = if s.len() > 0 && (s[0] == '-' || s[0] == '+') { s.drop_first() } else { s };
    let value = if negative { -digits_value(digits) } else { digits_value(digits) };
    if digits.len() == 0 || !all_digits(digits) || value < i32::MIN || value > i32::MAX {
        None
    } else {
        Some(value as i32)
    }
}

/// `str::parse::<i32>`.
///
/// Trusted: the result is `parsed_i32` of the text, which writes out what
/// the documentation of `i32::from_str` promises.
#[verifier::external_body]
fn str_parse_i32(s: &str) -> (r: Option<i32>)
    ensures
        r == parsed_i32(s@),
{
    s.parse::<i32>().ok()
}

/// The session token a request to the front page carries.
pub enum SessionToken {
    /// No `authToken` in the session.
    NoSession,
    /// The token's id.
    Token(i32),
    /// The stored value is not a number.
    Malformed,
}

/// Reads the `authToken` value of a session.
pub fn session_token(value: Option<String>) -> (r: SessionToken)
    ensures
        value is None ==> r is NoSession,
        value matches Some(v) ==> match parsed_i32(v@) {
            Some(n) => r == SessionToken::Token(n),
            None => r is Malformed,
        },
{
    match value {
        None => SessionToken::NoSession,
        Some(v) => match str_parse_i32(v.as_str()) {
            Some(n) => SessionToken::Token(n),
            None => SessionToken::Malformed,
        },
    }
}

} // verus!
