//! Package names and versions: how they are normalized and which ones the
//! registry accepts.

use vstd::prelude::*;

verus! {

/// A character the registry allows in a package name or version.
pub open spec fn is_identifier_char(c: char) -> bool {
    ||| ('a' <= c && c <= 'z')
    ||| ('0' <= c && c <= '9')
    ||| c == '-'
    ||| c == '_'
    ||| c == '.'
}

/// A name or version the registry accepts: non-empty, and made of
/// lower-case ASCII letters, digits, `-`, `_` and `.` only.
pub open spec fn is_valid_identifier(s: Seq<char>) -> bool {
    &&& s.len() > 0
    &&& forall|i: int| 0 <= i < s.len() ==> is_identifier_char(#[trigger] s[i])
}

/// The characters of the pattern `^[a-z0-9-_.]+$` that the registry checks
/// names and versions against.
pub open spec fn identifier_pattern() -> Seq<char> {
    seq!['^', '[', 'a', '-', 'z', '0', '-', '9', '-', '_', '.', ']', '+', '$']
}

/// A character of the class `[a-zA-Z0-9-_]`.
pub open spec fn is_name_char(c: char) -> bool {
    ||| ('a' <= c && c <= 'z')
    ||| ('A' <= c && c <= 'Z')
    ||| ('0' <= c && c <= '9')
    ||| c == '-'
    ||| c == '_'
}

/// Some character of `s` is in the class `[a-zA-Z0-9-_]`.
pub open spec fn has_name_char(s: Seq<char>) -> bool {
    exists|i: int| 0 <= i < s.len() && is_name_char(#[trigger] s[i])
}

/// The characters of the pattern `[a-zA-Z0-9-_]+`.
pub open spec fn name_char_pattern() -> Seq<char> {
    seq!['[', 'a', '-', 'z', 'A', '-', 'Z', '0', '-', '9', '-', '_', ']', '+']
}

/// ASCII upper-case letters become lower-case; every other character stays.
pub open spec fn ascii_lower(c: char) -> char {
    if 'A' <= c && c <= 'Z' {
        ((c as u32) + 32) as char
    } else {
        c
    }
}

/// The ASCII lower-case form of a string.
pub open spec fn ascii_lowercase(s: Seq<char>) -> Seq<char> {
    s.map_values(|c: char| ascii_lower(c))
}

/// What `regex::Regex::new(pattern)` followed by `is_match(text)` gives:
/// `None` where the pattern does not compile.
pub uninterp spec fn regex_match_outcome(pattern: Seq<char>, text: Seq<char>) -> Option<bool>;

/// Compiles `pattern` with `regex::Regex::new` and asks `Regex::is_match`
/// whether it matches somewhere in `text`.
///
/// Trusted: the result is the named outcome of the two calls. For the
/// pattern `^[a-z0-9-_.]+$` the regex syntax documentation fixes it: the
/// class holds `a`..`z`, `0`..`9` and the literals `-`, `_`, `.`; `^` and `$`
/// anchor at the ends of the whole text (no multi-line mode); `+` asks for at
/// least one character. For the pattern `[a-zA-Z0-9-_]+`, which is not
/// anchored, a match exists exactly when one character of the text is in
/// the class (`a`..`z`, `A`..`Z`, `0`..`9`, `-`, `_`). Nothing is stated of
/// other patterns.
#[verifier::external_body]
fn regex_is_match(pattern: &str, text: &str) -> (r: Option<bool>)
    ensures
        r == regex_match_outcome(pattern@, text@),
        pattern@ == identifier_pattern() ==> r == Some(is_valid_identifier(text@)),
        pattern@ == name_char_pattern() ==> r == Some(has_name_char(text@)),
{
    match regex::Regex::new(pattern) {
        Ok(re) => Some(re.is_match(text)),
        Err(_) => None,
    }
}

/// The text of the lower-case form of an upper-case ASCII letter.
fn lower_letter_text(c: char) -> (r: &'static str)
    requires
        'A' <= c <= 'Z',
    ensures
        r@ == seq![ascii_lower(c)],
{
    proof {
        reveal_strlit("a");
        reveal_strlit("b");
        reveal_strlit("c");
        reveal_strlit("d");
        reveal_strlit("e");
        reveal_strlit("f");
        reveal_strlit("g");
        reveal_strlit("h");
        reveal_strlit("i");
        reveal_strlit("j");
        reveal_strlit("k");
        reveal_strlit("l");
        reveal_strlit("m");
        reveal_strlit("n");
        reveal_strlit("o");
        reveal_strlit("p");
        reveal_strlit("q");
        reveal_strlit("r");
        reveal_strlit("s");
        reveal_strlit("t");
        reveal_strlit("u");
        reveal_strlit("v");
        reveal_strlit("w");
        reveal_strlit("x");
        reveal_strlit("y");
        reveal_strlit("z");
    }
    match c {
        'A' => "a",
        'B' => "b",
        'C' => "c",
        'D' => "d",
        'E' => "e",
        'F' => "f",
        'G' => "g",
        'H' => "h",
        'I' => "i",
        'J' => "j",
        'K' => "k",
        'L' => "l",
        'M' => "m",
        'N' => "n",
        'O' => "o",
        'P' => "p",
        'Q' => "q",
        'R' => "r",
        'S' => "s",
        'T' => "t",
        'U' => "u",
        'V' => "v",
        'W' => "w",
        'X' => "x",
        'Y' => "y",
        _ => "z",
    }
}

/// Lower-cases the ASCII letters of a package name or version, as the
/// registry does before it checks and stores them (as
/// `str::to_ascii_lowercase` does: `A`..`Z` become `a`..`z`, every other
/// character stays).
pub fn normalize_identifier(s: &str) -> (r: String)
    ensures
        r@ == ascii_lowercase(s@),
{
    let n = s.unicode_len();
    let mut out = String::new();
    let mut i: usize = 0;
    while i < n
        invariant
            n == s@.len(),
            i <= n,
            out@ == ascii_lowercase(s@.take(i as int)),
        decreases n - i,
    {
        let c = s.get_char(i);
        if 'A' <= c && c <= 'Z' {
            out.append(lower_letter_text(c));
        } else {
            out.append(s.substring_char(i, i + 1));
        }
        proof {
            assert(s@.take(i + 1) =~= s@.take(i as int).push(c));
            assert(ascii_lowercase(s@.take(i + 1)) =~= ascii_lowercase(s@.take(i as int)).push(ascii_lower(c)));
        }
        i = i + 1;
    }
    proof {
        assert(s@.take(n as int) =~= s@);
    }
    out
}

/// Whether the registry accepts `s` as a (normalized) name or version: the
/// text must match `^[a-z0-9-_.]+$`.
pub fn is_valid_identifier_str(s: &str) -> (r: bool)
    ensures
        r == is_valid_identifier(s@),
{
    let pattern = "^[a-z0-9-_.]+$";
    proof {
        reveal_strlit("^[a-z0-9-_.]+$");
        assert(pattern@ =~= identifier_pattern());
    }
    match regex_is_match(pattern, s) {
        Some(b) => b,
        None => false,
    }
}

/// Whether `s` holds a character of the class `[a-zA-Z0-9-_]`: the pattern
/// `[a-zA-Z0-9-_]+` matches somewhere in it.
pub fn has_name_char_str(s: &str) -> (r: bool)
    ensures
        r == has_name_char(s@),
{
    let pattern = "[a-zA-Z0-9-_]+";
    proof {
        reveal_strlit("[a-zA-Z0-9-_]+");
        assert(pattern@ =~= name_char_pattern());
    }
    match regex_is_match(pattern, s) {
        Some(b) => b,
        None => false,
    }
}

/// Law: normalizing twice gives what normalizing once gives.
pub proof fn law_normalize_idempotent(s: Seq<char>)
    ensures
        ascii_lowercase(ascii_lowercase(s)) == ascii_lowercase(s),
{
    assert(ascii_lowercase(ascii_lowercase(s)) =~= ascii_lowercase(s));
}

/// Law: a normalized text is accepted exactly when every character of the
/// text before normalizing is an accepted character or an ASCII upper-case
/// letter, and that text is not empty.
pub proof fn law_normalized_valid_iff(s: Seq<char>)
    ensures
        is_valid_identifier(ascii_lowercase(s)) <==> (s.len() > 0 && forall|i: int|
            0 <= i < s.len() ==> (is_identifier_char(#[trigger] s[i]) || ('A' <= s[i] && s[i] <= 'Z'))),
{
    let t = ascii_lowercase(s);
    if is_valid_identifier(t) {
        assert forall|i: int| 0 <= i < s.len() implies (is_identifier_char(#[trigger] s[i]) || ('A' <= s[i] && s[i] <= 'Z')) by {
            assert(is_identifier_char(t[i]));
        }
    }
    if s.len() > 0 && forall|i: int|
        0 <= i < s.len() ==> (is_identifier_char(#[trigger] s[i]) || ('A' <= s[i] && s[i] <= 'Z')) {
        assert forall|i: int| 0 <= i < t.len() implies is_identifier_char(#[trigger] t[i]) by {
            assert(is_identifier_char(s[i]) || ('A' <= s[i] && s[i] <= 'Z'));
        }
    }
}

/// Law: every accepted name is already in normal form.
pub proof fn law_valid_is_normalized(s: Seq<char>)
    requires
        is_valid_identifier(s),
    ensures
        ascii_lowercase(s) == s,
{
    assert forall|i: int| 0 <= i < s.len() implies ascii_lower(#[trigger] s[i]) == s[i] by {
        assert(is_identifier_char(s[i]));
    }
    assert(ascii_lowercase(s) =~= s);
}

} // verus!
