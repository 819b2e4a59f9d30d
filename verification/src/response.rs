//! HTTP responses as plain values, and the text helpers the handlers use to
//! build their bodies.

use vstd::prelude::*;
use crate::web::{all_digits, digits_value, parsed_i32};

verus! {

/// The `Content-Type` header a response carries.
#[derive(PartialEq, Eq, Structural, Clone, Copy, Debug)]
pub enum ContentType {
    /// No `Content-Type` header is set.
    Unspecified,
    /// `application/json`
    Json,
    /// `application/x-gzip`
    Gzip,
}

/// The body of a response.
pub enum Body {
    Text(String),
    Binary(Vec<u8>),
}

/// A response that the server sends back.
pub struct Response {
    pub status: u16,
    pub content_type: ContentType,
    pub body: Body,
}

/// `r` has the given status, content type and text body.
pub open spec fn is_text_response(r: Response, status: u16, content_type: ContentType, text: Seq<char>) -> bool {
    &&& r.status == status
    &&& r.content_type == content_type
    &&& r.body matches Body::Text(t) && t@ == text
}

/// `r` has the given status, content type and binary body.
pub open spec fn is_binary_response(r: Response, status: u16, content_type: ContentType, bytes: Seq<u8>) -> bool {
    &&& r.status == status
    &&& r.content_type == content_type
    &&& r.body matches Body::Binary(b) && b@ == bytes
}

/// A response with a text body.
pub fn text_response(status: u16, content_type: ContentType, text: String) -> (r: Response)
    ensures
        is_text_response(r, status, content_type, text@),
{
    Response { status, content_type, body: Body::Text(text) }
}

/// The digit character for a value below ten.
pub open spec fn digit_char(d: nat) -> char {
    (('0' as u32) + d) as char
}

/// The decimal digits of a natural number, without leading zeros.
pub open spec fn nat_decimal(n: nat) -> Seq<char>
    decreases n,
{
    if n < 10 {
        seq![digit_char(n)]
    } else {
        nat_decimal(n / 10).push(digit_char(n % 10))
    }
}

/// The decimal text of an integer: a `-` in front of negative values.
pub open spec fn int_decimal(n: int) -> Seq<char> {
    if n < 0 {
        seq!['-'] + nat_decimal((-n) as nat)
    } else {
        nat_decimal(n as nat)
    }
}

/// The text of one decimal digit.
fn digit_text(d: u32) -> (r: &'static str)
    requires
        d < 10,
    ensures
        r@ == seq![digit_char(d as nat)],
{
    proof {
        reveal_strlit("0");
        reveal_strlit("1");
        reveal_strlit("2");
        reveal_strlit("3");
        reveal_strlit("4");
        reveal_strlit("5");
        reveal_strlit("6");
        reveal_strlit("7");
        reveal_strlit("8");
        reveal_strlit("9");
    }
    match d {
        0 => "0",
        1 => "1",
        2 => "2",
        3 => "3",
        4 => "4",
        5 => "5",
        6 => "6",
        7 => "7",
        8 => "8",
        _ => "9",
    }
}

/// The decimal digits of `n`, without leading zeros.
fn natural_text(n: u32) -> (r: String)
    ensures
        r@ == nat_decimal(n as nat),
    decreases n,
{
    if n < 10 {
        String::from_str(digit_text(n))
    } else {
        let mut s = natural_text(n / 10);
        s.append(digit_text(n % 10));
        s
    }
}

/// The decimal text of an `i32`, as its `Display` output writes it: a `-`
/// in front of negative values.
pub fn decimal(n: i32) -> (r: String)
    ensures
        r@ == int_decimal(n as int),
{
    if n < 0 {
        let magnitude: u32 = if n == i32::MIN { 2147483648u32 } else { (-n) as u32 };
        assert(magnitude as int == -(n as int));
        let digits = natural_text(magnitude);
        proof {
            reveal_strlit("-");
        }
        String::from_str("-").concat(digits.as_str())
    } else {
        natural_text(n as u32)
    }
}

/// `a` followed by `b`.
pub fn concat2(a: &str, b: &str) -> (r: String)
    ensures
        r@ == a@ + b@,
{
    String::from_str(a).concat(b)
}

/// `a`, `b` and `c`, one after the other.
pub fn concat3(a: &str, b: &str, c: &str) -> (r: String)
    ensures
        r@ == a@ + b@ + c@,
{
    String::from_str(a).concat(b).concat(c)
}

/// `a`, `b`, `c`, `d` and `e`, one after the other.
pub fn concat5(a: &str, b: &str, c: &str, d: &str, e: &str) -> (r: String)
    ensures
        r@ == a@ + b@ + c@ + d@ + e@,
{
    String::from_str(a).concat(b).concat(c).concat(d).concat(e)
}

/// The body the API root answers with.
pub open spec fn api_index_body() -> Seq<char> {
    "{\"gib-server-version\": \"1.0.0\"}"@
}

/// `GET /api/`: the server's version, as JSON text without a content type.
pub fn api_index() -> (r: Response)
    ensures
        is_text_response(r, 200, ContentType::Unspecified, api_index_body()),
{
    text_response(200, ContentType::Unspecified, String::from_str("{\"gib-server-version\": \"1.0.0\"}"))
}

/// The upload form page.
pub open spec fn upload_form_page() -> Seq<char> {
    "<html>
        <head><title>Upload Test</title></head>
        <body>
            <form target=\"/pkg/new\" method=\"post\" enctype=\"multipart/form-data\">
                <input type=\"file\" multiple name=\"file\" accept=\".tar.gz\"/>
                <button type=\"submit\">Submit</button>
            </form>
        </body>
    </html>"@
}

/// `GET /api/pkg/new`: an HTML form to upload package archives.
pub fn upload_form() -> (r: Response)
    ensures
        is_text_response(r, 200, ContentType::Unspecified, upload_form_page()),
{
    text_response(200, ContentType::Unspecified, String::from_str("<html>
        <head><title>Upload Test</title></head>
        <body>
            <form target=\"/pkg/new\" method=\"post\" enctype=\"multipart/form-data\">
                <input type=\"file\" multiple name=\"file\" accept=\".tar.gz\"/>
                <button type=\"submit\">Submit</button>
            </form>
        </body>
    </html>"))
}

/// A digit's character is an ASCII digit whose value is the digit.
proof fn lemma_digit_char(d: nat)
    requires
        d < 10,
    ensures
        '0' <= digit_char(d) <= '9',
        digit_char(d) as int - '0' as int == d,
        d > 0 ==> digit_char(d) != '0',
{
    if d == 0 {} else if d == 1 {} else if d == 2 {} else if d == 3 {} else if d == 4 {}
    else if d == 5 {} else if d == 6 {} else if d == 7 {} else if d == 8 {} else {}
}

/// Law: the decimal text of a natural number reads back as that number. It
/// is made of ASCII digits, is never empty, starts with `0` only when it is
/// exactly `0`, and its base-ten value is the number.
pub proof fn law_decimal_reads_back(n: nat)
    ensures
        nat_decimal(n).len() > 0,
        all_digits(nat_decimal(n)),
        digits_value(nat_decimal(n)) == n,
        nat_decimal(n)[0] == '0' ==> n == 0 && nat_decimal(n).len() == 1,
    decreases n,
{
    if n < 10 {
        lemma_digit_char(n);
        assert(nat_decimal(n).drop_last() =~= Seq::<char>::empty());
        assert(digits_value(Seq::<char>::empty()) == 0);
        assert(digits_value(nat_decimal(n)) == digits_value(nat_decimal(n).drop_last()) * 10 + (nat_decimal(n).last() as int - '0' as int));
    } else {
        law_decimal_reads_back(n / 10);
        lemma_digit_char(n % 10);
        let high = nat_decimal(n / 10);
        let s = nat_decimal(n);
        assert(s == high.push(digit_char(n % 10)));
        assert(s.drop_last() =~= high);
        assert(s[0] == high[0]);
        assert(n == (n / 10) * 10 + n % 10);
        assert(s.last() == digit_char(n % 10));
        assert(digits_value(s) == digits_value(high) * 10 + (s.last() as int - '0' as int));
        assert forall|i: int| 0 <= i < s.len() implies '0' <= #[trigger] s[i] <= '9' by {
            if i < high.len() {
                assert(s[i] == high[i]);
            }
        }
    }
}

/// Law: the decimal text of an `i32` parses back as that number, the way
/// `str::parse::<i32>` reads it: what a token id or package id is written as
/// is what a reader of it gets back.
pub proof fn law_decimal_parses_back(n: i32)
    ensures
        parsed_i32(int_decimal(n as int)) == Some(n),
{
    let s = int_decimal(n as int);
    if n < 0 {
        let m: nat = (-(n as int)) as nat;
        law_decimal_reads_back(m);
        assert(s.drop_first() =~= nat_decimal(m));
        assert(s[0] == '-');
    } else {
        law_decimal_reads_back(n as nat);
        assert('0' <= s[0] <= '9');
    }
}

} // verus!
