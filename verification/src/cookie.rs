//! Cookies: what a response sets and what a request sends.

use vstd::prelude::*;

verus! {

/// A cookie that a response sets.
#[derive(Clone, Debug, PartialEq, Eq)]
pub struct Cookie {
    pub name: String,
    pub value: String,
    /// Whether scripts are kept from reading the cookie.
    pub http_only: bool,
    /// The cookie's lifetime in seconds, where it has one.
    pub max_age: Option<i64>,
}

/// What a cookie holds.
pub struct CookieView {
    pub name: Seq<char>,
    pub value: Seq<char>,
    pub http_only: bool,
    pub max_age: Option<i64>,
}

impl View for Cookie {
    type V = CookieView;

    open spec fn view(&self) -> CookieView {
        CookieView {
            name: self.name@,
            value: self.value@,
            http_only: self.http_only,
            max_age: self.max_age,
        }
    }
}

/// The views of the cookies of a sequence.
pub open spec fn cookie_views(v: Seq<Cookie>) -> Seq<CookieView> {
    Seq::new(v.len(), |i: int| v[i]@)
}

/// The decimal digits of a natural number.
pub open spec fn decimal_nat(n: nat) -> Seq<char>
    decreases n,
{
    if n < 10 {
        seq![((n + 48) as char)]
    } else {
        decimal_nat(n / 10) + seq![((n % 10 + 48) as char)]
    }
}

/// An integer in decimal, with a minus sign where it is negative.
pub open spec fn decimal(n: int) -> Seq<char> {
    if n < 0 {
        seq!['-'] + decimal_nat((-n) as nat)
    } else {
        decimal_nat(n as nat)
    }
}

/// The value of the `Set-Cookie` header that sets a cookie: name and value
/// about an equals sign, then `HttpOnly` and `Max-Age` where they are set.
pub open spec fn set_cookie_text(c: CookieView) -> Seq<char> {
    c.name + seq!['='] + c.value + (if c.http_only {
        "; HttpOnly"@
    } else {
        Seq::<char>::empty()
    }) + (match c.max_age {
        Some(seconds) => "; Max-Age="@ + decimal(seconds as int),
        None => Seq::<char>::empty(),
    })
}

/// The name and the value that one pair of a `Cookie` header is read as by the
/// `cookie` crate, where it reads it.
pub uninterp spec fn cookie_pair(raw: Seq<char>) -> Option<(Seq<char>, Seq<char>)>;

/// Why the `cookie` crate refused a text.
#[verifier::external_type_specification]
#[verifier::external_body]
pub struct ExParseError(cookie::ParseError);

/// `Display` of `cookie::Cookie`, on a cookie of the given name, value,
/// `HttpOnly` flag and `Max-Age`: the value of its `Set-Cookie` header.
#[verifier::external_body]
pub(crate) fn render_set_cookie(c: &Cookie) -> (text: String)
    ensures
        text@ == set_cookie_text(c@),
{
    let mut raw = cookie::Cookie::new(c.name.clone(), c.value.clone());
    raw.set_http_only(c.http_only);
    raw.set_max_age(c.max_age.map(cookie::time::Duration::seconds));
    raw.to_string()
}

/// `cookie::Cookie::parse` on one pair of a `Cookie` header: its name and its
/// value.
#[verifier::external_body]
pub(crate) fn parse_pair(raw: &str) -> (r: Result<(String, String), cookie::ParseError>)
    ensures
        match r {
            Ok(pair) => cookie_pair(raw@) == Some((pair.0@, pair.1@)),
            Err(_) => cookie_pair(raw@) is None,
        },
{
    cookie::Cookie::parse(raw).map(|c| (c.name().to_string(), c.value().to_string()))
}

impl Cookie {
    /// The value of the `Set-Cookie` header that sets the cookie.
    pub fn to_string(&self) -> (text: String)
        ensures
            text@ == set_cookie_text(self@),
    {
        render_set_cookie(self)
    }
}

} // verus!
