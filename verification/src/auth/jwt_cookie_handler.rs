//! The guard that reads the login cookie: a cookie that does not hold a valid
//! login token counts as no cookie, and the request goes on without claims.

use crate::auth::claims::read_login;
use crate::json::members;
use crate::auth::claims_consumer::ClaimsConsumer;
use crate::auth::token::{jwt_claims, jwt_decode};
use crate::auth::{claims_view, AuthPhase, Claims, ClaimsView};
use crate::request::CookieHandler;
use crate::resource::{Error, Resource};
use vstd::prelude::*;
use vstd::string::StringExecFns;

verus! {

/// The login claims that a set of members is accepted as: it must read as
/// claims of the phase `LoggedIn`.
pub open spec fn login_accepted(set: crate::json::Members) -> Option<ClaimsView> {
    match read_login(set) {
        Some(c) => if c.phase == AuthPhase::LoggedIn {
            Some(c)
        } else {
            None
        },
        None => None,
    }
}

/// The claims that a login cookie carries under `key`: those of a token whose
/// signature holds and whose claims are login claims of the phase `LoggedIn`.
/// A missing cookie, and one that holds anything else, carries none.
pub open spec fn login_claims(cookie: Option<Seq<char>>, key: Seq<u8>) -> Option<ClaimsView> {
    match cookie {
        None => None,
        Some(token) => match jwt_claims(token, key) {
            None => None,
            Some(set) => login_accepted(set),
        },
    }
}

/// Accepts or passes over what decoding a cookie gave.
pub fn accept_login(decoded: Option<serde_json::Map<String, serde_json::Value>>) -> (r: Option<
    Claims,
>)
    ensures
        claims_view(r) == match decoded {
            Some(claims) => login_accepted(members(claims)),
            None => None,
        },
{
    match decoded {
        None => None,
        Some(map) => match Claims::from_map(&map) {
            None => None,
            Some(claims) => match claims.phase {
                AuthPhase::LoggedIn => Some(claims),
                AuthPhase::Validation => None,
            },
        },
    }
}

/// The view of a cookie value that may be absent.
pub open spec fn cookie_view(cookie: Option<&str>) -> Option<Seq<char>> {
    match cookie {
        Some(c) => Some(c@),
        None => None,
    }
}

/// The claims that a login cookie carries under `key`. A login token does
/// not expire.
pub fn read_login_cookie(key: &Vec<u8>, cookie: Option<&str>) -> (r: Option<Claims>)
    ensures
        claims_view(r) == login_claims(cookie_view(cookie), key@),
{
    match cookie {
        None => None,
        Some(token) => {
            let required: Vec<String> = Vec::new();
            accept_login(jwt_decode(token, key, &required, false))
        },
    }
}

/// A cookie handler that reads the login cookie and hands the claims that it
/// carries to its consumer.
pub struct JwtCookieHandler<Consumer: ClaimsConsumer> {
    key: Vec<u8>,
    consumer: Consumer,
}

impl<Consumer: ClaimsConsumer> JwtCookieHandler<Consumer> {
    pub fn new(key: Vec<u8>, consumer: Consumer) -> (r: Self)
        ensures
            r.key() == key@,
            r.consumer() == consumer,
    {
        JwtCookieHandler { key, consumer }
    }

    /// The key that login tokens are signed with.
    pub closed spec fn key(self) -> Seq<u8> {
        self.key@
    }

    /// The consumer that the claims are handed to.
    pub closed spec fn consumer(self) -> Consumer {
        self.consumer
    }
}

/// The first of the values handed to a cookie handler.
pub open spec fn first_slot(values: Seq<Option<String>>) -> Option<Seq<char>> {
    if values.len() > 0 {
        match values[0] {
            Some(v) => Some(v@),
            None => None,
        }
    } else {
        None
    }
}

impl<Consumer: ClaimsConsumer> CookieHandler for JwtCookieHandler<Consumer> {
    type Get = Consumer::Get;

    type Post = Consumer::Post;

    /// The one cookie that is read: `let-me-in`.
    fn read_cookies(&self) -> (names: Vec<String>)
        ensures
            names@.len() == 1,
            names@[0]@ == "let-me-in"@,
    {
        let mut names: Vec<String> = Vec::new();
        names.push(String::from_str("let-me-in"));
        names
    }

    /// Hands the consumer the claims that the login cookie carries, and
    /// returns what the consumer makes of them.
    fn cookies(self, values: Vec<Option<String>>) -> (r: Result<
        Resource<Consumer::Get, Consumer::Post>,
        Error,
    >)
        ensures
            exists|claims: Option<Claims>|
                claims_view(claims) == login_claims(first_slot(values@), self.key())
                    && #[trigger] call_ensures(Consumer::claims, (self.consumer(), claims), r),
    {
        let claims = if values.len() > 0 {
            match &values[0] {
                Some(token) => read_login_cookie(&self.key, Some(token.as_str())),
                None => None,
            }
        } else {
            None
        };
        let ghost handed = claims;
        let r = self.consumer.claims(claims);
        assert(call_ensures(Consumer::claims, (self.consumer(), handed), r));
        r
    }
}

} // verus!
