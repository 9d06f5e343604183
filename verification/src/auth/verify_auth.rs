//! The second step of a login: the link from the e-mail is followed in the
//! browser that holds the cookie of the first step.
//!
//! The answer is a redirect to where the user was going, whether the two
//! halves fit or not; only where they do is the login cookie set.

use crate::auth::claims::{login_set, read_validation, ValidationClaims, ValidationClaimsView};
use crate::json::members;
use crate::auth::token::{jwt_claims, jwt_decode, jwt_encode, jwt_signed, reassemble, reassembled};
use crate::auth::{AuthPhase, Claims, ClaimsView};
use crate::cache_control::CacheControl;
use crate::cookie::{Cookie, CookieView};
use crate::query_args::{field, field_of, pair_views, FromPairs, QueryArgsConsumer};
use crate::request::CookieHandler;
use crate::resource::{
    html_type, text_html, Error, Get, NoHandler, Page, PageView, Renderer, RendererView, Resource,
    Response, ResponseView, Status, StatusView,
};
use vstd::prelude::*;
use vstd::string::StringExecFns;

verus! {

/// The lifetime of a login cookie: sixty days, in seconds.
pub const LOGIN_SECONDS: i64 = 5_184_000;

/// Why the two halves of a validation token were not accepted.
#[derive(Clone, Copy, Debug, PartialEq, Eq, Structural)]
pub enum VerifyError {
    /// The cookie's half holds no dot.
    Malformed,
    /// The token's signature, expiry or claims were refused.
    Rejected,
    /// The token is signed and in date, but belongs to another phase.
    WrongPhase,
}

/// The claims that two halves carry under `key`, where they make a token
/// whose signature holds and whose claims read as validation claims. Whether
/// the token has expired plays no part.
pub open spec fn carried(key: Seq<u8>, head_sign: Seq<char>, payload: Seq<char>) -> Option<
    ValidationClaimsView,
> {
    match reassembled(head_sign, payload) {
        None => None,
        Some(token) => match jwt_claims(token, key) {
            None => None,
            Some(set) => read_validation(set),
        },
    }
}

/// What a decoded token is accepted as: its claims must read as validation
/// claims of the phase `Validation`.
pub open spec fn accepted(decoded: Option<serde_json::Map<String, serde_json::Value>>) -> Result<
    ValidationClaimsView,
    VerifyError,
> {
    match decoded {
        None => Err(VerifyError::Rejected),
        Some(claims) => match read_validation(members(claims)) {
            None => Err(VerifyError::Rejected),
            Some(c) => if c.phase == AuthPhase::Validation {
                Ok(c)
            } else {
                Err(VerifyError::WrongPhase)
            },
        },
    }
}

/// The view of an outcome of verification.
pub open spec fn verdict_view(r: Result<ValidationClaims, VerifyError>) -> Result<
    ValidationClaimsView,
    VerifyError,
> {
    match r {
        Ok(c) => Ok(c@),
        Err(e) => Err(e),
    }
}

/// Accepts or refuses what decoding a token gave.
pub fn accept_validation(decoded: Option<serde_json::Map<String, serde_json::Value>>) -> (r: Result<
    ValidationClaims,
    VerifyError,
>)
    ensures
        verdict_view(r) == accepted(decoded),
{
    match decoded {
        None => Err(VerifyError::Rejected),
        Some(claims) => match ValidationClaims::from_map(&claims) {
            None => Err(VerifyError::Rejected),
            Some(c) => match c.phase {
                AuthPhase::Validation => Ok(c),
                AuthPhase::LoggedIn => Err(VerifyError::WrongPhase),
            },
        },
    }
}

/// A token is taken for what its phase says and for nothing else: claims
/// that are accepted as validation claims are of the phase `Validation` and
/// are not accepted as login claims, and claims that are accepted as login
/// claims are of the phase `LoggedIn` and are not accepted as validation
/// claims.
pub proof fn lemma_phase_discrimination(claims: serde_json::Map<String, serde_json::Value>)
    ensures
        accepted(Some(claims)) matches Ok(c) ==> c.phase == AuthPhase::Validation
            && crate::auth::jwt_cookie_handler::login_accepted(members(claims)) is None,
        crate::auth::jwt_cookie_handler::login_accepted(members(claims)) matches Some(c) ==> c.phase
            == AuthPhase::LoggedIn && accepted(Some(claims)) is Err,
{
}

/// Whether `verdict` is an outcome of verifying two halves under `key`.
/// Halves that make no token are malformed, and nothing else is. What is
/// accepted is what the halves carry, of the phase `Validation`. A token of
/// another phase is named as such only where its signature holds. Any token
/// may be rejected: whether its expiry has passed depends on the time.
pub open spec fn verified(
    key: Seq<u8>,
    head_sign: Seq<char>,
    payload: Seq<char>,
    verdict: Result<ValidationClaimsView, VerifyError>,
) -> bool {
    match verdict {
        Ok(c) => carried(key, head_sign, payload) == Some(c) && c.phase == AuthPhase::Validation,
        Err(VerifyError::Malformed) => reassembled(head_sign, payload) is None,
        Err(VerifyError::WrongPhase) => carried(key, head_sign, payload) matches Some(c) && c.phase
            != AuthPhase::Validation,
        Err(VerifyError::Rejected) => reassembled(head_sign, payload) is Some,
    }
}

/// Verifies the two halves of a validation token: they are put together,
/// the token's signature and expiry are checked under `key`, and its claims
/// must be validation claims of the phase `Validation`.
///
/// Whether an expiry has passed depends on the time of the call. Apart from
/// that the outcome is fixed: halves that carry no validation claims of that
/// phase are never accepted, and what is accepted is what they carry.
pub fn verify_login(key: &Vec<u8>, head_sign: &str, claims: &str) -> (r: Result<
    ValidationClaims,
    VerifyError,
>)
    ensures
        verified(key@, head_sign@, claims@, verdict_view(r)),
{
    let token = match reassemble(head_sign, claims) {
        Some(token) => token,
        None => {
            return Err(VerifyError::Malformed);
        },
    };
    let mut required: Vec<String> = Vec::new();
    required.push(String::from_str("exp"));
    let decoded = jwt_decode(token.as_str(), key, &required, true);
    accept_validation(decoded)
}

/// Whether `cookie` is the login cookie of the subject `sub`: it is named
/// `let-me-in`, kept from scripts, lives sixty days, and its value is a token
/// signed under `key` that carries the claims of `sub` in the phase
/// `LoggedIn`.
pub open spec fn is_login_cookie(cookie: CookieView, sub: Seq<char>, key: Seq<u8>) -> bool {
    &&& cookie.name == "let-me-in"@
    &&& cookie.http_only
    &&& cookie.max_age == Some(LOGIN_SECONDS)
    &&& exists|claims: serde_json::Map<String, serde_json::Value>|
        members(claims) == login_set(ClaimsView { phase: AuthPhase::LoggedIn, sub })
            && #[trigger] jwt_signed(claims, key) == Some(cookie.value)
}

/// The login cookie with the given token: named `let-me-in`, kept from
/// scripts, for sixty days.
pub open spec fn login_cookie_of(token: Seq<char>) -> CookieView {
    CookieView {
        name: "let-me-in"@,
        value: token,
        http_only: true,
        max_age: Some(LOGIN_SECONDS),
    }
}

/// Whether `cookie` is what is minted from `claims` under `key`: the login
/// cookie with the token that carries the claims, or nothing where no token
/// is made.
pub open spec fn minted_from(
    claims: serde_json::Map<String, serde_json::Value>,
    key: Seq<u8>,
    cookie: Option<CookieView>,
) -> bool {
    match jwt_signed(claims, key) {
        Some(token) => cookie == Some(login_cookie_of(token)),
        None => cookie is None,
    }
}

/// Whether `cookie` is what is minted for the subject `sub` under `key`: it
/// is minted from the claims of `sub` in the phase `LoggedIn`.
pub open spec fn minted(sub: Seq<char>, key: Seq<u8>, cookie: Option<CookieView>) -> bool {
    exists|claims: serde_json::Map<String, serde_json::Value>|
        members(claims) == login_set(ClaimsView { phase: AuthPhase::LoggedIn, sub })
            && #[trigger] minted_from(claims, key, cookie)
}

/// The view of a cookie that may be absent.
pub open spec fn minted_view(cookie: Option<Cookie>) -> Option<CookieView> {
    match cookie {
        Some(c) => Some(c@),
        None => None,
    }
}

/// What is minted for a subject is the subject's login cookie.
pub proof fn lemma_minted_is_login_cookie(sub: Seq<char>, key: Seq<u8>, cookie: CookieView)
    requires
        minted(sub, key, Some(cookie)),
    ensures
        is_login_cookie(cookie, sub, key),
{
    let claims = choose|claims: serde_json::Map<String, serde_json::Value>|
        members(claims) == login_set(ClaimsView { phase: AuthPhase::LoggedIn, sub })
            && #[trigger] minted_from(claims, key, Some(cookie));
    assert(jwt_signed(claims, key) == Some(cookie.value));
}

/// Mints the login cookie of a subject: a token is made that carries the
/// subject's claims in the phase `LoggedIn`, signed under `key`, and the
/// cookie holds it. There is a cookie exactly where a token is made.
pub fn mint_login_cookie(key: &Vec<u8>, sub: String) -> (r: Option<Cookie>)
    ensures
        minted(sub@, key@, minted_view(r)),
        r matches Some(cookie) ==> is_login_cookie(cookie@, sub@, key@),
{
    let claims = Claims { phase: AuthPhase::LoggedIn, sub };
    let map = claims.to_map();
    let r = match jwt_encode(&map, key) {
        None => None,
        Some(token) => Some(
            Cookie {
                name: String::from_str("let-me-in"),
                value: token,
                http_only: true,
                max_age: Some(LOGIN_SECONDS),
            },
        ),
    };
    proof {
        assert(minted_from(map, key@, minted_view(r)));
        if r is Some {
            lemma_minted_is_login_cookie(sub@, key@, r->0@);
        }
    }
    r
}

/// The resource behind a login link.
pub struct VerifyAuth {
    pub title: String,
    pub key: Vec<u8>,
    /// The payload that the link carries.
    pub claims: String,
    /// The cookie's half, where the browser sent the cookie.
    pub head_sign: Option<String>,
    /// Where the user is sent on.
    pub redirect: String,
}

/// The claims that the resource's two halves carry, where the cookie was sent
/// and the halves carry validation claims of the phase `Validation`.
pub open spec fn presented(resource: VerifyAuth) -> Option<ValidationClaimsView> {
    match resource.head_sign {
        None => None,
        Some(head_sign) => match carried(resource.key@, head_sign@, resource.claims@) {
            Some(c) => if c.phase == AuthPhase::Validation {
                Some(c)
            } else {
                None
            },
            None => None,
        },
    }
}

/// Whether `cookie` is what follows from the outcome `verdict` of verifying
/// two halves: no login cookie where they are not accepted, and where they
/// are, the cookie minted for the subject that they carry.
pub open spec fn follows(
    key: Seq<u8>,
    half: Seq<char>,
    payload: Seq<char>,
    verdict: Result<ValidationClaimsView, VerifyError>,
    cookie: Option<CookieView>,
) -> bool {
    verified(key, half, payload, verdict) && match verdict {
        Ok(c) => minted(c.sub, key, cookie),
        Err(_) => cookie is None,
    }
}

/// Whether `cookie` is what a login link yields for the cookie's half
/// `head_sign` and the payload `payload`. Without the cookie's half there is
/// no login cookie. With it the two halves are verified, and the cookie
/// follows from the outcome.
pub open spec fn logged_in(
    key: Seq<u8>,
    head_sign: Option<Seq<char>>,
    payload: Seq<char>,
    cookie: Option<CookieView>,
) -> bool {
    match head_sign {
        None => cookie is None,
        Some(half) => exists|verdict: Result<ValidationClaimsView, VerifyError>| #[trigger]
            follows(key, half, payload, verdict, cookie),
    }
}

impl VerifyAuth {
    /// The login cookie, where the two halves are accepted.
    pub fn login_cookie(&self) -> (r: Option<Cookie>)
        ensures
            logged_in(
                self.key@,
                crate::query_args::owned_view(self.head_sign),
                self.claims@,
                minted_view(r),
            ),
            presented(*self) is None ==> r is None,
            r matches Some(cookie) ==> (presented(*self) matches Some(c) && is_login_cookie(
                cookie@,
                c.sub,
                self.key@,
            )),
    {
        let head_sign = match &self.head_sign {
            Some(head_sign) => head_sign,
            None => {
                return None;
            },
        };
        let verdict = verify_login(&self.key, head_sign.as_str(), self.claims.as_str());
        let ghost outcome = verdict_view(verdict);
        let r = match verdict {
            Err(_) => None,
            Ok(claims) => {
                let ValidationClaims { phase, sub, exp, jti } = claims;
                mint_login_cookie(&self.key, sub)
            },
        };
        assert(follows(
            self.key@,
            crate::query_args::owned_view(self.head_sign)->0,
            self.claims@,
            outcome,
            minted_view(r),
        ));
        r
    }
}

/// The answer to a login link, the cookies aside: a redirect to where the
/// user was going, with the page that is shown meanwhile.
pub open spec fn redirect_response(title: Seq<char>, redirect: Seq<char>, cookies: Seq<CookieView>) -> ResponseView {
    ResponseView {
        status: StatusView::SeeOther(redirect),
        representations: seq![
            (text_html(), RendererView::Page(PageView::VerifyAuth { title })),
        ],
        cookies,
    }
}

impl Get for VerifyAuth {
    /// A login link asks for no directives.
    fn cache_control(&self) -> (r: Option<CacheControl>)
        ensures
            r is None,
    {
        None
    }

    /// Answers the link: always a redirect to the target that the link
    /// names. The login cookie is set where the two halves are accepted, and
    /// no cookie is set where they are not.
    fn representations(self) -> (r: Response)
        ensures
            r@ == redirect_response(self.title@, self.redirect@, r@.cookies),
            r@.cookies.len() <= 1,
            presented(self) is None ==> r@.cookies.len() == 0,
            r@.cookies.len() == 1 ==> (presented(self) matches Some(c) && is_login_cookie(
                r@.cookies[0],
                c.sub,
                self.key@,
            )),
    {
        let mut cookies: Vec<Cookie> = Vec::new();
        if let Some(cookie) = self.login_cookie() {
            cookies.push(cookie);
        }
        let VerifyAuth { title, key, claims, head_sign, redirect } = self;
        let mut representations: Vec<(crate::media_type::MediaType, Renderer)> = Vec::new();
        representations.push((html_type(), Renderer::Page(Page::VerifyAuth { title })));
        let r = Response { status: Status::SeeOther(redirect), representations, cookies };
        assert(r@.representations =~= seq![
            (text_html(), RendererView::Page(PageView::VerifyAuth { title: self.title@ })),
        ]);
        r
    }
}

/// What takes the cookie of the first step and makes the resource of the
/// second.
pub struct VerifyAuthCookieHandler {
    pub title: String,
    pub key: Vec<u8>,
    pub claims: String,
    pub redirect: String,
}

impl CookieHandler for VerifyAuthCookieHandler {
    type Get = VerifyAuth;

    type Post = NoHandler;

    /// The one cookie that is read: `let-me-in`.
    fn read_cookies(&self) -> (names: Vec<String>)
        ensures
            names@.len() == 1,
            names@[0]@ == "let-me-in"@,
    {
        let mut names: Vec<String> = Vec::new();
        names.push(String::from_str("let-me-in"));
        names
    }

    /// The resource for the link, with the cookie's half where the cookie
    /// was sent. The resource answers GET alone.
    fn cookies(self, values: Vec<Option<String>>) -> (r: Result<Resource<VerifyAuth, NoHandler>, Error>)
        ensures
            r matches Ok(resource) && resource.etag is None && resource.post is None
                && resource.get == Some(
                VerifyAuth {
                    title: self.title,
                    key: self.key,
                    claims: self.claims,
                    head_sign: if values@.len() > 0 {
                        values@[0]
                    } else {
                        None
                    },
                    redirect: self.redirect,
                },
            ),
    {
        let mut values = values;
        let head_sign = if values.len() > 0 {
            values.swap_remove(0)
        } else {
            None
        };
        let VerifyAuthCookieHandler { title, key, claims, redirect } = self;
        Ok(
            Resource {
                etag: None,
                get: Some(VerifyAuth { title, key, claims, head_sign, redirect }),
                post: None,
            },
        )
    }
}

/// The arguments of a login link.
#[derive(Clone, Debug, PartialEq, Eq)]
pub struct ValidationArgsOwned {
    pub claims: String,
    pub redirect: String,
}

impl FromPairs for ValidationArgsOwned {
    /// The arguments `claims` and `redirect`, each given once.
    fn from_pairs(pairs: &Vec<(String, String)>) -> (r: Option<ValidationArgsOwned>)
        ensures
            match r {
                Some(args) => field(pair_views(pairs@), "claims"@) == Some(args.claims@) && field(
                    pair_views(pairs@),
                    "redirect"@,
                ) == Some(args.redirect@),
                None => field(pair_views(pairs@), "claims"@) is None || field(
                    pair_views(pairs@),
                    "redirect"@,
                ) is None,
            },
    {
        let claims = match field_of(pairs, "claims") {
            Some(claims) => claims,
            None => {
                return None;
            },
        };
        match field_of(pairs, "redirect") {
            Some(redirect) => Some(ValidationArgsOwned { claims, redirect }),
            None => None,
        }
    }
}

/// What takes the arguments of a login link.
pub struct VerifyAuthArgsConsumer {
    pub title: String,
    pub key: Vec<u8>,
}

impl QueryArgsConsumer for VerifyAuthArgsConsumer {
    type Args = ValidationArgsOwned;

    type Handler = VerifyAuthCookieHandler;

    fn args(self, args: ValidationArgsOwned) -> (r: Result<VerifyAuthCookieHandler, Error>)
        ensures
            r matches Ok(handler) && handler.title == self.title && handler.key == self.key
                && handler.claims == args.claims && handler.redirect == args.redirect,
    {
        let VerifyAuthArgsConsumer { title, key } = self;
        let ValidationArgsOwned { claims, redirect } = args;
        Ok(VerifyAuthCookieHandler { title, key, claims, redirect })
    }
}

} // verus!
