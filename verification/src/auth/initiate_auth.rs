//! The first step of a login: an address is posted, a validation token is
//! issued for it, and its two halves part ways. The cookie's half goes back
//! in the answer; the payload goes into the link that is mailed.

use crate::auth::claims::{validation_set, ValidationClaims, ValidationClaimsView};
use crate::json::members;
use crate::auth::token::{halves, jwt_encode, jwt_signed, split_token, SplitToken, SplitTokenView};
use crate::auth::AuthPhase;
use crate::cookie::{Cookie, CookieView};
use crate::handling_error::{HandlingError, HandlingErrorView};
use crate::query_args::{
    field, field_of, form_decode, form_encode, form_pairs, form_text, pair_views, FromPairs,
};
use crate::resource::{
    html_type, text_html, Page, PageView, Renderer, RendererView, Response, ResponseView, Status,
    StatusView,
};
use crate::text::same_text;
use vstd::prelude::*;
use vstd::string::StringExecFns;

verus! {

/// How long a validation token is good for: two hours, in seconds.
pub const VALIDATION_SECONDS: i64 = 7200;

/// `chrono::Utc::now` and `timestamp`: the time of the call, in seconds since
/// the epoch.
#[verifier::external_body]
pub(crate) fn now_timestamp() -> i64 {
    chrono::Utc::now().timestamp()
}

/// `rand::random`: some number of 32 bits.
#[verifier::external_body]
pub(crate) fn random_nonce() -> u32 {
    rand::random::<u32>()
}

/// When a token issued at `now` expires: two hours later, or at the end of
/// time where that is sooner.
pub open spec fn expiry(now: i64) -> i64 {
    if now <= i64::MAX - VALIDATION_SECONDS {
        (now + VALIDATION_SECONDS) as i64
    } else {
        i64::MAX
    }
}

/// The claims of the validation token for `email`, issued at `now` with the
/// random number `nonce`.
pub fn validation_claims(email: &str, now: i64, nonce: u32) -> (claims: ValidationClaims)
    ensures
        claims@ == (ValidationClaimsView {
            phase: AuthPhase::Validation,
            sub: email@,
            exp: expiry(now),
            jti: nonce,
        }),
{
    let exp = if now <= i64::MAX - VALIDATION_SECONDS {
        now + VALIDATION_SECONDS
    } else {
        i64::MAX
    };
    ValidationClaims { phase: AuthPhase::Validation, sub: String::from_str(email), exp, jti: nonce }
}

/// The arguments that are posted to start a login.
#[derive(Clone, Debug, PartialEq, Eq)]
pub struct PostArgs {
    pub email: String,
    pub redirect: String,
}

/// What the posted arguments hold.
pub struct PostArgsView {
    pub email: Seq<char>,
    pub redirect: Seq<char>,
}

impl View for PostArgs {
    type V = PostArgsView;

    open spec fn view(&self) -> PostArgsView {
        PostArgsView { email: self.email@, redirect: self.redirect@ }
    }
}

/// The arguments that pairs hold: `email` and `redirect`, each given once.
pub open spec fn post_args(pairs: Seq<(Seq<char>, Seq<char>)>) -> Option<PostArgsView> {
    if field(pairs, "email"@) is Some && field(pairs, "redirect"@) is Some {
        Some(PostArgsView { email: field(pairs, "email"@)->0, redirect: field(pairs, "redirect"@)->0 })
    } else {
        None
    }
}

/// The view of posted arguments that may be absent.
pub open spec fn post_args_view(args: Option<PostArgs>) -> Option<PostArgsView> {
    match args {
        Some(a) => Some(a@),
        None => None,
    }
}

impl FromPairs for PostArgs {
    fn from_pairs(pairs: &Vec<(String, String)>) -> (r: Option<PostArgs>)
        ensures
            post_args_view(r) == post_args(pair_views(pairs@)),
    {
        let email = match field_of(pairs, "email") {
            Some(email) => email,
            None => {
                return None;
            },
        };
        match field_of(pairs, "redirect") {
            Some(redirect) => Some(PostArgs { email, redirect }),
            None => None,
        }
    }
}

/// What a posted body is read as. The content type must be
/// `application/x-www-form-urlencoded`, and the body must hold the arguments;
/// each failure is a bad request with its own text.
pub open spec fn posted(content_type: Seq<char>, body: Seq<u8>) -> Result<
    PostArgsView,
    HandlingErrorView,
> {
    if content_type != "application/x-www-form-urlencoded"@ {
        Err(
            HandlingErrorView::BadRequest(
                "Unacceptable Content-Type, must be application/x-www-form-urlencoded"@,
            ),
        )
    } else {
        match form_pairs(body) {
            None => Err(HandlingErrorView::BadRequest("Invalid data"@)),
            Some(pairs) => match post_args(pairs) {
                None => Err(HandlingErrorView::BadRequest("Invalid data"@)),
                Some(args) => Ok(args),
            },
        }
    }
}

/// The view of what reading a posted body gave.
pub open spec fn posted_view(r: Result<PostArgs, HandlingError>) -> Result<
    PostArgsView,
    HandlingErrorView,
> {
    match r {
        Ok(a) => Ok(a@),
        Err(e) => Err(e@),
    }
}

/// Reads the arguments of a posted body.
pub fn parse_post(content_type: &str, body: &Vec<u8>) -> (r: Result<PostArgs, HandlingError>)
    ensures
        posted_view(r) == posted(content_type@, body@),
{
    if !same_text(content_type, "application/x-www-form-urlencoded") {
        return Err(
            HandlingError::BadRequest(
                "Unacceptable Content-Type, must be application/x-www-form-urlencoded",
            ),
        );
    }
    let pairs = match form_decode(body.as_slice()) {
        Some(pairs) => pairs,
        None => {
            return Err(HandlingError::BadRequest("Invalid data"));
        },
    };
    match PostArgs::from_pairs(&pairs) {
        Some(args) => Ok(args),
        None => Err(HandlingError::BadRequest("Invalid data")),
    }
}

/// The halves of the token that carries `claims` under `key`; `None` where no
/// token, or one without three parts, is made.
pub open spec fn issued(claims: serde_json::Map<String, serde_json::Value>, key: Seq<u8>) -> Option<
    SplitTokenView,
> {
    match jwt_signed(claims, key) {
        Some(token) => halves(token),
        None => None,
    }
}

/// Issues the validation token for `claims` and splits it. Where no token
/// can be made the server has failed.
pub fn issue(key: &Vec<u8>, claims: &ValidationClaims) -> (r: Result<SplitToken, HandlingError>)
    ensures
        exists|map: serde_json::Map<String, serde_json::Value>|
            members(map) == validation_set(claims@) && match #[trigger] issued(map, key@) {
                Some(h) => r matches Ok(split) && split@ == h,
                None => r matches Err(HandlingError::InternalServerError),
            },
{
    let map = claims.to_map();
    let r = match jwt_encode(&map, key) {
        None => Err(HandlingError::InternalServerError),
        Some(token) => match split_token(token.as_str()) {
            Some(split) => Ok(split),
            None => Err(HandlingError::InternalServerError),
        },
    };
    assert(match issued(map, key@) {
        Some(h) => r matches Ok(split) && split@ == h,
        None => r matches Err(HandlingError::InternalServerError),
    });
    r
}

/// The link to be mailed: the site's address, `verify_auth`, and the payload
/// and the target as form-encoded arguments.
pub open spec fn link_text(base_url: Seq<char>, payload: Seq<char>, redirect: Seq<char>) -> Option<
    Seq<char>,
> {
    match form_text(seq![("claims"@, payload), ("redirect"@, redirect)]) {
        Some(args) => Some(base_url + "verify_auth?"@ + args),
        None => None,
    }
}

/// The link to be mailed.
pub fn verification_link(base_url: &str, payload: &str, redirect: &str) -> (r: Option<String>)
    ensures
        crate::query_args::owned_view(r) == link_text(base_url@, payload@, redirect@),
{
    let mut pairs: Vec<(String, String)> = Vec::new();
    pairs.push((String::from_str("claims"), String::from_str(payload)));
    pairs.push((String::from_str("redirect"), String::from_str(redirect)));
    assert(pair_views(pairs@) =~= seq![("claims"@, payload@), ("redirect"@, redirect@)]);
    match form_encode(&pairs) {
        None => None,
        Some(args) => {
            let mut link = String::from_str(base_url);
            link.append("verify_auth?");
            link.append(args.as_str());
            Some(link)
        },
    }
}

/// A mail that is to be sent, if its receiver is a known user: the link that
/// logs the receiver in.
#[derive(Clone, Debug, PartialEq, Eq)]
pub struct LoginMail {
    pub to: String,
    pub link: String,
}

/// What a mail holds.
pub struct LoginMailView {
    pub to: Seq<char>,
    pub link: Seq<char>,
}

impl View for LoginMail {
    type V = LoginMailView;

    open spec fn view(&self) -> LoginMailView {
        LoginMailView { to: self.to@, link: self.link@ }
    }
}

/// The cookie of the first step: `let-me-in`, kept from scripts, for the
/// browser's session, with the cookie's half of the token.
pub open spec fn pending_cookie(head_sign: Seq<char>) -> CookieView {
    CookieView { name: "let-me-in"@, value: head_sign, http_only: true, max_age: None }
}

/// The answer to the first step: status 200, the notice that a link was
/// sent, and the cookie with the cookie's half.
pub open spec fn pending_response(title: Seq<char>, email: Seq<char>, head_sign: Seq<char>) -> ResponseView {
    ResponseView {
        status: StatusView::OK,
        representations: seq![
            (text_html(), RendererView::Page(PageView::InitiateAuth { title, email })),
        ],
        cookies: seq![pending_cookie(head_sign)],
    }
}

/// What follows from a token that was issued: the answer, and the mail.
pub open spec fn pending(
    title: Seq<char>,
    base_url: Seq<char>,
    args: PostArgsView,
    split: SplitTokenView,
) -> Option<(ResponseView, LoginMailView)> {
    match link_text(base_url, split.payload, args.redirect) {
        Some(link) => Some(
            (
                pending_response(title, args.email, split.head_sign),
                LoginMailView { to: args.email, link },
            ),
        ),
        None => None,
    }
}

/// The view of an answer with its mail.
pub open spec fn step_view(r: Result<(Response, LoginMail), HandlingError>) -> Result<
    (ResponseView, LoginMailView),
    HandlingErrorView,
> {
    match r {
        Ok(pair) => Ok((pair.0@, pair.1@)),
        Err(e) => Err(e@),
    }
}

/// Makes the answer and the mail for a token that was issued. Where no link
/// can be written the server has failed.
pub fn answer_pending(title: String, base_url: &str, args: PostArgs, split: SplitToken) -> (r: Result<
    (Response, LoginMail),
    HandlingError,
>)
    ensures
        step_view(r) == match pending(title@, base_url@, args@, split@) {
            Some(pair) => Ok::<(ResponseView, LoginMailView), HandlingErrorView>(pair),
            None => Err::<(ResponseView, LoginMailView), HandlingErrorView>(
                HandlingErrorView::InternalServerError,
            ),
        },
{
    let PostArgs { email, redirect } = args;
    let SplitToken { head_sign, payload } = split;
    let link = match verification_link(base_url, payload.as_str(), redirect.as_str()) {
        Some(link) => link,
        None => {
            return Err(HandlingError::InternalServerError);
        },
    };
    let cookie = Cookie {
        name: String::from_str("let-me-in"),
        value: head_sign,
        http_only: true,
        max_age: None,
    };
    let mut cookies: Vec<Cookie> = Vec::new();
    cookies.push(cookie);
    let mut representations: Vec<(crate::media_type::MediaType, Renderer)> = Vec::new();
    representations.push(
        (html_type(), Renderer::Page(Page::InitiateAuth { title, email: email.clone() })),
    );
    let response = Response { status: Status::OK, representations, cookies };
    assert(response@.representations =~= seq![
        (
            text_html(),
            RendererView::Page(PageView::InitiateAuth { title: title@, email: email@ }),
        ),
    ]);
    assert(response@.cookies =~= seq![pending_cookie(head_sign@)]);
    Ok((response, LoginMail { to: email, link }))
}

/// Whether `map` carries the claims of the validation token for `email`,
/// issued at `now` with the random number `nonce`.
pub open spec fn carries_validation(
    map: serde_json::Map<String, serde_json::Value>,
    email: Seq<char>,
    now: i64,
    nonce: u32,
) -> bool {
    members(map) == validation_set(
        ValidationClaimsView {
            phase: AuthPhase::Validation,
            sub: email,
            exp: expiry(now),
            jti: nonce,
        },
    )
}

/// What follows from the token that carries the claims `map`: the answer
/// with its mail, or a failure of the server where no token, or no link, is
/// made.
pub open spec fn started_with(
    title: Seq<char>,
    base_url: Seq<char>,
    key: Seq<u8>,
    args: PostArgsView,
    map: serde_json::Map<String, serde_json::Value>,
) -> Result<(ResponseView, LoginMailView), HandlingErrorView> {
    match issued(map, key) {
        Some(split) => match pending(title, base_url, args, split) {
            Some(pair) => Ok(pair),
            None => Err(HandlingErrorView::InternalServerError),
        },
        None => Err(HandlingErrorView::InternalServerError),
    }
}

/// Whether `step` is what starting a login for the posted arguments `args`
/// gives at the time `now` with the random number `nonce`: `map` carries the
/// claims of the validation token for the posted address, and `step` is
/// what follows from that token.
pub open spec fn started(
    title: Seq<char>,
    base_url: Seq<char>,
    key: Seq<u8>,
    args: PostArgsView,
    now: i64,
    nonce: u32,
    map: serde_json::Map<String, serde_json::Value>,
    step: Result<(ResponseView, LoginMailView), HandlingErrorView>,
) -> bool {
    carries_validation(map, args.email, now, nonce) && step == started_with(
        title,
        base_url,
        key,
        args,
        map,
    )
}

/// Whether `step` is what a posted body is answered with. A body that is
/// not read is refused as `posted` says. For one that is read, a login is
/// started for its arguments at some time with some random number: the
/// answer is owed wherever the token and the link are made.
pub open spec fn stepped(
    title: Seq<char>,
    base_url: Seq<char>,
    key: Seq<u8>,
    content_type: Seq<char>,
    body: Seq<u8>,
    step: Result<(ResponseView, LoginMailView), HandlingErrorView>,
) -> bool {
    match posted(content_type, body) {
        Err(e) => step == Err::<(ResponseView, LoginMailView), HandlingErrorView>(e),
        Ok(args) => exists|now: i64, nonce: u32, map: serde_json::Map<String, serde_json::Value>|
            #[trigger] started(title, base_url, key, args, now, nonce, map, step),
    }
}

/// What is sent back for a step: the answer with its mail, or the page that
/// reports the failure, without a mail.
pub open spec fn reported(
    step: Result<(ResponseView, LoginMailView), HandlingErrorView>,
    title: Seq<char>,
) -> (ResponseView, Option<LoginMailView>) {
    match step {
        Ok(pair) => (pair.0, Some(pair.1)),
        Err(e) => (crate::handling_error::rendered(e, title), None),
    }
}

/// The view of a mail that may be absent.
pub open spec fn mail_view(mail: Option<LoginMail>) -> Option<LoginMailView> {
    match mail {
        Some(m) => Some(m@),
        None => None,
    }
}

/// Where a login is started with success, the answer has status 200 and
/// sets one cookie: `let-me-in`, kept from scripts, for the browser's
/// session, holding the cookie's half of the token that was issued. The
/// mail goes to the posted address with the link that holds the payload of
/// the same token and the posted target.
pub proof fn lemma_started_answer(
    title: Seq<char>,
    base_url: Seq<char>,
    key: Seq<u8>,
    args: PostArgsView,
    now: i64,
    nonce: u32,
    map: serde_json::Map<String, serde_json::Value>,
    answer: (ResponseView, LoginMailView),
)
    requires
        started(
            title,
            base_url,
            key,
            args,
            now,
            nonce,
            map,
            Ok::<(ResponseView, LoginMailView), HandlingErrorView>(answer),
        ),
    ensures
        jwt_signed(map, key) matches Some(token) && halves(token) matches Some(split) && answer.0
            == pending_response(title, args.email, split.head_sign) && answer.0.status
            == StatusView::OK && answer.0.cookies == seq![pending_cookie(split.head_sign)]
            && answer.1.to == args.email && link_text(base_url, split.payload, args.redirect)
            == Some(answer.1.link),
{
}

/// The resource that starts a login.
pub struct InitiateAuth {
    pub title: String,
    pub key: Vec<u8>,
    pub base_url: String,
}

impl InitiateAuth {
    /// Answers a posted address: a validation token is issued for it, good
    /// for two hours from now and told apart by a random number. The cookie's
    /// half goes into the answer and the payload into the mail.
    ///
    /// The time and the random number are not known beforehand. Whatever they
    /// are: a body that is not read is refused as `parse_post` says, and for
    /// one that is read the answer and its mail are those of a token issued
    /// for the posted address, wherever the token and the link are made.
    pub fn try_post(self, content_type: String, body: Vec<u8>) -> (r: Result<
        (Response, LoginMail),
        HandlingError,
    >)
        ensures
            stepped(self.title@, self.base_url@, self.key@, content_type@, body@, step_view(r)),
    {
        let args = match parse_post(content_type.as_str(), &body) {
            Ok(args) => args,
            Err(e) => {
                return Err(e);
            },
        };
        let now = now_timestamp();
        let nonce = random_nonce();
        let claims = validation_claims(args.email.as_str(), now, nonce);
        let InitiateAuth { title, key, base_url } = self;
        let token = issue(&key, &claims);
        let ghost posted_args = args@;
        let ghost map = choose|map: serde_json::Map<String, serde_json::Value>|
            members(map) == validation_set(claims@) && match #[trigger] issued(map, key@) {
                Some(h) => token matches Ok(split) && split@ == h,
                None => token matches Err(HandlingError::InternalServerError),
            };
        let r = match token {
            Ok(split) => answer_pending(title, base_url.as_str(), args, split),
            Err(e) => Err(e),
        };
        proof {
            assert(posted(content_type@, body@)->Ok_0 == posted_args);
            assert(carries_validation(map, posted_args.email, now, nonce));
            assert(started(
                self.title@,
                self.base_url@,
                self.key@,
                posted_args,
                now,
                nonce,
                map,
                step_view(r),
            ));
        }
        r
    }

    /// Answers a posted address, and reports a failure by its page.
    pub fn post_core(self, content_type: String, body: Vec<u8>) -> (r: (Response, Option<LoginMail>))
        ensures
            exists|step: Result<(ResponseView, LoginMailView), HandlingErrorView>|
                #[trigger] stepped(
                    self.title@,
                    self.base_url@,
                    self.key@,
                    content_type@,
                    body@,
                    step,
                ) && (r.0@, mail_view(r.1)) == reported(step, self.title@),
    {
        let title = self.title.clone();
        let step = self.try_post(content_type, body);
        let ghost outcome = step_view(step);
        let r = match step {
            Ok((response, mail)) => (response, Some(mail)),
            Err(e) => (e.render(title.as_str()), None),
        };
        assert(stepped(self.title@, self.base_url@, self.key@, content_type@, body@, outcome) && (
            r.0@,
            mail_view(r.1),
        ) == reported(outcome, self.title@));
        r
    }
}

} // verus!
