use std::cell::Cell;
use std::rc::Rc;

use pixu::auth::authorizer::{authorization_subject, not_authorized, Authorizer, Consumer, Provider};
use pixu::auth::claims::{parse_phase, phase_name, ValidationClaims};
use pixu::auth::claims_consumer::ClaimsConsumer;
use pixu::auth::initiate_auth::{
    answer_pending, issue, parse_post, validation_claims, verification_link, InitiateAuth, LoginMail,
    PostArgs,
};
use pixu::auth::jwt_cookie_handler::{accept_login, read_login_cookie, JwtCookieHandler};
use pixu::auth::token::{reassemble, split_token, SplitToken};
use pixu::auth::verify_auth::{
    accept_validation, mint_login_cookie, verify_login, ValidationArgsOwned, VerifyAuth,
    VerifyAuthArgsConsumer, VerifyAuthCookieHandler, VerifyError,
};
use pixu::auth::{AuthPhase, Claims};
use pixu::cache_control::CacheControl;
use pixu::handling_error::HandlingError;
use pixu::id30::Id30;
use pixu::media_type::MediaType;
use pixu::query_args::{FromPairs, QueryArgsConsumer, QueryArgsParser};
use pixu::request::{CookieHandler, QueryHandler};
use pixu::resource::{Error, Get, NoHandler, Page, Renderer, Resource, Response, Status};

const KEY: &[u8] = b"secret";

fn key() -> Vec<u8> {
    KEY.to_vec()
}

fn html() -> MediaType {
    MediaType::new("text", "html", vec!["charset=utf-8".to_string()])
}

fn now() -> i64 {
    std::time::SystemTime::now()
        .duration_since(std::time::UNIX_EPOCH)
        .unwrap()
        .as_secs() as i64
}

fn object(texts: &[(&str, &str)], numbers: &[(&str, i64)]) -> serde_json::Map<String, serde_json::Value> {
    let mut map = serde_json::Map::new();
    for (k, v) in texts {
        map.insert(k.to_string(), serde_json::Value::String(v.to_string()));
    }
    for (k, v) in numbers {
        map.insert(k.to_string(), serde_json::Value::from(*v));
    }
    map
}

fn sign(claims: &serde_json::Map<String, serde_json::Value>, secret: &[u8]) -> String {
    jsonwebtoken::encode(
        &jsonwebtoken::Header::default(),
        claims,
        &jsonwebtoken::EncodingKey::from_secret(secret),
    )
    .unwrap()
}

fn decode(token: &str, secret: &[u8]) -> Option<serde_json::Map<String, serde_json::Value>> {
    let mut validation = jsonwebtoken::Validation::new(jsonwebtoken::Algorithm::HS256);
    validation.validate_exp = false;
    validation.required_spec_claims.clear();
    jsonwebtoken::decode::<serde_json::Map<String, serde_json::Value>>(
        token,
        &jsonwebtoken::DecodingKey::from_secret(secret),
        &validation,
    )
    .ok()
    .map(|data| data.claims)
}

struct Qr;

impl Get for Qr {
    fn cache_control(&self) -> Option<CacheControl> {
        None
    }

    fn representations(self) -> Response {
        Response::new(Status::OK, vec![(html(), Renderer::Text("Ok".to_string()))])
    }
}

struct AuthorizationHandler {
    ok: Resource<Qr, NoHandler>,
}

impl ClaimsConsumer for AuthorizationHandler {
    type Get = Qr;
    type Post = NoHandler;

    fn claims(self, claims: Option<Claims>) -> Result<Resource<Qr, NoHandler>, Error> {
        let sub = claims.as_ref().map(|x| x.sub.as_str());

        if sub == Some("let-me-in") {
            Ok(self.ok)
        } else {
            panic!("not implemented")
        }
    }
}

#[test]
fn when_successful_then_status_ok() {
    let token = sign(&object(&[("phase", "LoggedIn"), ("sub", "let-me-in")], &[]), KEY);
    let token = vec![Some(token)];

    let ok = Resource { etag: None, get: Some(Qr), post: None };
    let c = AuthorizationHandler { ok };
    let a = JwtCookieHandler::new(KEY.into(), c);
    let resource = a.cookies(token).map_err(|_| ()).unwrap();
    let (Response { status, .. }, _) = resource.get();
    assert_eq!(status, Status::OK);
}

struct Recorder {
    seen: Rc<Cell<Option<Option<Claims>>>>,
}

impl ClaimsConsumer for Recorder {
    type Get = Qr;
    type Post = NoHandler;

    fn claims(self, claims: Option<Claims>) -> Result<Resource<Qr, NoHandler>, Error> {
        self.seen.set(Some(claims));
        Ok(Resource { etag: None, get: Some(Qr), post: None })
    }
}

fn claims_seen_for(values: Vec<Option<String>>) -> Option<Claims> {
    let seen = Rc::new(Cell::new(None));
    let handler = JwtCookieHandler::new(key(), Recorder { seen: seen.clone() });
    assert_eq!(handler.read_cookies(), vec!["let-me-in".to_string()]);
    assert!(handler.cookies(values).is_ok());
    seen.take().expect("the consumer is asked once")
}

#[test]
fn login_cookie_yields_its_claims() {
    let token = sign(&object(&[("phase", "LoggedIn"), ("sub", "a@example.com")], &[]), KEY);
    assert_eq!(
        claims_seen_for(vec![Some(token)]),
        Some(Claims { phase: AuthPhase::LoggedIn, sub: "a@example.com".to_string() })
    );
}

#[test]
fn missing_or_invalid_login_cookie_degrades_to_no_claims() {
    assert_eq!(claims_seen_for(vec![None]), None);
    assert_eq!(claims_seen_for(vec![]), None);
    assert_eq!(claims_seen_for(vec![Some("garbage".to_string())]), None);
    assert_eq!(claims_seen_for(vec![Some("a.b.c".to_string())]), None);
    let forged = sign(&object(&[("phase", "LoggedIn"), ("sub", "a@example.com")], &[]), b"other");
    assert_eq!(claims_seen_for(vec![Some(forged)]), None);
    let no_subject = sign(&object(&[("phase", "LoggedIn")], &[]), KEY);
    assert_eq!(claims_seen_for(vec![Some(no_subject)]), None);
    let odd_phase = sign(&object(&[("phase", "Admin"), ("sub", "a@example.com")], &[]), KEY);
    assert_eq!(claims_seen_for(vec![Some(odd_phase)]), None);
}

#[test]
fn validation_token_is_no_login_cookie() {
    let claims = validation_claims("a@example.com", now(), 7);
    let token = sign(&claims.to_map(), KEY);
    assert_eq!(claims_seen_for(vec![Some(token.clone())]), None);
    assert_eq!(read_login_cookie(&key(), Some(token.as_str())), None);
}

#[test]
fn login_token_is_no_validation_token() {
    // Claims of the phase `LoggedIn`, complete with expiry and number.
    let map = object(&[("phase", "LoggedIn"), ("sub", "a@example.com")], &[("exp", now() + 600), ("jti", 1)]);
    let split = split_token(&sign(&map, KEY)).unwrap();
    assert_eq!(
        verify_login(&key(), &split.head_sign, &split.payload),
        Err(VerifyError::WrongPhase)
    );
    // A login cookie as it is minted holds neither.
    let cookie = mint_login_cookie(&key(), "a@example.com".to_string()).unwrap();
    let split = split_token(&cookie.value).unwrap();
    assert_eq!(
        verify_login(&key(), &split.head_sign, &split.payload),
        Err(VerifyError::Rejected)
    );
}

#[test]
fn phase_names_are_read_back() {
    assert_eq!(phase_name(AuthPhase::Validation), "Validation");
    assert_eq!(phase_name(AuthPhase::LoggedIn), "LoggedIn");
    assert_eq!(parse_phase("Validation"), Some(AuthPhase::Validation));
    assert_eq!(parse_phase("LoggedIn"), Some(AuthPhase::LoggedIn));
    assert_eq!(parse_phase("loggedin"), None);
    assert_eq!(parse_phase(""), None);
}

#[test]
fn claims_are_carried_by_json_objects() {
    let login = Claims { phase: AuthPhase::LoggedIn, sub: "a@example.com".to_string() };
    let map = login.to_map();
    assert_eq!(map, object(&[("phase", "LoggedIn"), ("sub", "a@example.com")], &[]));
    assert_eq!(Claims::from_map(&map), Some(login));

    let validation = ValidationClaims {
        phase: AuthPhase::Validation,
        sub: "b@example.com".to_string(),
        exp: 1_700_000_000,
        jti: 0xFFFF_FFFF,
    };
    let map = validation.to_map();
    assert_eq!(
        map,
        object(
            &[("phase", "Validation"), ("sub", "b@example.com")],
            &[("exp", 1_700_000_000), ("jti", 0xFFFF_FFFF)]
        )
    );
    assert_eq!(ValidationClaims::from_map(&map), Some(validation));
    assert_eq!(
        Claims::from_map(&map),
        Some(Claims { phase: AuthPhase::Validation, sub: "b@example.com".to_string() })
    );
}

#[test]
fn incomplete_claims_are_not_read() {
    assert_eq!(Claims::from_map(&object(&[("sub", "x")], &[])), None);
    assert_eq!(Claims::from_map(&object(&[("phase", "LoggedIn")], &[])), None);
    assert_eq!(Claims::from_map(&object(&[("phase", "Other"), ("sub", "x")], &[])), None);
    assert_eq!(Claims::from_map(&object(&[("phase", "LoggedIn")], &[("sub", 1)])), None);
    let texts = [("phase", "Validation"), ("sub", "x")];
    assert_eq!(ValidationClaims::from_map(&object(&texts, &[("exp", 1)])), None);
    assert_eq!(ValidationClaims::from_map(&object(&texts, &[("jti", 1)])), None);
    assert_eq!(ValidationClaims::from_map(&object(&texts, &[("exp", 1), ("jti", -1)])), None);
    assert_eq!(
        ValidationClaims::from_map(&object(&texts, &[("exp", 1), ("jti", 0x1_0000_0000)])),
        None
    );
    let mut float_exp = object(&texts, &[("jti", 1)]);
    float_exp.insert("exp".to_string(), serde_json::Value::from(1.5));
    assert_eq!(ValidationClaims::from_map(&float_exp), None);
    assert!(ValidationClaims::from_map(&object(&texts, &[("exp", -5), ("jti", 0)])).is_some());
}

#[test]
fn decoded_claims_are_accepted_by_phase() {
    let validation = object(&[("phase", "Validation"), ("sub", "x")], &[("exp", 9), ("jti", 3)]);
    let login = object(&[("phase", "LoggedIn"), ("sub", "x")], &[("exp", 9), ("jti", 3)]);
    assert_eq!(
        accept_validation(Some(validation.clone())),
        Ok(ValidationClaims { phase: AuthPhase::Validation, sub: "x".to_string(), exp: 9, jti: 3 })
    );
    assert_eq!(accept_validation(Some(login.clone())), Err(VerifyError::WrongPhase));
    assert_eq!(accept_validation(None), Err(VerifyError::Rejected));
    assert_eq!(accept_validation(Some(object(&[("sub", "x")], &[]))), Err(VerifyError::Rejected));
    assert_eq!(
        accept_login(Some(login)),
        Some(Claims { phase: AuthPhase::LoggedIn, sub: "x".to_string() })
    );
    assert_eq!(accept_login(Some(validation)), None);
    assert_eq!(accept_login(None), None);
}

#[test]
fn token_splits_into_its_halves() {
    assert_eq!(
        split_token("head.payload.sign"),
        Some(SplitToken { head_sign: "head.sign".to_string(), payload: "payload".to_string() })
    );
    assert_eq!(
        split_token("a.b.c.d"),
        Some(SplitToken { head_sign: "a.c".to_string(), payload: "b".to_string() })
    );
    assert_eq!(
        split_token(".."),
        Some(SplitToken { head_sign: ".".to_string(), payload: String::new() })
    );
    assert_eq!(split_token("head.payload"), None);
    assert_eq!(split_token("nodots"), None);
    assert_eq!(split_token(""), None);
}

#[test]
fn halves_reassemble_to_the_token() {
    assert_eq!(reassemble("head.sign", "payload"), Some("head.payload.sign".to_string()));
    assert_eq!(reassemble("head.si.gn", "p"), Some("head.p.si.gn".to_string()));
    assert_eq!(reassemble(".", ""), Some("..".to_string()));
    assert_eq!(reassemble("headsign", "payload"), None);
    assert_eq!(reassemble("", "payload"), None);
    let token = sign(&object(&[("sub", "x")], &[]), KEY);
    let split = split_token(&token).unwrap();
    assert_eq!(reassemble(&split.head_sign, &split.payload), Some(token));
}

#[test]
fn validation_claims_expire_two_hours_on() {
    let claims = validation_claims("a@example.com", 1_000, 42);
    assert_eq!(
        claims,
        ValidationClaims {
            phase: AuthPhase::Validation,
            sub: "a@example.com".to_string(),
            exp: 8_200,
            jti: 42
        }
    );
    assert_eq!(validation_claims("x", -7_200, 0).exp, 0);
    assert_eq!(validation_claims("x", i64::MAX - 7_200, 0).exp, i64::MAX);
    assert_eq!(validation_claims("x", i64::MAX - 7_199, 0).exp, i64::MAX);
    assert_eq!(validation_claims("x", i64::MAX, 0).exp, i64::MAX);
}

#[test]
fn issued_token_carries_the_claims() {
    let claims = validation_claims("a@example.com", now(), 99);
    let split = issue(&key(), &claims).unwrap();
    let token = reassemble(&split.head_sign, &split.payload).unwrap();
    assert_eq!(decode(&token, KEY), Some(claims.to_map()));
    assert_eq!(decode(&token, b"other"), None);
    assert_eq!(verify_login(&key(), &split.head_sign, &split.payload), Ok(claims));
}

#[test]
fn verification_link_encodes_its_arguments() {
    assert_eq!(
        verification_link("http://127.0.0.1:1212/", "abc", "/x"),
        Some("http://127.0.0.1:1212/verify_auth?claims=abc&redirect=%2Fx".to_string())
    );
    assert_eq!(
        verification_link("", "a b&c", ""),
        Some("verify_auth?claims=a+b%26c&redirect=".to_string())
    );
}

#[test]
fn posted_arguments_are_read() {
    let form = "application/x-www-form-urlencoded";
    assert_eq!(
        parse_post(form, &b"email=a%40example.com&redirect=%2Fx".to_vec()),
        Ok(PostArgs { email: "a@example.com".to_string(), redirect: "/x".to_string() })
    );
    assert_eq!(
        parse_post(form, &b"redirect=&extra=1&email=".to_vec()),
        Ok(PostArgs { email: String::new(), redirect: String::new() })
    );
    let wrong_type = Err(HandlingError::BadRequest(
        "Unacceptable Content-Type, must be application/x-www-form-urlencoded",
    ));
    assert_eq!(parse_post("application/json", &b"email=a&redirect=b".to_vec()), wrong_type);
    assert_eq!(parse_post("", &Vec::new()), wrong_type);
    let invalid = Err(HandlingError::BadRequest("Invalid data"));
    assert_eq!(parse_post(form, &b"email=a".to_vec()), invalid);
    assert_eq!(parse_post(form, &b"redirect=b".to_vec()), invalid);
    assert_eq!(parse_post(form, &Vec::new()), invalid);
    assert_eq!(parse_post(form, &b"email=a&email=b&redirect=c".to_vec()), invalid);
    assert_eq!(
        PostArgs::from_pairs(&vec![("email".to_string(), "a".to_string())]),
        None
    );
}

#[test]
fn pending_answer_sets_the_cookie_half() {
    let args = PostArgs { email: "a@example.com".to_string(), redirect: "/x".to_string() };
    let split = SplitToken { head_sign: "h.s".to_string(), payload: "p".to_string() };
    let (response, mail) = answer_pending("Site".to_string(), "http://h/", args, split).unwrap();
    assert_eq!(response.status, Status::OK);
    assert_eq!(
        response.representations,
        vec![(
            html(),
            Renderer::Page(Page::InitiateAuth {
                title: "Site".to_string(),
                email: "a@example.com".to_string()
            })
        )]
    );
    assert_eq!(response.cookies.len(), 1);
    assert_eq!(response.cookies[0].to_string(), "let-me-in=h.s; HttpOnly");
    assert_eq!(
        mail,
        LoginMail {
            to: "a@example.com".to_string(),
            link: "http://h/verify_auth?claims=p&redirect=%2Fx".to_string()
        }
    );
}

fn initiate() -> InitiateAuth {
    InitiateAuth { title: "Site".to_string(), key: key(), base_url: "http://h/".to_string() }
}

fn post(body: &str) -> (Response, LoginMail) {
    initiate()
        .try_post("application/x-www-form-urlencoded".to_string(), body.as_bytes().to_vec())
        .unwrap()
}

fn claims_of_link(link: &str) -> (String, String) {
    let query = link.split_once('?').unwrap().1;
    let pairs: Vec<(String, String)> = serde_urlencoded::from_str(query).unwrap();
    let args = ValidationArgsOwned::from_pairs(&pairs).unwrap();
    (args.claims, args.redirect)
}

fn verify(cookie: Option<String>, payload: &str, redirect: &str) -> Response {
    VerifyAuth {
        title: "Site".to_string(),
        key: key(),
        claims: payload.to_string(),
        head_sign: cookie,
        redirect: redirect.to_string(),
    }
    .representations()
}

fn assert_redirect_without_login(response: Response, target: &str) {
    assert_eq!(response.status, Status::SeeOther(target.to_string()));
    assert!(response.cookies.is_empty());
    assert_eq!(
        response.representations,
        vec![(html(), Renderer::Page(Page::VerifyAuth { title: "Site".to_string() }))]
    );
}

#[test]
fn initiate_refuses_what_it_cannot_read() {
    assert_eq!(
        initiate().try_post("text/plain".to_string(), b"email=a&redirect=b".to_vec()),
        Err(HandlingError::BadRequest(
            "Unacceptable Content-Type, must be application/x-www-form-urlencoded"
        ))
    );
    assert_eq!(
        initiate().try_post("application/x-www-form-urlencoded".to_string(), b"x=1".to_vec()),
        Err(HandlingError::BadRequest("Invalid data"))
    );
    let (response, mail) = initiate().post_core("text/plain".to_string(), Vec::new());
    assert_eq!(response.status, Status::BadRequest);
    assert_eq!(mail, None);
}

#[test]
fn initiate_issues_a_token_good_for_two_hours() {
    let before = now();
    let (response, mail) = post("email=a%40example.com&redirect=%2Fx");
    let after = now();
    let (payload, _) = claims_of_link(&mail.link);
    let token = reassemble(&response.cookies[0].value, &payload).unwrap();
    let claims = ValidationClaims::from_map(&decode(&token, KEY).unwrap()).unwrap();
    assert_eq!(claims.phase, AuthPhase::Validation);
    assert_eq!(claims.sub, "a@example.com");
    assert!(before + 7_200 <= claims.exp && claims.exp <= after + 7_200);
}

#[test]
fn end_to_end_login() {
    // POST /initiate_auth {email: "a@example.com", redirect: "/x"}
    let (response, mail) = post("email=a%40example.com&redirect=%2Fx");
    assert_eq!(response.status, Status::OK);
    assert_eq!(mail.to, "a@example.com");
    assert!(mail.link.starts_with("http://h/verify_auth?claims="));
    let cookie = response.cookies[0].clone();
    assert_eq!(cookie.name, "let-me-in");
    assert!(cookie.http_only);
    assert_eq!(cookie.max_age, None);
    assert_eq!(cookie.value.matches('.').count(), 1);

    // GET /verify_auth?claims=<payload>&redirect=/x with that cookie
    let query = mail.link.split_once('?').unwrap().1.to_string();
    let consumer = VerifyAuthArgsConsumer { title: "Site".to_string(), key: key() };
    let handler = QueryArgsParser::new(consumer).query(Some(&query)).map_err(|_| ()).unwrap();
    assert_eq!(handler.read_cookies(), vec!["let-me-in".to_string()]);
    let resource = handler.cookies(vec![Some(cookie.value)]).map_err(|_| ()).unwrap();
    assert!(resource.post.is_none());
    let (response, cache_control) = resource.get();
    assert_eq!(cache_control, None);
    assert_eq!(response.status, Status::SeeOther("/x".to_string()));
    assert_eq!(response.cookies.len(), 1);
    let login = &response.cookies[0];
    assert_eq!(login.name, "let-me-in");
    assert!(login.http_only);
    assert_eq!(login.max_age, Some(60 * 24 * 60 * 60));
    assert_eq!(
        Claims::from_map(&decode(&login.value, KEY).unwrap()),
        Some(Claims { phase: AuthPhase::LoggedIn, sub: "a@example.com".to_string() })
    );
    assert_eq!(
        read_login_cookie(&key(), Some(login.value.as_str())),
        Some(Claims { phase: AuthPhase::LoggedIn, sub: "a@example.com".to_string() })
    );
}

#[test]
fn tampered_payload_fails_closed() {
    let (response, mail) = post("email=a%40example.com&redirect=%2Fx");
    let cookie = response.cookies[0].value.clone();
    let (payload, redirect) = claims_of_link(&mail.link);
    let mut tampered = payload.clone().into_bytes();
    let last = tampered.len() - 1;
    tampered[last] = if tampered[last] == b'A' { b'B' } else { b'A' };
    let tampered = String::from_utf8(tampered).unwrap();
    assert_redirect_without_login(verify(Some(cookie.clone()), &tampered, &redirect), "/x");
    assert_redirect_without_login(verify(Some(cookie.clone()), "", &redirect), "/x");
    // Claims for another address under the old signature.
    let other = validation_claims("b@example.com", now(), 1);
    let forged = split_token(&sign(&other.to_map(), b"not the key")).unwrap().payload;
    assert_redirect_without_login(verify(Some(cookie), &forged, &redirect), "/x");
}

#[test]
fn tampered_cookie_half_fails_closed() {
    let (response, mail) = post("email=a%40example.com&redirect=%2Fx");
    let cookie = response.cookies[0].value.clone();
    let (payload, redirect) = claims_of_link(&mail.link);
    let mut tampered = cookie.clone().into_bytes();
    let last = tampered.len() - 1;
    tampered[last] = if tampered[last] == b'A' { b'B' } else { b'A' };
    let tampered = String::from_utf8(tampered).unwrap();
    assert_redirect_without_login(verify(Some(tampered), &payload, &redirect), "/x");
    assert_redirect_without_login(verify(Some(cookie.replace('.', "")), &payload, &redirect), "/x");
    assert_redirect_without_login(verify(Some(String::new()), &payload, &redirect), "/x");
    assert_redirect_without_login(verify(None, &payload, &redirect), "/x");
}

#[test]
fn halves_of_two_issues_fail_closed() {
    let (first, first_mail) = post("email=a%40example.com&redirect=%2Fx");
    let (second, second_mail) = post("email=b%40example.com&redirect=%2Fy");
    let (first_payload, _) = claims_of_link(&first_mail.link);
    let (second_payload, _) = claims_of_link(&second_mail.link);
    let first_cookie = first.cookies[0].value.clone();
    let second_cookie = second.cookies[0].value.clone();
    assert_redirect_without_login(verify(Some(first_cookie.clone()), &second_payload, "/x"), "/x");
    assert_redirect_without_login(verify(Some(second_cookie.clone()), &first_payload, "/y"), "/y");
    // Each pair as it was issued is accepted.
    assert_eq!(verify(Some(first_cookie), &first_payload, "/x").cookies.len(), 1);
    assert_eq!(verify(Some(second_cookie), &second_payload, "/y").cookies.len(), 1);
}

#[test]
fn verify_login_names_each_failure() {
    let good = validation_claims("a@example.com", now(), 5);
    let split = issue(&key(), &good).unwrap();
    assert_eq!(verify_login(&key(), &split.head_sign, &split.payload), Ok(good.clone()));
    assert_eq!(verify_login(&key(), "nodot", &split.payload), Err(VerifyError::Malformed));
    assert_eq!(
        verify_login(&b"other".to_vec(), &split.head_sign, &split.payload),
        Err(VerifyError::Rejected)
    );
    // Two hours and more ago.
    let expired = validation_claims("a@example.com", now() - 7_200 - 3_600, 5);
    let split = issue(&key(), &expired).unwrap();
    assert_eq!(verify_login(&key(), &split.head_sign, &split.payload), Err(VerifyError::Rejected));
    let wrong = ValidationClaims { phase: AuthPhase::LoggedIn, ..good };
    let split = issue(&key(), &wrong).unwrap();
    assert_eq!(
        verify_login(&key(), &split.head_sign, &split.payload),
        Err(VerifyError::WrongPhase)
    );
}

#[test]
fn login_cookie_lives_sixty_days() {
    let cookie = mint_login_cookie(&key(), "a@example.com".to_string()).unwrap();
    assert_eq!(cookie.name, "let-me-in");
    assert!(cookie.http_only);
    assert_eq!(cookie.max_age, Some(5_184_000));
    assert!(cookie.to_string().ends_with("; HttpOnly; Max-Age=5184000"));
    assert_eq!(
        decode(&cookie.value, KEY),
        Some(object(&[("phase", "LoggedIn"), ("sub", "a@example.com")], &[]))
    );
}

#[test]
fn verify_auth_handlers_pass_their_parts_on() {
    let consumer = VerifyAuthArgsConsumer { title: "T".to_string(), key: key() };
    let args = ValidationArgsOwned { claims: "p".to_string(), redirect: "/r".to_string() };
    let handler: VerifyAuthCookieHandler = consumer.args(args).map_err(|_| ()).unwrap();
    assert_eq!(handler.claims, "p");
    assert_eq!(handler.redirect, "/r");
    let resource = handler.cookies(vec![Some("h.s".to_string())]).map_err(|_| ()).unwrap();
    let get = resource.get.unwrap();
    assert_eq!(get.head_sign, Some("h.s".to_string()));
    assert_eq!(get.login_cookie(), None);
    assert_eq!(
        ValidationArgsOwned::from_pairs(&vec![("claims".to_string(), "p".to_string())]),
        None
    );
}

#[derive(Debug, PartialEq)]
struct CanView(Id30);

struct FixedProvider {
    answer: Option<u32>,
    fail: bool,
    asked: Rc<Cell<Vec<String>>>,
}

impl Provider for FixedProvider {
    type Authorization = CanView;

    fn get_authorization(&self, sub: &str) -> Result<Option<CanView>, Error> {
        let mut asked = self.asked.take();
        asked.push(sub.to_string());
        self.asked.set(asked);
        if self.fail {
            Err(Error::InternalServerError)
        } else {
            Ok(self.answer.map(|n| CanView(Id30::from(n))))
        }
    }
}

struct CountingConsumer {
    given: Rc<Cell<Vec<CanView>>>,
}

impl Consumer for CountingConsumer {
    type Authorization = CanView;
    type Get = Qr;
    type Post = NoHandler;

    fn authorization(self, authorization: CanView) -> Result<Resource<Qr, NoHandler>, Error> {
        let mut given = self.given.take();
        given.push(authorization);
        self.given.set(given);
        Ok(Resource { etag: None, get: Some(Qr), post: None })
    }
}

struct Guarded {
    result: Result<Resource<Qr, NoHandler>, Error>,
    asked: Vec<String>,
    given: Vec<CanView>,
}

fn guarded(answer: Option<u32>, fail: bool, claims: Option<Claims>) -> Guarded {
    let asked = Rc::new(Cell::new(Vec::new()));
    let given = Rc::new(Cell::new(Vec::new()));
    let authorizer = Authorizer::new(
        "Site".to_string(),
        "abcdef".to_string(),
        FixedProvider { answer, fail, asked: asked.clone() },
        CountingConsumer { given: given.clone() },
    );
    let result = authorizer.claims(claims);
    Guarded { result, asked: asked.take(), given: given.take() }
}

fn logged_in(sub: &str) -> Option<Claims> {
    Some(Claims { phase: AuthPhase::LoggedIn, sub: sub.to_string() })
}

fn assert_not_authorized(result: Result<Resource<Qr, NoHandler>, Error>, claims: Option<Claims>) {
    match result {
        Err(Error::BlanketResponse(response)) => {
            assert_eq!(response.status, Status::Unauthorized);
            assert_eq!(response, not_authorized("Site", claims, "abcdef"));
        }
        _ => panic!("expected the answer 401"),
    }
}

#[test]
fn provider_without_capability_means_401_and_no_consumer() {
    let outcome = guarded(None, false, logged_in("a@example.com"));
    assert_eq!(outcome.asked, vec!["a@example.com".to_string()]);
    assert!(outcome.given.is_empty());
    assert_not_authorized(outcome.result, logged_in("a@example.com"));
}

#[test]
fn provider_with_capability_means_consumer_once_with_it() {
    let outcome = guarded(Some(0x1234), false, logged_in("a@example.com"));
    assert_eq!(outcome.asked, vec!["a@example.com".to_string()]);
    assert_eq!(outcome.given, vec![CanView(Id30::from(0x1234))]);
    let resource = outcome.result.map_err(|_| ()).unwrap();
    assert_eq!(resource.get().0.status, Status::OK);
}

#[test]
fn without_login_claims_the_provider_is_not_asked() {
    let outcome = guarded(Some(1), false, None);
    assert!(outcome.asked.is_empty());
    assert!(outcome.given.is_empty());
    assert_not_authorized(outcome.result, None);

    let pending = Some(Claims { phase: AuthPhase::Validation, sub: "a@example.com".to_string() });
    let outcome = guarded(Some(1), false, pending.clone());
    assert!(outcome.asked.is_empty());
    assert!(outcome.given.is_empty());
    assert_not_authorized(outcome.result, pending);
}

#[test]
fn provider_failure_is_passed_on() {
    let outcome = guarded(Some(1), true, logged_in("a@example.com"));
    assert_eq!(outcome.asked.len(), 1);
    assert!(outcome.given.is_empty());
    assert!(matches!(outcome.result, Err(Error::InternalServerError)));
}

#[test]
fn not_authorized_carries_path_and_claims() {
    let response = not_authorized("Site", logged_in("a@example.com"), "img/abcdef");
    assert_eq!(response.status, Status::Unauthorized);
    assert_eq!(
        response.representations,
        vec![(
            html(),
            Renderer::Page(Page::NotAuthorized {
                title: "Site".to_string(),
                claims: logged_in("a@example.com"),
                self_url: "img/abcdef".to_string()
            })
        )]
    );
    assert!(response.cookies.is_empty());
}

#[test]
fn subject_is_that_of_login_claims() {
    assert_eq!(authorization_subject(&logged_in("x")), Some("x"));
    assert_eq!(authorization_subject(&None), None);
    assert_eq!(
        authorization_subject(&Some(Claims { phase: AuthPhase::Validation, sub: "x".to_string() })),
        None
    );
}

#[test]
fn issued_tokens_are_told_apart_by_their_numbers() {
    let mut numbers = Vec::new();
    for _ in 0..4 {
        let (response, mail) = post("email=a%40example.com&redirect=%2Fx");
        let (payload, _) = claims_of_link(&mail.link);
        let token = reassemble(&response.cookies[0].value, &payload).unwrap();
        numbers.push(ValidationClaims::from_map(&decode(&token, KEY).unwrap()).unwrap().jti);
    }
    assert!(numbers.iter().any(|n| *n != numbers[0]));
}
