use pixu::assembly::{build_response, parse_accept, select_representation, HttpResponse};
use pixu::cache_control::{CacheControl, Cacheability, CacheabilityPolicy, Revalidation};
use pixu::comment_position::CommentPosition;
use pixu::cookie::Cookie;
use pixu::etag::ETag;
use pixu::handling_error::HandlingError;
use pixu::media_type::MediaType;
use pixu::query_args::{field_of, FromPairs, QueryArgsConsumer, QueryArgsParser};
use pixu::request::{
    collect_cookies, dispatch, handle_request, header_text, resolve_path, try_handle_request,
    CookieHandler, Lookup, Method, QueryHandler, Request,
};
use pixu::resource::{
    bad_request, html_type, plain_text_type, Error, Get, NoHandler, Page, Post, Renderer,
    Resource, Response, Status,
};

fn html() -> MediaType {
    MediaType::new("text", "html", vec!["charset=utf-8".to_string()])
}

fn header(name: &str, value: &str) -> (String, String) {
    (name.to_string(), value.to_string())
}

struct Qr;

impl Get for Qr {
    fn cache_control(&self) -> Option<CacheControl> {
        None
    }

    fn representations(self) -> Response {
        Response::new(Status::OK, vec![(html(), Renderer::Text("Ok".to_string()))])
    }
}

struct Echo;

impl Post for Echo {
    fn post(self, content_type: String, body: Vec<u8>) -> Response {
        Response::new(
            Status::Created(content_type),
            vec![(plain_text_type(), Renderer::Bytes(body))],
        )
    }
}

struct Cached;

impl Get for Cached {
    fn cache_control(&self) -> Option<CacheControl> {
        Some(CacheControl {
            cacheability: Cacheability { private: true, policy: CacheabilityPolicy::AllowCaching },
            revalidation: Revalidation {
                must_revalidate: false,
                proxy_revalidate: false,
                immutable: true,
            },
        })
    }

    fn representations(self) -> Response {
        Response::new(
            Status::OK,
            vec![(MediaType::parse("image/jpeg"), Renderer::Bytes(vec![1, 2, 3]))],
        )
    }
}

#[test]
fn cache_control_default_is_private_and_allows_caching() {
    let cc = CacheControl::default();
    assert!(cc.cacheability.private);
    assert_eq!(cc.cacheability.policy, CacheabilityPolicy::AllowCaching);
    assert_eq!(CacheabilityPolicy::default(), CacheabilityPolicy::AllowCaching);
    assert_eq!(
        Revalidation::default(),
        Revalidation { must_revalidate: false, proxy_revalidate: false, immutable: false }
    );
    assert_eq!(cc.to_string(), "private");
}

#[test]
fn cache_control_text_follows_the_grammar() {
    let mut cc = CacheControl::default();
    cc.cacheability.private = false;
    assert_eq!(cc.to_string(), "public");
    cc.cacheability.policy = CacheabilityPolicy::NoCache;
    assert_eq!(cc.to_string(), "public, no-cache");
    cc.cacheability.policy = CacheabilityPolicy::NoStore;
    cc.revalidation.must_revalidate = true;
    assert_eq!(cc.to_string(), "public, no-store, must-revalidate");
    cc.revalidation.proxy_revalidate = true;
    cc.revalidation.immutable = true;
    assert_eq!(
        cc.to_string(),
        "public, no-store, must-revalidate, proxy-revalidate, max-age=31536000, immutable"
    );
}

#[test]
fn immutable_implies_a_year_of_max_age() {
    let mut cc = CacheControl::default();
    cc.revalidation.immutable = true;
    assert_eq!(cc.to_string(), "private, max-age=31536000, immutable");
}

#[test]
fn etag_text_is_quoted() {
    assert_eq!(ETag::Strong("abc".to_string()).to_string(), "\"abc\"");
    assert_eq!(ETag::Weak("abc".to_string()).to_string(), "W/\"abc\"");
    assert_eq!(ETag::Strong(String::new()).to_string(), "\"\"");
}

#[test]
fn media_type_text_joins_arguments() {
    assert_eq!(MediaType::new("text", "plain", vec![]).to_string(), "text/plain");
    assert_eq!(html().to_string(), "text/html;charset=utf-8");
    let many = MediaType::new("a", "b", vec!["x=1".to_string(), "y=2".to_string(), "z".to_string()]);
    assert_eq!(many.to_string(), "a/b;x=1&y=2&z");
    assert_eq!(html_type(), html());
    assert_eq!(plain_text_type(), MediaType::new("text", "plain", vec![]));
}

#[test]
fn media_type_parse_splits_at_the_first_slash() {
    let mt = MediaType::parse("image/jpeg");
    assert_eq!(mt.type_category, "image");
    assert_eq!(mt.subtype, "jpeg");
    assert!(mt.args.is_empty());
    let odd = MediaType::parse("a/b/c");
    assert_eq!(odd.type_category, "a");
    assert_eq!(odd.subtype, "b/c");
    let empty = MediaType::parse("/");
    assert_eq!(empty.type_category, "");
    assert_eq!(empty.subtype, "");
}

#[test]
fn set_cookie_text_lists_the_attributes() {
    let plain = Cookie {
        name: "let-me-in".to_string(),
        value: "head.sign".to_string(),
        http_only: false,
        max_age: None,
    };
    assert_eq!(plain.to_string(), "let-me-in=head.sign");
    let session = Cookie { http_only: true, ..plain.clone() };
    assert_eq!(session.to_string(), "let-me-in=head.sign; HttpOnly");
    let login = Cookie { max_age: Some(5_184_000), ..session.clone() };
    assert_eq!(login.to_string(), "let-me-in=head.sign; HttpOnly; Max-Age=5184000");
    let zero = Cookie { max_age: Some(0), ..plain.clone() };
    assert_eq!(zero.to_string(), "let-me-in=head.sign; Max-Age=0");
    let negative = Cookie { max_age: Some(-12), ..plain };
    assert_eq!(negative.to_string(), "let-me-in=head.sign; Max-Age=-12");
}

#[test]
fn method_not_allowed_lists_what_is_supported() {
    let get_only: Resource<Qr, Echo> = Resource { etag: None, get: Some(Qr), post: None };
    assert_eq!(
        get_only.method_not_allowed().status,
        Status::MethodNotAllowed { allow: "OPTIONS, GET, HEAD".to_string() }
    );
    let post_only: Resource<Qr, Echo> = Resource { etag: None, get: None, post: Some(Echo) };
    assert_eq!(
        post_only.method_not_allowed().status,
        Status::MethodNotAllowed { allow: "OPTIONS, POST".to_string() }
    );
    let both: Resource<Qr, Echo> = Resource { etag: None, get: Some(Qr), post: Some(Echo) };
    assert_eq!(
        both.method_not_allowed().status,
        Status::MethodNotAllowed { allow: "OPTIONS, GET, HEAD, POST".to_string() }
    );
    let neither: Resource<Qr, Echo> = Resource { etag: None, get: None, post: None };
    let response = neither.method_not_allowed();
    assert_eq!(response.status, Status::MethodNotAllowed { allow: "OPTIONS".to_string() });
    assert_eq!(
        response.representations,
        vec![(
            MediaType::new("text", "plain", vec![]),
            Renderer::Text("Method Not Allowed\n".to_string())
        )]
    );
    assert!(response.cookies.is_empty());
}

#[test]
fn get_only_resource_answers_post_with_405() {
    let resource: Resource<Qr, NoHandler> = Resource { etag: None, get: Some(Qr), post: None };
    let response = resource.post("text/plain".to_string(), vec![]);
    assert_eq!(
        response.status,
        Status::MethodNotAllowed { allow: "OPTIONS, GET, HEAD".to_string() }
    );
    let sent = build_response(None, response, None, None);
    assert_eq!(sent.status, 405);
    assert_eq!(sent.headers[0], header("allow", "OPTIONS, GET, HEAD"));
}

#[test]
fn post_only_resource_answers_get_with_405() {
    let resource: Resource<NoHandler, Echo> = Resource { etag: None, get: None, post: Some(Echo) };
    let (response, cache_control) = resource.get();
    assert_eq!(response.status, Status::MethodNotAllowed { allow: "OPTIONS, POST".to_string() });
    assert_eq!(cache_control, None);
}

#[test]
fn handlers_are_invoked_where_they_exist() {
    let resource: Resource<Cached, Echo> =
        Resource { etag: None, get: Some(Cached), post: Some(Echo) };
    let (response, cache_control) = resource.get();
    assert_eq!(response.status, Status::OK);
    assert_eq!(cache_control.unwrap().to_string(), "private, max-age=31536000, immutable");

    let resource: Resource<Cached, Echo> =
        Resource { etag: None, get: Some(Cached), post: Some(Echo) };
    let response = resource.post("a/b".to_string(), vec![7, 8]);
    assert_eq!(response.status, Status::Created("a/b".to_string()));
    assert_eq!(response.representations[0].1, Renderer::Bytes(vec![7, 8]));
}

#[test]
fn no_handler_answers_that_nothing_is_allowed() {
    assert_eq!(
        Get::representations(NoHandler).status,
        Status::MethodNotAllowed { allow: "OPTIONS".to_string() }
    );
    assert_eq!(Get::cache_control(&NoHandler), None);
    assert_eq!(
        NoHandler.post(String::new(), vec![]).status,
        Status::MethodNotAllowed { allow: "OPTIONS".to_string() }
    );
}

#[test]
fn bad_request_is_plain_text() {
    let response = bad_request();
    assert_eq!(response.status, Status::BadRequest);
    assert_eq!(
        response.representations,
        vec![(MediaType::new("text", "plain", vec![]), Renderer::Text("Bad Request\n".to_string()))]
    );
}

#[test]
fn handling_errors_render_as_pages() {
    let bad = HandlingError::BadRequest("Invalid data").render("Site");
    assert_eq!(bad.status, Status::BadRequest);
    assert_eq!(
        bad.representations,
        vec![(
            html(),
            Renderer::Page(Page::BadRequest {
                title: "Site".to_string(),
                details: "Invalid data".to_string()
            })
        )]
    );
    let failed = HandlingError::InternalServerError.render("Site");
    assert_eq!(failed.status, Status::InternalServerError);
    assert_eq!(
        failed.representations,
        vec![(html(), Renderer::Page(Page::InternalServerError { title: "Site".to_string() }))]
    );
    assert!(failed.cookies.is_empty());
}

fn two_representations() -> Response {
    Response::new(
        Status::OK,
        vec![
            (html(), Renderer::Text("<p>hi</p>".to_string())),
            (MediaType::new("application", "json", vec![]), Renderer::Text("{}".to_string())),
        ],
    )
}

#[test]
fn accept_entries_are_trimmed_and_cut() {
    let entries = parse_accept("text/html, application/json;q=0.9 ,\t*/*;q=0.1");
    let texts: Vec<String> = entries.iter().map(|e| e.iter().collect()).collect();
    assert_eq!(texts, vec!["text/html", "application/json", "*/*"]);
    let one = parse_accept("");
    assert_eq!(one.len(), 1);
    assert!(one[0].is_empty());
}

#[test]
fn representation_is_chosen_by_accept() {
    let reps = two_representations().representations;
    assert_eq!(select_representation(&reps, None), 0);
    assert_eq!(select_representation(&reps, Some("application/json")), 1);
    assert_eq!(select_representation(&reps, Some("text/html")), 0);
    // The declared order decides between two listed types.
    assert_eq!(select_representation(&reps, Some("application/json, text/html")), 0);
    // No match, wildcards and other cases fall back to the first.
    assert_eq!(select_representation(&reps, Some("image/png")), 0);
    assert_eq!(select_representation(&reps, Some("*/*")), 0);
    assert_eq!(select_representation(&reps, Some("Application/JSON")), 0);
    assert_eq!(select_representation(&reps, Some("image/png, application/json;q=0.5")), 1);
}

#[test]
fn vary_is_set_for_two_or_more_representations() {
    for accept in [None, Some("text/html"), Some("application/json"), Some("image/png")] {
        let sent = build_response(None, two_representations(), None, accept);
        assert!(sent.headers.contains(&header("vary", "Accept")));
    }
    let json = build_response(None, two_representations(), None, Some("application/json"));
    assert_eq!(
        json.headers,
        vec![header("vary", "Accept"), header("content-type", "application/json")]
    );
    assert_eq!(json.body, Renderer::Text("{}".to_string()));
    let first = build_response(None, two_representations(), None, None);
    assert_eq!(
        first.headers,
        vec![header("vary", "Accept"), header("content-type", "text/html;charset=utf-8")]
    );
    assert_eq!(first.body, Renderer::Text("<p>hi</p>".to_string()));
}

#[test]
fn vary_is_not_set_for_one_representation() {
    let response = Response::new(Status::OK, vec![(html(), Renderer::Text("x".to_string()))]);
    let sent = build_response(None, response, None, Some("text/html"));
    assert_eq!(sent.headers, vec![header("content-type", "text/html;charset=utf-8")]);
    assert_eq!(sent.status, 200);
}

#[test]
fn headers_are_assembled_in_order() {
    let mut response = two_representations();
    response.status = Status::Created("/new".to_string());
    response.cookies = vec![
        Cookie { name: "a".to_string(), value: "1".to_string(), http_only: true, max_age: None },
        Cookie { name: "b".to_string(), value: "2".to_string(), http_only: false, max_age: Some(9) },
    ];
    let mut cc = CacheControl::default();
    cc.revalidation.must_revalidate = true;
    let sent: HttpResponse =
        build_response(Some(ETag::Weak("v1".to_string())), response, Some(cc), None);
    assert_eq!(sent.status, 201);
    assert_eq!(
        sent.headers,
        vec![
            header("location", "/new"),
            header("vary", "Accept"),
            header("content-type", "text/html;charset=utf-8"),
            header("etag", "W/\"v1\""),
            header("cache-control", "private, must-revalidate"),
            header("set-cookie", "a=1; HttpOnly"),
            header("set-cookie", "b=2; Max-Age=9"),
        ]
    );
}

#[test]
fn every_status_has_its_number_and_header() {
    let cases = vec![
        (Status::OK, 200, None),
        (Status::Created("/c".to_string()), 201, Some(header("location", "/c"))),
        (Status::MovedPermanently("/m".to_string()), 301, Some(header("location", "/m"))),
        (Status::SeeOther("/s".to_string()), 303, Some(header("location", "/s"))),
        (Status::BadRequest, 400, None),
        (Status::Unauthorized, 401, None),
        (Status::NotFound, 404, None),
        (Status::MethodNotAllowed { allow: "OPTIONS".to_string() }, 405, Some(header("allow", "OPTIONS"))),
        (Status::InternalServerError, 500, None),
    ];
    for (status, code, first) in cases {
        let response = Response::new(status, vec![(html(), Renderer::Text(String::new()))]);
        let sent = build_response(None, response, None, None);
        assert_eq!(sent.status, code);
        match first {
            Some(h) => assert_eq!(sent.headers[0], h),
            None => assert_eq!(sent.headers[0].0, "content-type"),
        }
    }
}

#[test]
fn header_text_needs_visible_ascii() {
    assert_eq!(header_text(&b"text/html".to_vec()), Ok("text/html".to_string()));
    assert_eq!(header_text(&b"a\tb c~".to_vec()), Ok("a\tb c~".to_string()));
    assert_eq!(header_text(&Vec::new()), Ok(String::new()));
    assert_eq!(header_text(&vec![0x61, 0xC3, 0xA9]), Err(Error::BadRequest));
    assert_eq!(header_text(&vec![0x61, 0x7F]), Err(Error::BadRequest));
    assert_eq!(header_text(&vec![0x0A]), Err(Error::BadRequest));
}

#[test]
fn path_must_begin_with_a_slash() {
    assert_eq!(resolve_path("/"), Ok(String::new()));
    assert_eq!(resolve_path("/img/abcdef"), Ok("img/abcdef".to_string()));
    assert_eq!(resolve_path("//x"), Ok("/x".to_string()));
    assert_eq!(resolve_path(""), Err(Error::BadRequest));
    assert_eq!(resolve_path("*"), Err(Error::BadRequest));
    assert_eq!(resolve_path("img/"), Err(Error::BadRequest));
}

fn names(list: &[&str]) -> Vec<String> {
    list.iter().map(|s| s.to_string()).collect()
}

#[test]
fn cookies_are_collected_by_name() {
    let wanted = names(&["let-me-in", "other"]);
    let sent = Some(b"x=1; other=two; let-me-in=abc.def; y=2".to_vec());
    assert_eq!(
        collect_cookies(&wanted, &sent),
        Ok(vec![Some("abc.def".to_string()), Some("two".to_string())])
    );
    assert_eq!(collect_cookies(&wanted, &None), Ok(vec![None, None]));
    assert_eq!(
        collect_cookies(&wanted, &Some(b"other=1".to_vec())),
        Ok(vec![None, Some("1".to_string())])
    );
}

#[test]
fn later_cookie_overrides_earlier_one() {
    let wanted = names(&["a"]);
    assert_eq!(
        collect_cookies(&wanted, &Some(b"a=1; a=2".to_vec())),
        Ok(vec![Some("2".to_string())])
    );
    // A name that is listed twice is filled at its first place.
    let twice = names(&["a", "a"]);
    assert_eq!(
        collect_cookies(&twice, &Some(b"a=1".to_vec())),
        Ok(vec![Some("1".to_string()), None])
    );
}

#[test]
fn cookie_pairs_are_parted_by_semicolon_and_space() {
    let wanted = names(&["a", "b"]);
    // Without the space `b=2` is an attribute of the first pair.
    assert_eq!(
        collect_cookies(&wanted, &Some(b"a=1;b=2".to_vec())),
        Ok(vec![Some("1".to_string()), None])
    );
}

#[test]
fn malformed_cookie_header_is_a_bad_request() {
    let wanted = names(&["a"]);
    assert_eq!(collect_cookies(&wanted, &Some(b"novalue".to_vec())), Err(Error::BadRequest));
    assert_eq!(collect_cookies(&wanted, &Some(b"a=1; =2".to_vec())), Err(Error::BadRequest));
    assert_eq!(collect_cookies(&wanted, &Some(vec![0x61, 0x3D, 0xFF])), Err(Error::BadRequest));
    assert_eq!(collect_cookies(&wanted, &Some(Vec::new())), Err(Error::BadRequest));
}

#[test]
fn handler_without_cookies_ignores_the_header() {
    assert_eq!(collect_cookies(&Vec::new(), &Some(b"novalue".to_vec())), Ok(vec![]));
    assert_eq!(collect_cookies(&Vec::new(), &Some(vec![0xFF])), Ok(vec![]));
}

fn request(method: Method, path: &str) -> Request {
    Request {
        method,
        path: path.to_string(),
        query: None,
        cookie: None,
        accept: None,
        content_type: None,
        body: Vec::new(),
    }
}

#[test]
fn dispatch_goes_by_method() {
    let resource: Resource<Qr, Echo> = Resource { etag: None, get: Some(Qr), post: Some(Echo) };
    let (response, _) = dispatch(resource, Method::Get, &None, vec![]);
    assert_eq!(response.status, Status::OK);

    let resource: Resource<Qr, Echo> = Resource { etag: None, get: Some(Qr), post: Some(Echo) };
    let (response, cc) = dispatch(resource, Method::Post, &Some(b"text/x".to_vec()), vec![1]);
    assert_eq!(response.status, Status::Created("text/x".to_string()));
    assert_eq!(cc, None);

    let resource: Resource<Qr, Echo> = Resource { etag: None, get: Some(Qr), post: Some(Echo) };
    let (response, _) = dispatch(resource, Method::Other, &None, vec![]);
    assert_eq!(
        response.status,
        Status::MethodNotAllowed { allow: "OPTIONS, GET, HEAD, POST".to_string() }
    );
}

#[test]
fn post_without_readable_content_type_is_a_bad_request() {
    let resource: Resource<Qr, Echo> = Resource { etag: None, get: Some(Qr), post: Some(Echo) };
    let (response, _) = dispatch(resource, Method::Post, &None, vec![]);
    assert_eq!(response, bad_request());
    let resource: Resource<Qr, Echo> = Resource { etag: None, get: Some(Qr), post: Some(Echo) };
    let (response, _) = dispatch(resource, Method::Post, &Some(vec![0xFF]), vec![]);
    assert_eq!(response, bad_request());
}

struct OneSite;

impl Lookup for OneSite {
    type Handler = Resource<Qr, Echo>;

    fn lookup(&self, path: &str) -> Result<Self::Handler, Response> {
        if path == "here" {
            Ok(Resource { etag: Some(ETag::Strong("t".to_string())), get: Some(Qr), post: None })
        } else {
            Err(Response::new(
                Status::NotFound,
                vec![(html(), Renderer::Text("Not found!\n".to_string()))],
            ))
        }
    }
}

#[test]
fn request_is_carried_to_its_resource() {
    let outcome = try_handle_request(&OneSite, request(Method::Get, "/here"));
    let (etag, response, cache_control) = outcome.unwrap();
    assert_eq!(etag, Some(ETag::Strong("t".to_string())));
    assert_eq!(response.status, Status::OK);
    assert_eq!(cache_control, None);

    let sent = handle_request(&OneSite, "Site", request(Method::Get, "/here"));
    assert_eq!(sent.status, 200);
    assert_eq!(
        sent.headers,
        vec![header("content-type", "text/html;charset=utf-8"), header("etag", "\"t\"")]
    );
    assert_eq!(sent.body, Renderer::Text("Ok".to_string()));
}

#[test]
fn lookup_answer_is_passed_on_unchanged() {
    let outcome = try_handle_request(&OneSite, request(Method::Get, "/nowhere"));
    match outcome {
        Err(Error::BlanketResponse(response)) => assert_eq!(response.status, Status::NotFound),
        _ => panic!("expected the answer of the lookup"),
    }
    let sent = handle_request(&OneSite, "Site", request(Method::Get, "/nowhere"));
    assert_eq!(sent.status, 404);
    assert_eq!(sent.body, Renderer::Text("Not found!\n".to_string()));
}

#[test]
fn unrooted_path_is_a_bad_request() {
    assert_eq!(
        try_handle_request(&OneSite, request(Method::Get, "here")).map(|_| ()),
        Err(Error::BadRequest)
    );
    let sent = handle_request(&OneSite, "Site", request(Method::Get, "*"));
    assert_eq!(sent.status, 400);
    assert_eq!(
        sent.body,
        Renderer::Page(Page::BadRequest {
            title: "Site".to_string(),
            details: "Bad request".to_string()
        })
    );
}

#[test]
fn unreadable_accept_header_is_a_bad_request() {
    let mut req = request(Method::Get, "/here");
    req.accept = Some(vec![0xFF]);
    assert_eq!(try_handle_request(&OneSite, req).map(|_| ()), Err(Error::BadRequest));
}

#[test]
fn unsupported_method_is_answered_with_405() {
    let sent = handle_request(&OneSite, "Site", request(Method::Other, "/here"));
    assert_eq!(sent.status, 405);
    assert_eq!(sent.headers[0], header("allow", "OPTIONS, GET, HEAD"));
    let sent = handle_request(&OneSite, "Site", request(Method::Post, "/here"));
    assert_eq!(sent.status, 400);
    let mut req = request(Method::Post, "/here");
    req.content_type = Some(b"text/plain".to_vec());
    let sent = handle_request(&OneSite, "Site", req);
    assert_eq!(sent.status, 405);
}

struct Empty;

impl Get for Empty {
    fn cache_control(&self) -> Option<CacheControl> {
        None
    }

    fn representations(self) -> Response {
        Response::new(Status::OK, vec![])
    }
}

struct EmptySite;

impl Lookup for EmptySite {
    type Handler = Resource<Empty, NoHandler>;

    fn lookup(&self, _path: &str) -> Result<Self::Handler, Response> {
        Ok(Resource { etag: None, get: Some(Empty), post: None })
    }
}

#[test]
fn response_without_representation_is_a_server_failure() {
    let sent = handle_request(&EmptySite, "Site", request(Method::Get, "/"));
    assert_eq!(sent.status, 500);
    assert_eq!(
        sent.body,
        Renderer::Page(Page::InternalServerError { title: "Site".to_string() })
    );
}

#[test]
fn resource_is_its_own_cookie_and_query_handler() {
    let resource: Resource<Qr, Echo> = Resource { etag: None, get: Some(Qr), post: None };
    assert!(resource.read_cookies().is_empty());
    let resource = resource.query(Some("a=b")).map_err(|_| ()).unwrap();
    let resource = resource.cookies(vec![]).map_err(|_| ()).unwrap();
    assert!(resource.get.is_some());
}

struct Pair {
    a: String,
    b: String,
}

impl FromPairs for Pair {
    fn from_pairs(pairs: &Vec<(String, String)>) -> Option<Self> {
        Some(Pair { a: field_of(pairs, "a")?, b: field_of(pairs, "b")? })
    }
}

struct PairConsumer;

impl QueryArgsConsumer for PairConsumer {
    type Args = Pair;
    type Handler = Resource<Qr, Echo>;

    fn args(self, args: Pair) -> Result<Self::Handler, Error> {
        Ok(Resource { etag: Some(ETag::Strong(args.a + "+" + &args.b)), get: None, post: None })
    }
}

#[test]
fn query_arguments_are_decoded_and_handed_on() {
    let parser = QueryArgsParser::new(PairConsumer);
    let resource = parser.query(Some("a=x%20y&b=z%2Fw&c=ignored")).map_err(|_| ()).unwrap();
    assert_eq!(resource.etag, Some(ETag::Strong("x y+z/w".to_string())));
}

#[test]
fn missing_or_repeated_arguments_are_a_bad_request() {
    let refused = |query: Option<&str>| {
        matches!(QueryArgsParser::new(PairConsumer).query(query), Err(Error::BadRequest))
    };
    assert!(refused(None));
    assert!(refused(Some("")));
    assert!(refused(Some("a=1")));
    assert!(refused(Some("a=1&a=2&b=3")));
    assert!(!refused(Some("b=2&a=1")));
}

#[test]
fn field_is_the_value_of_the_one_pair_of_its_name() {
    let pairs = vec![
        ("a".to_string(), "1".to_string()),
        ("b".to_string(), "2".to_string()),
        ("b".to_string(), "3".to_string()),
    ];
    assert_eq!(field_of(&pairs, "a"), Some("1".to_string()));
    assert_eq!(field_of(&pairs, "b"), None);
    assert_eq!(field_of(&pairs, "c"), None);
    assert_eq!(field_of(&Vec::new(), "a"), None);
}

#[test]
fn comment_position_has_three_names() {
    assert_eq!(CommentPosition::Top.as_str(), "top");
    assert_eq!(CommentPosition::Center.as_str(), "center");
    assert_eq!(CommentPosition::Bottom.as_str(), "bottom");
    assert_eq!(CommentPosition::from_text("top"), Some(CommentPosition::Top));
    assert_eq!(CommentPosition::from_text("center"), Some(CommentPosition::Center));
    assert_eq!(CommentPosition::from_text("bottom"), Some(CommentPosition::Bottom));
    assert_eq!(CommentPosition::from_text("Top"), None);
    assert_eq!(CommentPosition::from_text(""), None);
}

#[test]
fn stored_pictures_are_immutable() {
    let cc = pixu::cache_control::immutable();
    assert!(cc.cacheability.private);
    assert!(cc.revalidation.immutable);
    assert_eq!(cc.to_string(), "private, max-age=31536000, immutable");
}

#[test]
fn identifier_as_number_fits_thirty_bits() {
    assert_eq!(u32::from(pixu::id30::Id30::from(0xFFFF_FFFF)), 0x3FFF_FFFF);
    assert_eq!(u32::from(pixu::id30::Id30::from(7)), 7);
}
