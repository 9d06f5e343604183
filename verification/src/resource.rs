//! Responses and the resources that produce them.

use crate::auth::{claims_view, Claims, ClaimsView};
use crate::cache_control::CacheControl;
use crate::cookie::{cookie_views, Cookie, CookieView};
use crate::etag::ETag;
use crate::media_type::{MediaType, MediaTypeView};
use vstd::prelude::*;
use vstd::string::StringExecFns;

verus! {

/// The status of a response, with the header value that belongs to it.
#[derive(Clone, Debug, PartialEq, Eq)]
pub enum Status {
    // 2__
    OK,
    Created(String),
    // 3__
    MovedPermanently(String),
    SeeOther(String),
    // 4__
    BadRequest,
    Unauthorized,
    NotFound,
    MethodNotAllowed { allow: String },
    // 5__
    InternalServerError,
}

/// What a status holds.
pub enum StatusView {
    OK,
    Created(Seq<char>),
    MovedPermanently(Seq<char>),
    SeeOther(Seq<char>),
    BadRequest,
    Unauthorized,
    NotFound,
    MethodNotAllowed { allow: Seq<char> },
    InternalServerError,
}

impl View for Status {
    type V = StatusView;

    open spec fn view(&self) -> StatusView {
        match self {
            Status::OK => StatusView::OK,
            Status::Created(l) => StatusView::Created(l@),
            Status::MovedPermanently(l) => StatusView::MovedPermanently(l@),
            Status::SeeOther(l) => StatusView::SeeOther(l@),
            Status::BadRequest => StatusView::BadRequest,
            Status::Unauthorized => StatusView::Unauthorized,
            Status::NotFound => StatusView::NotFound,
            Status::MethodNotAllowed { allow } => StatusView::MethodNotAllowed { allow: allow@ },
            Status::InternalServerError => StatusView::InternalServerError,
        }
    }
}

/// The number of a status.
pub open spec fn status_code(status: StatusView) -> int {
    match status {
        StatusView::OK => 200,
        StatusView::Created(_) => 201,
        StatusView::MovedPermanently(_) => 301,
        StatusView::SeeOther(_) => 303,
        StatusView::BadRequest => 400,
        StatusView::Unauthorized => 401,
        StatusView::NotFound => 404,
        StatusView::MethodNotAllowed { .. } => 405,
        StatusView::InternalServerError => 500,
    }
}

/// A page of the site, as the data that its template is filled with.
#[derive(Clone, Debug, PartialEq, Eq)]
pub enum Page {
    /// The login prompt shown where a capability is missing.
    NotAuthorized { title: String, claims: Option<Claims>, self_url: String },
    /// The error page for a request that was refused.
    BadRequest { title: String, details: String },
    /// The error page for a failure on the server's side.
    InternalServerError { title: String },
    /// The notice that a login link was sent to an address.
    InitiateAuth { title: String, email: String },
    /// The page shown while a login link redirects.
    VerifyAuth { title: String },
}

/// What a page holds.
pub enum PageView {
    NotAuthorized { title: Seq<char>, claims: Option<ClaimsView>, self_url: Seq<char> },
    BadRequest { title: Seq<char>, details: Seq<char> },
    InternalServerError { title: Seq<char> },
    InitiateAuth { title: Seq<char>, email: Seq<char> },
    VerifyAuth { title: Seq<char> },
}

impl View for Page {
    type V = PageView;

    open spec fn view(&self) -> PageView {
        match self {
            Page::NotAuthorized { title, claims, self_url } => PageView::NotAuthorized {
                title: title@,
                claims: claims_view(*claims),
                self_url: self_url@,
            },
            Page::BadRequest { title, details } => PageView::BadRequest {
                title: title@,
                details: details@,
            },
            Page::InternalServerError { title } => PageView::InternalServerError { title: title@ },
            Page::InitiateAuth { title, email } => PageView::InitiateAuth {
                title: title@,
                email: email@,
            },
            Page::VerifyAuth { title } => PageView::VerifyAuth { title: title@ },
        }
    }
}

/// What produces the body of one representation. Nothing is rendered before
/// a representation is chosen.
#[derive(Clone, Debug, PartialEq, Eq)]
pub enum Renderer {
    Text(String),
    Bytes(Vec<u8>),
    Page(Page),
}

/// What a renderer holds.
pub enum RendererView {
    Text(Seq<char>),
    Bytes(Seq<u8>),
    Page(PageView),
}

impl View for Renderer {
    type V = RendererView;

    open spec fn view(&self) -> RendererView {
        match self {
            Renderer::Text(t) => RendererView::Text(t@),
            Renderer::Bytes(b) => RendererView::Bytes(b@),
            Renderer::Page(p) => RendererView::Page(p@),
        }
    }
}

/// The views of the representations of a sequence.
pub open spec fn representation_views(v: Seq<(MediaType, Renderer)>) -> Seq<
    (MediaTypeView, RendererView),
> {
    Seq::new(v.len(), |i: int| (v[i].0@, v[i].1@))
}

/// A response before a representation is chosen.
#[derive(Clone, Debug, PartialEq, Eq)]
pub struct Response {
    pub status: Status,
    pub representations: Vec<(MediaType, Renderer)>,
    pub cookies: Vec<Cookie>,
}

/// What a response holds.
pub struct ResponseView {
    pub status: StatusView,
    pub representations: Seq<(MediaTypeView, RendererView)>,
    pub cookies: Seq<CookieView>,
}

impl View for Response {
    type V = ResponseView;

    open spec fn view(&self) -> ResponseView {
        ResponseView {
            status: self.status@,
            representations: representation_views(self.representations@),
            cookies: cookie_views(self.cookies@),
        }
    }
}

/// Why a request could not be carried to a resource.
#[derive(Clone, Debug, PartialEq, Eq)]
pub enum Error {
    BadRequest,
    InternalServerError,
    /// A complete response made on purpose by a lower layer, to be passed on
    /// as it is.
    BlanketResponse(Response),
}

/// What an error holds.
pub enum ErrorView {
    BadRequest,
    InternalServerError,
    BlanketResponse(ResponseView),
}

impl View for Error {
    type V = ErrorView;

    open spec fn view(&self) -> ErrorView {
        match self {
            Error::BadRequest => ErrorView::BadRequest,
            Error::InternalServerError => ErrorView::InternalServerError,
            Error::BlanketResponse(r) => ErrorView::BlanketResponse(r@),
        }
    }
}

/// The media type `text/plain`.
pub open spec fn text_plain() -> MediaTypeView {
    MediaTypeView { type_category: "text"@, subtype: "plain"@, args: Seq::empty() }
}

/// The media type `text/html;charset=utf-8`.
pub open spec fn text_html() -> MediaTypeView {
    MediaTypeView { type_category: "text"@, subtype: "html"@, args: seq!["charset=utf-8"@] }
}

/// The response of the given status with one representation and no cookie.
pub open spec fn single(status: StatusView, media_type: MediaTypeView, body: RendererView) -> ResponseView {
    ResponseView {
        status,
        representations: seq![(media_type, body)],
        cookies: Seq::empty(),
    }
}

/// The methods that a resource with the given handlers supports, as the
/// `Allow` header lists them.
pub open spec fn allow_text(has_get: bool, has_post: bool) -> Seq<char> {
    "OPTIONS"@ + (if has_get {
        ", GET, HEAD"@
    } else {
        Seq::<char>::empty()
    }) + (if has_post {
        ", POST"@
    } else {
        Seq::<char>::empty()
    })
}

/// The response to a method that a resource does not support.
pub open spec fn method_not_allowed_response(has_get: bool, has_post: bool) -> ResponseView {
    single(
        StatusView::MethodNotAllowed { allow: allow_text(has_get, has_post) },
        text_plain(),
        RendererView::Text("Method Not Allowed\n"@),
    )
}

/// The response to a request that cannot be understood.
pub open spec fn bad_request_response() -> ResponseView {
    single(StatusView::BadRequest, text_plain(), RendererView::Text("Bad Request\n"@))
}

/// The media type `text/plain`.
pub fn plain_text_type() -> (mt: MediaType)
    ensures
        mt@ == text_plain(),
{
    let mt = MediaType::new("text", "plain", Vec::new());
    assert(mt@.args =~= Seq::empty());
    mt
}

/// The media type `text/html;charset=utf-8`.
pub fn html_type() -> (mt: MediaType)
    ensures
        mt@ == text_html(),
{
    let mut args: Vec<String> = Vec::new();
    args.push(String::from_str("charset=utf-8"));
    let mt = MediaType::new("text", "html", args);
    assert(mt@.args =~= seq!["charset=utf-8"@]);
    mt
}

impl Response {
    /// A response without cookies.
    pub fn new(status: Status, representations: Vec<(MediaType, Renderer)>) -> (r: Response)
        ensures
            r@.status == status@,
            r@.representations == representation_views(representations@),
            r@.cookies == Seq::<CookieView>::empty(),
            r.status == status,
            r.representations == representations,
    {
        let r = Response { status, representations, cookies: Vec::new() };
        assert(r@.cookies =~= Seq::<CookieView>::empty());
        r
    }

    /// A response with one representation and no cookie.
    pub fn single(status: Status, media_type: MediaType, body: Renderer) -> (r: Response)
        ensures
            r@ == single(status@, media_type@, body@),
    {
        let mut representations: Vec<(MediaType, Renderer)> = Vec::new();
        representations.push((media_type, body));
        let r = Response { status, representations, cookies: Vec::new() };
        assert(r@.cookies =~= Seq::<CookieView>::empty());
        assert(r@.representations =~= seq![(media_type@, body@)]);
        r
    }
}

/// The response to a request that cannot be understood.
pub fn bad_request() -> (r: Response)
    ensures
        r@ == bad_request_response(),
{
    Response::single(
        Status::BadRequest,
        plain_text_type(),
        Renderer::Text(String::from_str("Bad Request\n")),
    )
}

/// A handler of GET requests.
pub trait Get: Sized {
    /// The directives that the handler asks for.
    fn cache_control(&self) -> Option<CacheControl>;

    /// The handler's response.
    fn representations(self) -> Response;
}

/// A handler of POST requests.
pub trait Post: Sized {
    /// The handler's response to a body of the given content type.
    fn post(self, content_type: String, body: Vec<u8>) -> Response;
}

/// Stands where a resource has no handler for a method. Asked all the
/// same, it answers that no method is allowed.
#[derive(Clone, Copy, Debug, PartialEq, Eq, Structural)]
pub struct NoHandler;

impl Get for NoHandler {
    fn cache_control(&self) -> (r: Option<CacheControl>)
        ensures
            r is None,
    {
        None
    }

    fn representations(self) -> (r: Response)
        ensures
            r@ == method_not_allowed_response(false, false),
    {
        Response::single(
            Status::MethodNotAllowed { allow: String::from_str("OPTIONS") },
            plain_text_type(),
            Renderer::Text(String::from_str("Method Not Allowed\n")),
        )
    }
}

impl Post for NoHandler {
    fn post(self, content_type: String, body: Vec<u8>) -> (r: Response)
        ensures
            r@ == method_not_allowed_response(false, false),
    {
        Response::single(
            Status::MethodNotAllowed { allow: String::from_str("OPTIONS") },
            plain_text_type(),
            Renderer::Text(String::from_str("Method Not Allowed\n")),
        )
    }
}

/// A resource: an optional entity tag and a handler for each method that it
/// supports.
pub struct Resource<G: Get, P: Post> {
    pub etag: Option<ETag>,
    pub get: Option<G>,
    pub post: Option<P>,
}

impl<G: Get, P: Post> Resource<G, P> {
    /// The response to a method that the resource does not support: 405, with
    /// the methods that it does support.
    pub fn method_not_allowed(&self) -> (r: Response)
        ensures
            r@ == method_not_allowed_response(self.get is Some, self.post is Some),
    {
        let mut allow = String::from_str("OPTIONS");
        if self.get.is_some() {
            allow.append(", GET, HEAD");
        }
        if self.post.is_some() {
            allow.append(", POST");
        }
        assert(allow@ =~= allow_text(self.get is Some, self.post is Some));
        Response::single(
            Status::MethodNotAllowed { allow },
            plain_text_type(),
            Renderer::Text(String::from_str("Method Not Allowed\n")),
        )
    }

    /// Answers a GET request: the handler's response and directives, or 405
    /// where the resource has no handler for GET.
    pub fn get(self) -> (r: (Response, Option<CacheControl>))
        ensures
            match self.get {
                Some(handler) => call_ensures(G::representations, (handler,), r.0)
                    && call_ensures(G::cache_control, (&handler,), r.1),
                None => r.0@ == method_not_allowed_response(false, self.post is Some) && r.1
                    is None,
            },
    {
        let Resource { etag, get, post } = self;
        match get {
            Some(handler) => {
                let cache_control = handler.cache_control();
                (handler.representations(), cache_control)
            },
            None => {
                let rest: Resource<G, P> = Resource { etag, get: None, post };
                (rest.method_not_allowed(), None)
            },
        }
    }

    /// Answers a POST request: the handler's response, or 405 where the
    /// resource has no handler for POST.
    pub fn post(self, content_type: String, body: Vec<u8>) -> (r: Response)
        ensures
            match self.post {
                Some(handler) => call_ensures(P::post, (handler, content_type, body), r),
                None => r@ == method_not_allowed_response(self.get is Some, false),
            },
    {
        let Resource { etag, get, post } = self;
        match post {
            Some(handler) => handler.post(content_type, body),
            None => {
                let rest: Resource<G, P> = Resource { etag, get, post: None };
                rest.method_not_allowed()
            },
        }
    }
}

/// A resource with a handler for GET alone names `OPTIONS, GET, HEAD` where
/// another method is asked of it.
pub proof fn lemma_get_only_allow()
    ensures
        allow_text(true, false) == "OPTIONS, GET, HEAD"@,
        allow_text(false, true) == "OPTIONS, POST"@,
        allow_text(true, true) == "OPTIONS, GET, HEAD, POST"@,
        allow_text(false, false) == "OPTIONS"@,
{
    reveal_strlit("OPTIONS");
    reveal_strlit(", GET, HEAD");
    reveal_strlit(", POST");
    reveal_strlit("OPTIONS, GET, HEAD");
    reveal_strlit("OPTIONS, POST");
    reveal_strlit("OPTIONS, GET, HEAD, POST");
    assert(allow_text(true, false) =~= "OPTIONS, GET, HEAD"@);
    assert(allow_text(false, true) =~= "OPTIONS, POST"@);
    assert(allow_text(true, true) =~= "OPTIONS, GET, HEAD, POST"@);
    assert(allow_text(false, false) =~= "OPTIONS"@);
}

} // verus!
