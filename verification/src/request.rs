//! Carrying a request to a resource: the path is looked up, the query and
//! the cookies are handed to what was found, and the method is dispatched on
//! the resource that results.

use crate::assembly::{build_response, text_view, HttpResponse};
use crate::cache_control::CacheControl;
use crate::cookie::{cookie_pair, parse_pair};
use crate::etag::ETag;
use crate::handling_error::{rendered, HandlingError, HandlingErrorView};
use crate::resource::{
    bad_request, bad_request_response, method_not_allowed_response, Error, Get, Post, Resource,
    Response, ResponseView,
};
use crate::text::{chars_of, push_char, rows, same_text, split, split_on, string_of, sub_vec, texts};
use vstd::prelude::*;

verus! {

/// The method of a request.
#[derive(Clone, Copy, Debug, PartialEq, Eq, Structural)]
pub enum Method {
    Get,
    Post,
    /// Any method that no resource handles.
    Other,
}

/// A request, as plain values. Header values are the bytes that were sent.
#[derive(Clone, Debug, PartialEq, Eq)]
pub struct Request {
    pub method: Method,
    /// The path of the request's target.
    pub path: String,
    /// What follows the question mark of the target, where there is one.
    pub query: Option<String>,
    pub cookie: Option<Vec<u8>>,
    pub accept: Option<Vec<u8>>,
    pub content_type: Option<Vec<u8>>,
    pub body: Vec<u8>,
}

/// Whether a byte of a header value is visible ASCII or a tab.
pub open spec fn visible(b: u8) -> bool {
    b == 9 || (32 <= b && b < 127)
}

/// Whether a header value can be read as text: all its bytes are visible.
pub open spec fn readable(bytes: Seq<u8>) -> bool {
    forall|i: int| 0 <= i < bytes.len() ==> visible(#[trigger] bytes[i])
}

/// The text of a readable header value.
pub open spec fn header_chars(bytes: Seq<u8>) -> Seq<char> {
    Seq::new(bytes.len(), |i: int| bytes[i] as char)
}

/// The text of a header value, or `BadRequest` where it cannot be read as
/// text.
pub fn header_text(bytes: &Vec<u8>) -> (r: Result<String, Error>)
    ensures
        match r {
            Ok(text) => readable(bytes@) && text@ == header_chars(bytes@),
            Err(e) => !readable(bytes@) && e@ == crate::resource::ErrorView::BadRequest,
        },
{
    let mut text = String::new();
    let mut i: usize = 0;
    while i < bytes.len()
        invariant
            i <= bytes@.len(),
            readable(bytes@.take(i as int)),
            text@ == header_chars(bytes@.take(i as int)),
        decreases bytes@.len() - i,
    {
        let b = bytes[i];
        if !(b == 9 || (32 <= b && b < 127)) {
            return Err(Error::BadRequest);
        }
        push_char(&mut text, b as char);
        assert(bytes@.take(i + 1) =~= bytes@.take(i as int).push(b));
        assert(text@ =~= header_chars(bytes@.take(i + 1)));
        i += 1;
    }
    assert(bytes@.take(bytes@.len() as int) =~= bytes@);
    Ok(text)
}

/// The text of a header that may be absent: `None` where it is absent,
/// `BadRequest` where it cannot be read as text.
pub open spec fn optional_text(header: Option<Vec<u8>>) -> Option<Option<Seq<char>>> {
    match header {
        None => Some(None),
        Some(bytes) => if readable(bytes@) {
            Some(Some(header_chars(bytes@)))
        } else {
            None
        },
    }
}

/// The text of a header that may be absent.
pub fn optional_header_text(header: &Option<Vec<u8>>) -> (r: Result<Option<String>, Error>)
    ensures
        match r {
            Ok(text) => optional_text(*header) == Some(
                match text {
                    Some(t) => Some(t@),
                    None => None,
                },
            ),
            Err(e) => optional_text(*header) is None && e@ == crate::resource::ErrorView::BadRequest,
        },
{
    match header {
        None => Ok(None),
        Some(bytes) => match header_text(bytes) {
            Ok(text) => Ok(Some(text)),
            Err(e) => Err(e),
        },
    }
}

/// Whether a path begins with a slash.
pub open spec fn rooted(path: Seq<char>) -> bool {
    path.len() > 0 && path[0] == '/'
}

/// What is looked up for a request: its path without the leading slash. A
/// path that does not begin with a slash is a bad request.
pub fn resolve_path(path: &str) -> (r: Result<String, Error>)
    ensures
        match r {
            Ok(rest) => rooted(path@) && rest@ == path@.skip(1),
            Err(e) => !rooted(path@) && e@ == crate::resource::ErrorView::BadRequest,
        },
{
    let chars = chars_of(path);
    if chars.len() > 0 && chars[0] == '/' {
        let rest = sub_vec(&chars, 1, chars.len());
        assert(rest@ =~= path@.skip(1));
        Ok(string_of(&rest))
    } else {
        Err(Error::BadRequest)
    }
}

/// The first position at or after `from` where `key` stands in `names`, or
/// the length of `names`.
pub open spec fn position_from(names: Seq<Seq<char>>, key: Seq<char>, from: int) -> int
    decreases names.len() - from,
{
    if from < 0 || from >= names.len() {
        names.len() as int
    } else if names[from] == key {
        from
    } else {
        position_from(names, key, from + 1)
    }
}

/// The values of the cookies named `names` after the first `k` pairs of a
/// `Cookie` header were read: each pair sets the value of the first name that
/// is its own, and a later pair overrides an earlier one.
pub open spec fn slots_after(names: Seq<Seq<char>>, pairs: Seq<Seq<char>>, k: int) -> Seq<
    Option<Seq<char>>,
>
    decreases k,
{
    if k <= 0 {
        Seq::new(names.len(), |i: int| None)
    } else {
        let before = slots_after(names, pairs, k - 1);
        match cookie_pair(pairs[k - 1]) {
            Some(pair) => {
                let j = position_from(names, pair.0, 0);
                if 0 <= j < names.len() {
                    before.update(j, Some(pair.1))
                } else {
                    before
                }
            },
            None => before,
        }
    }
}

/// Whether each of the first `k` pairs can be read.
pub open spec fn pairs_readable(pairs: Seq<Seq<char>>, k: int) -> bool {
    forall|i: int| 0 <= i < k ==> cookie_pair(#[trigger] pairs[i]) is Some
}

/// The values handed to a cookie handler that reads the cookies `names`, in
/// the order of `names`, for a request with the given `Cookie` header; `None`
/// where the request is a bad one. A handler that reads no cookie gets no
/// value, whatever the header holds.
pub open spec fn cookie_slots(names: Seq<Seq<char>>, header: Option<Vec<u8>>) -> Option<
    Seq<Option<Seq<char>>>,
> {
    if names.len() == 0 {
        Some(Seq::empty())
    } else {
        match header {
            None => Some(Seq::new(names.len(), |i: int| None)),
            Some(bytes) => {
                let pairs = split_on(header_chars(bytes@), seq![';', ' ']);
                if readable(bytes@) && pairs_readable(pairs, pairs.len() as int) {
                    Some(slots_after(names, pairs, pairs.len() as int))
                } else {
                    None
                }
            },
        }
    }
}

/// The views of cookie values of which some may be absent.
pub open spec fn slot_views(v: Seq<Option<String>>) -> Seq<Option<Seq<char>>> {
    Seq::new(
        v.len(),
        |i: int|
            match v[i] {
                Some(t) => Some(t@),
                None => None,
            },
    )
}

/// The first position where `key` stands in `names`.
fn position(names: &Vec<String>, key: &str) -> (r: usize)
    ensures
        r == position_from(texts(names@), key@, 0),
        r <= names@.len(),
{
    let mut i: usize = 0;
    while i < names.len()
        invariant
            i <= names@.len(),
            position_from(texts(names@), key@, 0) == position_from(texts(names@), key@, i as int),
        decreases names@.len() - i,
    {
        if same_text(names[i].as_str(), key) {
            return i;
        }
        i += 1;
    }
    i
}

/// Reads the cookies that a handler asks for from a request's `Cookie`
/// header. A header that is not text, or a pair of it that cannot be read, is
/// a bad request.
pub fn collect_cookies(names: &Vec<String>, header: &Option<Vec<u8>>) -> (r: Result<
    Vec<Option<String>>,
    Error,
>)
    ensures
        match r {
            Ok(values) => cookie_slots(texts(names@), *header) == Some(slot_views(values@)),
            Err(e) => cookie_slots(texts(names@), *header) is None && e@
                == crate::resource::ErrorView::BadRequest,
        },
{
    let mut values: Vec<Option<String>> = Vec::new();
    if names.len() == 0 {
        assert(slot_views(values@) =~= Seq::empty());
        return Ok(values);
    }
    let mut n: usize = 0;
    while n < names.len()
        invariant
            n <= names@.len(),
            values@.len() == n,
            forall|i: int| 0 <= i < n ==> (#[trigger] values@[i]) is None,
        decreases names@.len() - n,
    {
        values.push(None);
        n += 1;
    }
    let ghost name_texts = texts(names@);
    assert(slot_views(values@) =~= Seq::new(name_texts.len(), |i: int| None::<Seq<char>>));
    let text = match header {
        None => {
            return Ok(values);
        },
        Some(bytes) => match header_text(bytes) {
            Ok(text) => text,
            Err(e) => {
                return Err(e);
            },
        },
    };
    let chars = chars_of(text.as_str());
    let mut separator: Vec<char> = Vec::new();
    separator.push(';');
    separator.push(' ');
    assert(separator@ =~= seq![';', ' ']);
    let pieces = split(&chars, &separator);
    let ghost pairs = rows(pieces@);
    let mut k: usize = 0;
    while k < pieces.len()
        invariant
            k <= pieces@.len(),
            pairs == rows(pieces@),
            name_texts == texts(names@),
            names@.len() > 0,
            *header matches Some(bytes) && readable(bytes@) && pairs == split_on(
                header_chars(bytes@),
                seq![';', ' '],
            ),
            values@.len() == names@.len(),
            pairs_readable(pairs, k as int),
            slot_views(values@) == slots_after(name_texts, pairs, k as int),
        decreases pieces@.len() - k,
    {
        let raw = string_of(&pieces[k]);
        assert(raw@ == pairs[k as int]);
        match parse_pair(raw.as_str()) {
            Err(_) => {
                assert(!pairs_readable(pairs, pairs.len() as int));
                return Err(Error::BadRequest);
            },
            Ok((key, value)) => {
                let j = position(names, key.as_str());
                let ghost before = slot_views(values@);
                if j < names.len() {
                    values.set(j, Some(value));
                    assert(slot_views(values@) =~= before.update(j as int, Some(value@)));
                }
                assert(slot_views(values@) == slots_after(name_texts, pairs, k + 1));
            },
        }
        k += 1;
    }
    Ok(values)
}

/// What is handed the cookies of a request and makes the resource.
pub trait CookieHandler: Sized {
    type Get: Get;

    type Post: Post;

    /// The names of the cookies that the handler reads.
    fn read_cookies(&self) -> Vec<String>;

    /// The resource for the given values, which stand in the order of the
    /// names that `read_cookies` gave.
    fn cookies(self, values: Vec<Option<String>>) -> Result<
        Resource<Self::Get, Self::Post>,
        Error,
    >;
}

/// What is handed the query of a request.
pub trait QueryHandler: Sized {
    type Handler: CookieHandler;

    fn query(self, query: Option<&str>) -> Result<Self::Handler, Error>;
}

/// What finds the handler of a path, or answers at once.
pub trait Lookup {
    type Handler: QueryHandler;

    fn lookup(&self, path: &str) -> Result<Self::Handler, Response>;
}

impl<G: Get, P: Post> CookieHandler for Resource<G, P> {
    type Get = G;

    type Post = P;

    /// A resource reads no cookie.
    fn read_cookies(&self) -> (names: Vec<String>)
        ensures
            names@.len() == 0,
    {
        Vec::new()
    }

    /// A resource is its own result.
    fn cookies(self, values: Vec<Option<String>>) -> (r: Result<Resource<G, P>, Error>)
        ensures
            r == Ok::<Resource<G, P>, Error>(self),
    {
        Ok(self)
    }
}

impl<T: CookieHandler> QueryHandler for T {
    type Handler = T;

    /// A cookie handler takes no notice of the query.
    fn query(self, query: Option<&str>) -> (r: Result<T, Error>)
        ensures
            r == Ok::<T, Error>(self),
    {
        Ok(self)
    }
}

/// The view of a response with the directives that go with it.
pub open spec fn answer_view(answer: (Response, Option<CacheControl>)) -> (
    ResponseView,
    Option<CacheControl>,
) {
    (answer.0@, answer.1)
}

/// Whether `r` is what dispatching `method` on `resource` gives. GET goes to
/// the resource's handler for GET and POST to its handler for POST; a POST
/// whose content type is absent or unreadable is answered as a bad request,
/// and any other method, or one without a handler, with 405.
pub open spec fn dispatched<G: Get, P: Post>(
    resource: Resource<G, P>,
    method: Method,
    content_type: Option<Vec<u8>>,
    body: Vec<u8>,
    r: (Response, Option<CacheControl>),
) -> bool {
    match method {
        Method::Get => match resource.get {
            Some(handler) => call_ensures(G::representations, (handler,), r.0) && call_ensures(
                G::cache_control,
                (&handler,),
                r.1,
            ),
            None => answer_view(r) == (
                method_not_allowed_response(false, resource.post is Some),
                None::<CacheControl>,
            ),
        },
        Method::Post => match optional_text(content_type) {
            Some(Some(text)) => r.1 is None && match resource.post {
                Some(handler) => exists|given: String|
                    given@ == text && #[trigger] call_ensures(P::post, (handler, given, body), r.0),
                None => r.0@ == method_not_allowed_response(resource.get is Some, false),
            },
            _ => answer_view(r) == (bad_request_response(), None::<CacheControl>),
        },
        Method::Other => answer_view(r) == (
            method_not_allowed_response(resource.get is Some, resource.post is Some),
            None::<CacheControl>,
        ),
    }
}

/// Dispatches the method of a request on a resource.
pub fn dispatch<G: Get, P: Post>(
    resource: Resource<G, P>,
    method: Method,
    content_type: &Option<Vec<u8>>,
    body: Vec<u8>,
) -> (r: (Response, Option<CacheControl>))
    ensures
        dispatched(resource, method, *content_type, body, r),
{
    match method {
        Method::Get => resource.get(),
        Method::Post => {
            match optional_header_text(content_type) {
                Ok(Some(text)) => {
                    let ghost given = text;
                    let response = resource.post(text, body);
                    assert(resource.post matches Some(handler) ==> call_ensures(
                        P::post,
                        (handler, given, body),
                        response,
                    ));
                    (response, None)
                },
                _ => (bad_request(), None),
            }
        },
        Method::Other => (resource.method_not_allowed(), None),
    }
}

/// What a request is answered with: the entity tag of its resource, the
/// response, and the directives that go with it.
pub type Outcome = (Option<ETag>, Response, Option<CacheControl>);

/// The parts of a request that are left once its path and its query were
/// read.
pub struct Remainder {
    pub method: Method,
    pub cookie: Option<Vec<u8>>,
    pub accept: Option<Vec<u8>>,
    pub content_type: Option<Vec<u8>>,
    pub body: Vec<u8>,
}

/// Whether `r` is the answer of `resource` to a request: a request whose
/// `Accept` header cannot be read as text is a bad request; any other is
/// dispatched, and the answer carries the resource's entity tag.
pub open spec fn answered<G: Get, P: Post>(
    resource: Resource<G, P>,
    rest: Remainder,
    r: Result<Outcome, Error>,
) -> bool {
    if optional_text(rest.accept) is None {
        r matches Err(e) && e@ == crate::resource::ErrorView::BadRequest
    } else {
        r matches Ok(outcome) && outcome.0 == resource.etag && dispatched(
            Resource { etag: None, get: resource.get, post: resource.post },
            rest.method,
            rest.content_type,
            rest.body,
            (outcome.1, outcome.2),
        )
    }
}

/// Whether `r` is what carrying a request to the cookie handler `handler`
/// gives: the handler is asked which cookies it reads and is handed their
/// values, and the resource that it makes answers. A `Cookie` header that
/// cannot be read is a bad request, and the handler's failure is passed on.
pub open spec fn cookied<H: CookieHandler>(handler: H, rest: Remainder, r: Result<Outcome, Error>) -> bool {
    exists|names: Vec<String>|
        #[trigger] call_ensures(H::read_cookies, (&handler,), names) && match cookie_slots(
            texts(names@),
            rest.cookie,
        ) {
            None => r matches Err(e) && e@ == crate::resource::ErrorView::BadRequest,
            Some(slots) => exists|values: Vec<Option<String>>, made: Result<Resource<H::Get, H::Post>, Error>|
                slot_views(values@) == slots && #[trigger] call_ensures(
                    H::cookies,
                    (handler, values),
                    made,
                ) && match made {
                    Err(e) => r == Err::<Outcome, Error>(e),
                    Ok(resource) => answered(resource, rest, r),
                },
        }
}

/// Whether `r` is what carrying a request to the query handler `handler`
/// gives: the handler is handed the query, and the request goes on to the
/// cookie handler that it makes. The handler's failure is passed on.
pub open spec fn queried<Q: QueryHandler>(
    handler: Q,
    query: Option<String>,
    rest: Remainder,
    r: Result<Outcome, Error>,
) -> bool {
    exists|given: Option<&str>, made: Result<Q::Handler, Error>|
        text_view(given) == crate::query_args::owned_view(query) && #[trigger] call_ensures(
            Q::query,
            (handler, given),
            made,
        ) && match made {
            Err(e) => r == Err::<Outcome, Error>(e),
            Ok(next) => cookied(next, rest, r),
        }
}

/// Whether `r` is what carrying the request `req` through the site gives. A
/// path that does not begin with a slash is a bad request, and nothing is
/// looked up for it. Any other path is looked up without its leading slash:
/// the answer that the lookup gives at once is passed on as it is, and what
/// it finds is carried the request.
pub open spec fn carried<L: Lookup>(site: &L, req: Request, r: Result<Outcome, Error>) -> bool {
    if !rooted(req.path@) {
        r matches Err(e) && e@ == crate::resource::ErrorView::BadRequest
    } else {
        exists|rest: &str, found: Result<L::Handler, Response>|
            rest@ == req.path@.skip(1) && #[trigger] call_ensures(L::lookup, (site, rest), found)
                && match found {
                Err(response) => r == Err::<Outcome, Error>(Error::BlanketResponse(response)),
                Ok(handler) => queried(
                    handler,
                    req.query,
                    Remainder {
                        method: req.method,
                        cookie: req.cookie,
                        accept: req.accept,
                        content_type: req.content_type,
                        body: req.body,
                    },
                    r,
                ),
            }
    }
}

/// Lets a resource answer a request.
pub fn answer<G: Get, P: Post>(resource: Resource<G, P>, rest: Remainder) -> (r: Result<Outcome, Error>)
    ensures
        answered(resource, rest, r),
{
    let Remainder { method, cookie, accept, content_type, body } = rest;
    match optional_header_text(&accept) {
        Ok(_) => {},
        Err(e) => {
            return Err(e);
        },
    }
    let Resource { etag, get, post } = resource;
    let (response, cache_control) = dispatch(
        Resource { etag: None, get, post },
        method,
        &content_type,
        body,
    );
    Ok((etag, response, cache_control))
}

/// Carries a request to a cookie handler.
pub fn carry_to_cookie_handler<H: CookieHandler>(handler: H, rest: Remainder) -> (r: Result<
    Outcome,
    Error,
>)
    ensures
        cookied(handler, rest, r),
{
    let names = handler.read_cookies();
    assert(call_ensures(H::read_cookies, (&handler,), names));
    let values = match collect_cookies(&names, &rest.cookie) {
        Ok(values) => values,
        Err(e) => {
            return Err(e);
        },
    };
    let ghost handed = values;
    let made = handler.cookies(values);
    assert(call_ensures(H::cookies, (handler, handed), made));
    let r = match made {
        Ok(resource) => answer(resource, rest),
        Err(e) => Err(e),
    };
    assert(slot_views(handed@) == cookie_slots(texts(names@), rest.cookie)->0 && call_ensures(
        H::cookies,
        (handler, handed),
        made,
    ) && match made {
        Err(e) => r == Err::<Outcome, Error>(e),
        Ok(resource) => answered(resource, rest, r),
    });
    r
}

/// Carries a request to a query handler.
pub fn carry_to_query_handler<Q: QueryHandler>(
    handler: Q,
    query: Option<String>,
    rest: Remainder,
) -> (r: Result<Outcome, Error>)
    ensures
        queried(handler, query, rest, r),
{
    let given: Option<&str> = match &query {
        Some(q) => Some(q.as_str()),
        None => None,
    };
    let made = handler.query(given);
    assert(call_ensures(Q::query, (handler, given), made));
    let r = match made {
        Ok(next) => carry_to_cookie_handler(next, rest),
        Err(e) => Err(e),
    };
    assert(text_view(given) == crate::query_args::owned_view(query) && call_ensures(
        Q::query,
        (handler, given),
        made,
    ) && match made {
        Err(e) => r == Err::<Outcome, Error>(e),
        Ok(next) => cookied(next, rest, r),
    });
    r
}

/// Carries a request to its resource and dispatches its method. The path is
/// looked up without its leading slash; what is found is handed the query,
/// then the cookies that it asks for; the resource that results answers.
pub fn try_handle_request<L: Lookup>(site: &L, req: Request) -> (r: Result<Outcome, Error>)
    ensures
        carried(site, req, r),
{
    let Request { method, path, query, cookie, accept, content_type, body } = req;
    let rest = match resolve_path(path.as_str()) {
        Ok(rest) => rest,
        Err(e) => {
            return Err(e);
        },
    };
    let rest_text: &str = rest.as_str();
    let found = site.lookup(rest_text);
    assert(call_ensures(L::lookup, (site, rest_text), found));
    let remainder = Remainder { method, cookie, accept, content_type, body };
    let r = match found {
        Ok(handler) => carry_to_query_handler(handler, query, remainder),
        Err(response) => Err(Error::BlanketResponse(response)),
    };
    assert(rest_text@ == req.path@.skip(1) && call_ensures(L::lookup, (site, rest_text), found)
        && match found {
        Err(response) => r == Err::<Outcome, Error>(Error::BlanketResponse(response)),
        Ok(handler) => queried(handler, req.query, remainder, r),
    });
    r
}

/// A request whose path does not begin with a slash is a bad request, and so
/// is one whose `Accept` header cannot be read as text, unless it failed
/// before a resource was reached.
pub proof fn lemma_carried_errors<L: Lookup>(site: &L, req: Request, r: Result<Outcome, Error>)
    requires
        carried(site, req, r),
    ensures
        !rooted(req.path@) ==> (r matches Err(e) && e@ == crate::resource::ErrorView::BadRequest),
        optional_text(req.accept) is None ==> r is Err,
{
}

/// The view of what a request was answered with.
pub open spec fn outcome_view(outcome: (Option<ETag>, Response, Option<CacheControl>)) -> (
    Option<crate::etag::ETagView>,
    ResponseView,
    Option<CacheControl>,
) {
    (crate::assembly::etag_view(outcome.0), outcome.1@, outcome.2)
}

/// What is sent where a request was not carried to a resource: the response
/// that a lower layer made is passed on as it is; a bad request and a server
/// failure are reported by their pages.
pub open spec fn recovered(error: crate::resource::ErrorView, title: Seq<char>) -> ResponseView {
    match error {
        crate::resource::ErrorView::BadRequest => rendered(
            HandlingErrorView::BadRequest("Bad request"@),
            title,
        ),
        crate::resource::ErrorView::InternalServerError => rendered(
            HandlingErrorView::InternalServerError,
            title,
        ),
        crate::resource::ErrorView::BlanketResponse(response) => response,
    }
}

/// The entity tag, response and directives that stand for what carrying a
/// request gave: the answer itself, or, for a failure, the response that
/// reports it, without entity tag and directives.
pub open spec fn settled(got: Result<Outcome, Error>, title: Seq<char>) -> (
    Option<crate::etag::ETagView>,
    ResponseView,
    Option<CacheControl>,
) {
    match got {
        Ok(answer) => outcome_view(answer),
        Err(e) => (None, recovered(e@, title), None),
    }
}

/// The entity tag, response and directives that are sent for what carrying a
/// request gave.
pub fn recover(outcome: Result<Outcome, Error>, title: &str) -> (r: Outcome)
    ensures
        outcome matches Ok(answer) ==> r == answer,
        outcome_view(r) == settled(outcome, title@),
{
    match outcome {
        Ok(answer) => answer,
        Err(Error::BadRequest) => (None, HandlingError::BadRequest("Bad request").render(title), None),
        Err(Error::InternalServerError) => (
            None,
            HandlingError::InternalServerError.render(title),
            None,
        ),
        Err(Error::BlanketResponse(response)) => (None, response, None),
    }
}

/// What is sent for the response, entity tag and directives that a request
/// was answered with: they are assembled as they are, or, where the response
/// offers no representation, the page of a server failure is sent.
pub open spec fn sent(
    outcome: (Option<crate::etag::ETagView>, ResponseView, Option<CacheControl>),
    accept: Option<Seq<char>>,
    title: Seq<char>,
) -> crate::assembly::HttpResponseView {
    if outcome.1.representations.len() > 0 {
        crate::assembly::assembled(outcome.0, outcome.1, outcome.2, accept)
    } else {
        crate::assembly::assembled(
            None,
            rendered(HandlingErrorView::InternalServerError, title),
            None,
            accept,
        )
    }
}

/// The `Accept` header as it counts for the choice of a representation: one
/// that cannot be read as text counts as absent.
pub open spec fn accept_of(header: Option<Vec<u8>>) -> Option<Seq<char>> {
    match optional_text(header) {
        Some(text) => text,
        None => None,
    }
}

/// Sends what a request was answered with.
pub fn send(
    outcome: (Option<ETag>, Response, Option<CacheControl>),
    accept: Option<&str>,
    title: &str,
) -> (r: HttpResponse)
    ensures
        r@ == sent(outcome_view(outcome), text_view(accept), title@),
{
    let (etag, response, cache_control) = outcome;
    if response.representations.len() > 0 {
        build_response(etag, response, cache_control, accept)
    } else {
        let page = HandlingError::InternalServerError.render(title);
        assert(page@.representations.len() == 1);
        build_response(None, page, None, accept)
    }
}

/// Answers a request: carries it to its resource, and assembles what is sent
/// from what came back. A failure on the way is reported by its page, and
/// the answer that a lookup gave at once is sent as it is.
pub fn handle_request<L: Lookup>(site: &L, title: &str, req: Request) -> (r: HttpResponse)
    ensures
        exists|got: Result<Outcome, Error>|
            #[trigger] carried(site, req, got) && r@ == sent(
                settled(got, title@),
                accept_of(req.accept),
                title@,
            ),
{
    let accept = match optional_header_text(&req.accept) {
        Ok(text) => text,
        Err(_) => None,
    };
    let got = try_handle_request(site, req);
    let answer = recover(got, title);
    let accept_text: Option<&str> = match &accept {
        Some(a) => Some(a.as_str()),
        None => None,
    };
    let r = send(answer, accept_text, title);
    assert(carried(site, req, got) && r@ == sent(
        settled(got, title@),
        accept_of(req.accept),
        title@,
    ));
    r
}

} // verus!
