//! Choosing one representation of a response and assembling what is sent.
//!
//! The representation is chosen by the request's `Accept` header: the first
//! declared representation whose category and subtype are listed there, and,
//! where none is or no header was sent, the first declared representation.
//! Parameters of the listed types, wildcards and weights play no part.

use crate::cache_control::{cache_control_text, CacheControl};
use crate::cookie::{cookie_views, set_cookie_text, Cookie, CookieView};
use crate::etag::{etag_text, ETag, ETagView};
use crate::media_type::{essence, media_type_text, MediaType, MediaTypeView};
use crate::resource::{
    representation_views, status_code, Renderer, RendererView, Response, ResponseView, Status,
    StatusView,
};
use crate::text::{
    before_first, chars_of, cut_at, rows, same_chars, split, split_on, trim, trimmed,
};
use vstd::prelude::*;
use vstd::string::StringExecFns;

verus! {

/// The media type that one piece of an `Accept` header names: what stands
/// before the first semicolon, without the blanks around it.
pub open spec fn accept_entry(piece: Seq<char>) -> Seq<char> {
    trimmed(before_first(piece, ';'))
}

/// The media types that an `Accept` header names, in order.
pub open spec fn accept_entries(accept: Seq<char>) -> Seq<Seq<char>> {
    let pieces = split_on(accept, seq![',']);
    Seq::new(pieces.len(), |i: int| accept_entry(pieces[i]))
}

/// Whether an `Accept` header names the category and subtype of `mt`.
pub open spec fn listed(mt: MediaTypeView, accept: Seq<char>) -> bool {
    accept_entries(accept).contains(essence(mt))
}

/// The first representation at or after `from` that `accept` names, or -1.
pub open spec fn first_listed(
    reps: Seq<(MediaTypeView, RendererView)>,
    accept: Seq<char>,
    from: int,
) -> int
    decreases reps.len() - from,
{
    if from < 0 || from >= reps.len() {
        -1
    } else if listed(reps[from].0, accept) {
        from
    } else {
        first_listed(reps, accept, from + 1)
    }
}

/// The position of the representation that is sent.
pub open spec fn chosen(reps: Seq<(MediaTypeView, RendererView)>, accept: Option<Seq<char>>) -> int {
    match accept {
        None => 0,
        Some(a) => {
            let k = first_listed(reps, a, 0);
            if k < 0 {
                0
            } else {
                k
            }
        },
    }
}

/// What `first_listed` finds is a position of `reps`.
pub proof fn lemma_first_listed(reps: Seq<(MediaTypeView, RendererView)>, accept: Seq<char>, from: int)
    requires
        0 <= from,
    ensures
        first_listed(reps, accept, from) == -1 || (from <= first_listed(reps, accept, from)
            < reps.len() && listed(reps[first_listed(reps, accept, from)].0, accept)),
        forall|j: int|
            from <= j < reps.len() && (j < first_listed(reps, accept, from) || first_listed(
                reps,
                accept,
                from,
            ) == -1) ==> !listed(#[trigger] reps[j].0, accept),
    decreases reps.len() - from,
{
    if from >= reps.len() {
    } else if listed(reps[from].0, accept) {
    } else {
        lemma_first_listed(reps, accept, from + 1);
    }
}

/// What is sent for a request: the number of the status, the headers in
/// order, and what produces the body.
#[derive(Clone, Debug, PartialEq, Eq)]
pub struct HttpResponse {
    pub status: u16,
    pub headers: Vec<(String, String)>,
    pub body: Renderer,
}

/// What an assembled response holds.
pub struct HttpResponseView {
    pub status: int,
    pub headers: Seq<(Seq<char>, Seq<char>)>,
    pub body: RendererView,
}

/// The views of the headers of a sequence.
pub open spec fn header_views(v: Seq<(String, String)>) -> Seq<(Seq<char>, Seq<char>)> {
    Seq::new(v.len(), |i: int| (v[i].0@, v[i].1@))
}

impl View for HttpResponse {
    type V = HttpResponseView;

    open spec fn view(&self) -> HttpResponseView {
        HttpResponseView {
            status: self.status as int,
            headers: header_views(self.headers@),
            body: self.body@,
        }
    }
}

/// The header that belongs to a status: where a redirect or a creation
/// points, or the methods that are allowed.
pub open spec fn status_headers(status: StatusView) -> Seq<(Seq<char>, Seq<char>)> {
    match status {
        StatusView::Created(location) => seq![("location"@, location)],
        StatusView::MovedPermanently(location) => seq![("location"@, location)],
        StatusView::SeeOther(location) => seq![("location"@, location)],
        StatusView::MethodNotAllowed { allow } => seq![("allow"@, allow)],
        _ => Seq::empty(),
    }
}

/// `Vary: Accept`, for a response that offers more than one representation.
pub open spec fn vary_headers(offered: nat) -> Seq<(Seq<char>, Seq<char>)> {
    if offered > 1 {
        seq![("vary"@, "Accept"@)]
    } else {
        Seq::empty()
    }
}

/// The `ETag` header of a resource that has an entity tag.
pub open spec fn etag_headers(etag: Option<ETagView>) -> Seq<(Seq<char>, Seq<char>)> {
    match etag {
        Some(tag) => seq![("etag"@, etag_text(tag))],
        None => Seq::empty(),
    }
}

/// The `Cache-Control` header, where directives were given.
pub open spec fn cache_headers(cache_control: Option<CacheControl>) -> Seq<(Seq<char>, Seq<char>)> {
    match cache_control {
        Some(cc) => seq![("cache-control"@, cache_control_text(cc))],
        None => Seq::empty(),
    }
}

/// One `Set-Cookie` header for each cookie, in order.
pub open spec fn cookie_headers(cookies: Seq<CookieView>) -> Seq<(Seq<char>, Seq<char>)> {
    Seq::new(cookies.len(), |i: int| ("set-cookie"@, set_cookie_text(cookies[i])))
}

/// The headers of a response, in the order in which they are sent: the
/// status's own header, `Vary`, `Content-Type`, `ETag`, `Cache-Control`, and
/// the `Set-Cookie` headers.
pub open spec fn assembled_headers(
    etag: Option<ETagView>,
    response: ResponseView,
    cache_control: Option<CacheControl>,
    accept: Option<Seq<char>>,
) -> Seq<(Seq<char>, Seq<char>)> {
    status_headers(response.status) + vary_headers(response.representations.len()) + seq![
        (
            "content-type"@,
            media_type_text(response.representations[chosen(response.representations, accept)].0),
        ),
    ] + etag_headers(etag) + cache_headers(cache_control) + cookie_headers(response.cookies)
}

/// What is sent for a response of which one representation is chosen.
pub open spec fn assembled(
    etag: Option<ETagView>,
    response: ResponseView,
    cache_control: Option<CacheControl>,
    accept: Option<Seq<char>>,
) -> HttpResponseView {
    HttpResponseView {
        status: status_code(response.status),
        headers: assembled_headers(etag, response, cache_control, accept),
        body: response.representations[chosen(response.representations, accept)].1,
    }
}

/// The view of an entity tag that may be absent.
pub open spec fn etag_view(etag: Option<ETag>) -> Option<ETagView> {
    match etag {
        Some(t) => Some(t@),
        None => None,
    }
}

/// The view of a header value that may be absent.
pub open spec fn text_view(text: Option<&str>) -> Option<Seq<char>> {
    match text {
        Some(t) => Some(t@),
        None => None,
    }
}

/// The media types that an `Accept` header names.
pub fn parse_accept(accept: &str) -> (entries: Vec<Vec<char>>)
    ensures
        rows(entries@) == accept_entries(accept@),
{
    let chars = chars_of(accept);
    let mut comma: Vec<char> = Vec::new();
    comma.push(',');
    assert(comma@ =~= seq![',']);
    let pieces = split(&chars, &comma);
    let mut entries: Vec<Vec<char>> = Vec::new();
    let mut i: usize = 0;
    while i < pieces.len()
        invariant
            i <= pieces@.len(),
            rows(pieces@) == split_on(accept@, seq![',']),
            entries@.len() == i,
            forall|k: int| 0 <= k < i ==> (#[trigger] entries@[k])@ == accept_entry(pieces@[k]@),
        decreases pieces@.len() - i,
    {
        let cut = cut_at(&pieces[i], ';');
        entries.push(trim(&cut));
        i += 1;
    }
    assert(rows(entries@) =~= accept_entries(accept@)) by {
        assert forall|k: int| 0 <= k < entries@.len() implies rows(entries@)[k] == accept_entries(
            accept@,
        )[k] by {
            assert(rows(pieces@)[k] == pieces@[k]@);
        }
    }
    entries
}

/// Whether the category and subtype of `mt` are among `entries`.
fn is_listed(mt: &MediaType, entries: &Vec<Vec<char>>) -> (r: bool)
    ensures
        r == rows(entries@).contains(essence(mt@)),
{
    let mut name = chars_of(mt.type_category.as_str());
    name.push('/');
    let mut sub = chars_of(mt.subtype.as_str());
    name.append(&mut sub);
    assert(name@ =~= essence(mt@));
    let mut k: usize = 0;
    while k < entries.len()
        invariant
            k <= entries@.len(),
            name@ == essence(mt@),
            forall|j: int| 0 <= j < k ==> rows(entries@)[j] != name@,
        decreases entries@.len() - k,
    {
        if same_chars(&entries[k], &name) {
            assert(rows(entries@)[k as int] == name@);
            return true;
        }
        k += 1;
    }
    false
}

/// The position of the representation that is sent for a request with the
/// given `Accept` header.
pub fn select_representation(reps: &Vec<(MediaType, Renderer)>, accept: Option<&str>) -> (i: usize)
    requires
        reps@.len() > 0,
    ensures
        i == chosen(representation_views(reps@), text_view(accept)),
        i < reps@.len(),
{
    match accept {
        None => 0,
        Some(a) => {
            let entries = parse_accept(a);
            let ghost views = representation_views(reps@);
            let mut i: usize = 0;
            while i < reps.len()
                invariant
                    i <= reps@.len(),
                    accept == Some(a),
                    views == representation_views(reps@),
                    rows(entries@) == accept_entries(a@),
                    first_listed(views, a@, 0) == first_listed(views, a@, i as int),
                decreases reps@.len() - i,
            {
                let listed_here = is_listed(&reps[i].0, &entries);
                assert(views[i as int].0 == reps@[i as int].0@);
                assert(listed_here == listed(views[i as int].0, a@));
                if listed_here {
                    assert(first_listed(views, a@, i as int) == i);
                    return i;
                }
                assert(first_listed(views, a@, i as int) == first_listed(views, a@, i + 1));
                i += 1;
            }
            0
        },
    }
}

/// The number of a status.
pub fn code_of(status: &Status) -> (code: u16)
    ensures
        code == status_code(status@),
{
    match status {
        Status::OK => 200,
        Status::Created(_) => 201,
        Status::MovedPermanently(_) => 301,
        Status::SeeOther(_) => 303,
        Status::BadRequest => 400,
        Status::Unauthorized => 401,
        Status::NotFound => 404,
        Status::MethodNotAllowed { .. } => 405,
        Status::InternalServerError => 500,
    }
}

/// Appends one header.
fn push_header(headers: &mut Vec<(String, String)>, name: &str, value: String)
    ensures
        header_views(final(headers)@) == header_views(old(headers)@).push((name@, value@)),
{
    headers.push((String::from_str(name), value));
    assert(header_views(headers@) =~= header_views(old(headers)@).push((name@, value@)));
}

/// Appends the header that belongs to a status.
fn push_status_headers(headers: &mut Vec<(String, String)>, status: Status)
    ensures
        header_views(final(headers)@) == header_views(old(headers)@) + status_headers(status@),
{
    match status {
        Status::Created(location) => {
            push_header(headers, "location", location);
        },
        Status::MovedPermanently(location) => {
            push_header(headers, "location", location);
        },
        Status::SeeOther(location) => {
            push_header(headers, "location", location);
        },
        Status::MethodNotAllowed { allow } => {
            push_header(headers, "allow", allow);
        },
        _ => {},
    }
    assert(header_views(headers@) =~= header_views(old(headers)@) + status_headers(status@));
}

/// Appends one `Set-Cookie` header for each cookie.
fn push_cookie_headers(headers: &mut Vec<(String, String)>, cookies: &Vec<Cookie>)
    ensures
        header_views(final(headers)@) == header_views(old(headers)@) + cookie_headers(
            cookie_views(cookies@),
        ),
{
    let ghost fixed = header_views(headers@);
    let ghost all = cookie_headers(cookie_views(cookies@));
    let mut i: usize = 0;
    assert(header_views(headers@) =~= fixed + all.take(0));
    while i < cookies.len()
        invariant
            i <= cookies@.len(),
            all == cookie_headers(cookie_views(cookies@)),
            header_views(headers@) == fixed + all.take(i as int),
        decreases cookies@.len() - i,
    {
        push_header(headers, "set-cookie", cookies[i].to_string());
        assert(all[i as int] == ("set-cookie"@, set_cookie_text(cookies@[i as int]@)));
        assert(fixed + all.take(i + 1) =~= (fixed + all.take(i as int)).push(all[i as int]));
        i += 1;
    }
    assert(all.take(cookies@.len() as int) =~= all);
}

/// Assembles what is sent: the status, the headers in their fixed order, and
/// the one representation that was chosen. The other representations are
/// dropped as they are.
pub fn build_response(
    etag: Option<ETag>,
    response: Response,
    cache_control: Option<CacheControl>,
    accept: Option<&str>,
) -> (r: HttpResponse)
    requires
        response.representations@.len() > 0,
    ensures
        r@ == assembled(etag_view(etag), response@, cache_control, text_view(accept)),
{
    let Response { status, representations, cookies } = response;
    let mut representations = representations;
    let ghost reps = representation_views(representations@);
    let code = code_of(&status);
    let mut headers: Vec<(String, String)> = Vec::new();
    assert(header_views(headers@) =~= Seq::empty());
    push_status_headers(&mut headers, status);
    let ghost h1 = header_views(headers@);
    assert(h1 =~= status_headers(response@.status));
    if representations.len() > 1 {
        push_header(&mut headers, "vary", String::from_str("Accept"));
    }
    let ghost h2 = header_views(headers@);
    assert(h2 =~= h1 + vary_headers(reps.len()));
    let index = select_representation(&representations, accept);
    let (content_type, body) = representations.remove(index);
    assert(content_type@ == reps[index as int].0 && body@ == reps[index as int].1);
    push_header(&mut headers, "content-type", content_type.to_string());
    let ghost h3 = header_views(headers@);
    if let Some(tag) = &etag {
        push_header(&mut headers, "etag", tag.to_string());
    }
    let ghost h4 = header_views(headers@);
    assert(h4 =~= h3 + etag_headers(etag_view(etag)));
    if let Some(cc) = &cache_control {
        push_header(&mut headers, "cache-control", cc.to_string());
    }
    let ghost h5 = header_views(headers@);
    assert(h5 =~= h4 + cache_headers(cache_control));
    push_cookie_headers(&mut headers, &cookies);
    assert(header_views(headers@) == assembled_headers(
        etag_view(etag),
        response@,
        cache_control,
        text_view(accept),
    ));
    HttpResponse { status: code, headers, body }
}

/// A response that offers two or more representations is sent with
/// `Vary: Accept`, whichever representation is chosen.
pub proof fn lemma_vary_accept(
    etag: Option<ETagView>,
    response: ResponseView,
    cache_control: Option<CacheControl>,
    accept: Option<Seq<char>>,
)
    requires
        response.representations.len() >= 2,
    ensures
        assembled_headers(etag, response, cache_control, accept).contains(("vary"@, "Accept"@)),
{
    let headers = assembled_headers(etag, response, cache_control, accept);
    let at = status_headers(response.status).len() as int;
    assert(headers[at] == ("vary"@, "Accept"@));
}

/// A response that offers one representation is sent without `Vary`.
pub proof fn lemma_no_vary_for_one(offered: nat)
    requires
        offered <= 1,
    ensures
        vary_headers(offered) == Seq::<(Seq<char>, Seq<char>)>::empty(),
{
}

/// The chosen representation is one of those offered, and it is the first
/// one that the `Accept` header names, where it names any.
pub proof fn lemma_chosen(reps: Seq<(MediaTypeView, RendererView)>, accept: Option<Seq<char>>)
    requires
        reps.len() > 0,
    ensures
        0 <= chosen(reps, accept) < reps.len(),
        accept matches Some(a) ==> (listed(reps[chosen(reps, accept)].0, a) || forall|j: int|
            0 <= j < reps.len() ==> !listed(#[trigger] reps[j].0, a)),
        accept matches Some(a) ==> forall|j: int|
            0 <= j < chosen(reps, accept) ==> !listed(#[trigger] reps[j].0, a),
{
    if let Some(a) = accept {
        lemma_first_listed(reps, a, 0);
    }
}

} // verus!
