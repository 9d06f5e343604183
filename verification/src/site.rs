//! The site's paths: which resource a path names, and the answers that are
//! given at once where it names none or names one by another spelling.

use crate::id30::{canonical, decodable, lemma_canonical_iff_fixed, lemma_spelling_is_canonical, parsed, spelling, Id30};
use crate::resource::{
    html_type, single, text_html, Renderer, RendererView, Response, ResponseView, Status,
    StatusView,
};
use crate::text::{chars_of, same_chars, same_text, string_of, sub_vec};
use vstd::prelude::*;
use vstd::string::StringExecFns;

verus! {

/// What a path of the site names.
#[derive(Clone, Copy, Debug, PartialEq, Eq)]
pub enum Target {
    /// The page of a series of photos.
    Series(Id30),
    /// The metadata of a photo.
    PixurMeta(Id30),
    /// The page on which a series is edited.
    SeriesEdit(Id30),
    /// The front page.
    Index,
    StyleSheet,
    IngestScript,
    ViewerScript,
    /// Where a login is started.
    InitiateAuth,
    /// Where a login link leads.
    VerifyAuth,
    /// The thumbnail of a photo.
    Thumbnail(Id30),
    /// Where photos are taken in.
    Ingest,
    /// A photo.
    Image(Id30),
}

/// What a target holds.
pub enum TargetView {
    Series(u32),
    PixurMeta(u32),
    SeriesEdit(u32),
    Index,
    StyleSheet,
    IngestScript,
    ViewerScript,
    InitiateAuth,
    VerifyAuth,
    Thumbnail(u32),
    Ingest,
    Image(u32),
}

impl View for Target {
    type V = TargetView;

    open spec fn view(&self) -> TargetView {
        match self {
            Target::Series(id) => TargetView::Series(id@),
            Target::PixurMeta(id) => TargetView::PixurMeta(id@),
            Target::SeriesEdit(id) => TargetView::SeriesEdit(id@),
            Target::Index => TargetView::Index,
            Target::StyleSheet => TargetView::StyleSheet,
            Target::IngestScript => TargetView::IngestScript,
            Target::ViewerScript => TargetView::ViewerScript,
            Target::InitiateAuth => TargetView::InitiateAuth,
            Target::VerifyAuth => TargetView::VerifyAuth,
            Target::Thumbnail(id) => TargetView::Thumbnail(id@),
            Target::Ingest => TargetView::Ingest,
            Target::Image(id) => TargetView::Image(id@),
        }
    }
}

/// What stands before a target.
#[derive(Clone, Copy, Debug, PartialEq, Eq)]
pub enum Guard {
    /// Nothing: the target is served to anyone, and no cookie is read.
    Open,
    /// The cookie of a login that was started is read, as one half of its
    /// token.
    Link,
    /// The login cookie is read; the target is served with or without
    /// claims.
    Claims,
    /// The login cookie is read, and its subject must hold the capability to
    /// see the resource of this identifier.
    View(Id30),
    /// The login cookie is read, and its subject must hold the capability to
    /// edit.
    Edit,
}

/// What a guard holds.
pub enum GuardView {
    Open,
    Link,
    Claims,
    View(u32),
    Edit,
}

impl View for Guard {
    type V = GuardView;

    open spec fn view(&self) -> GuardView {
        match self {
            Guard::Open => GuardView::Open,
            Guard::Link => GuardView::Link,
            Guard::Claims => GuardView::Claims,
            Guard::View(id) => GuardView::View(id@),
            Guard::Edit => GuardView::Edit,
        }
    }
}

/// The guard of a target. The style sheet, the scripts and the start of a
/// login are open. A login link reads the cookie of the login that was
/// started. The front page reads the claims. A series, a thumbnail and a
/// photo ask for the capability to see them; a photo's metadata, the editing
/// of a series and the taking in of photos ask for the capability to edit.
pub open spec fn guard_for(target: TargetView) -> GuardView {
    match target {
        TargetView::StyleSheet => GuardView::Open,
        TargetView::IngestScript => GuardView::Open,
        TargetView::ViewerScript => GuardView::Open,
        TargetView::InitiateAuth => GuardView::Open,
        TargetView::VerifyAuth => GuardView::Link,
        TargetView::Index => GuardView::Claims,
        TargetView::Series(id) => GuardView::View(id),
        TargetView::Thumbnail(id) => GuardView::View(id),
        TargetView::Image(id) => GuardView::View(id),
        TargetView::PixurMeta(_) => GuardView::Edit,
        TargetView::SeriesEdit(_) => GuardView::Edit,
        TargetView::Ingest => GuardView::Edit,
    }
}

/// The guard of a target.
pub fn guard_of(target: &Target) -> (guard: Guard)
    ensures
        guard@ == guard_for(target@),
{
    match target {
        Target::StyleSheet => Guard::Open,
        Target::IngestScript => Guard::Open,
        Target::ViewerScript => Guard::Open,
        Target::InitiateAuth => Guard::Open,
        Target::VerifyAuth => Guard::Link,
        Target::Index => Guard::Claims,
        Target::Series(id) => Guard::View(*id),
        Target::Thumbnail(id) => Guard::View(*id),
        Target::Image(id) => Guard::View(*id),
        Target::PixurMeta(_) => Guard::Edit,
        Target::SeriesEdit(_) => Guard::Edit,
        Target::Ingest => Guard::Edit,
    }
}

/// The names of the cookies that a guard reads: none where it is open, and
/// `let-me-in` else.
pub open spec fn cookies_read(guard: GuardView) -> Seq<Seq<char>> {
    match guard {
        GuardView::Open => Seq::empty(),
        _ => seq!["let-me-in"@],
    }
}

/// The names of the cookies that a guard reads.
pub fn cookie_names(guard: &Guard) -> (names: Vec<String>)
    ensures
        crate::text::texts(names@) == cookies_read(guard@),
{
    let mut names: Vec<String> = Vec::new();
    match guard {
        Guard::Open => {},
        _ => {
            names.push(String::from_str("let-me-in"));
        },
    }
    assert(crate::text::texts(names@) =~= cookies_read(guard@));
    names
}

/// The answer for a path that names nothing: status 404.
pub open spec fn not_found_response() -> ResponseView {
    single(StatusView::NotFound, text_html(), RendererView::Text("Not found!\n"@))
}

/// The answer for a path that names a resource by another spelling: a
/// permanent redirect to `redirect`.
pub open spec fn moved_permanently_response(redirect: Seq<char>) -> ResponseView {
    single(
        StatusView::MovedPermanently(redirect),
        text_html(),
        RendererView::Text("Moved permanently to "@ + redirect + "\n"@),
    )
}

/// The answer for a path that names nothing.
pub fn not_found() -> (r: Response)
    ensures
        r@ == not_found_response(),
{
    Response::single(Status::NotFound, html_type(), Renderer::Text(String::from_str("Not found!\n")))
}

/// The answer for a path that names a resource by another spelling.
pub fn moved_permanently(redirect: String) -> (r: Response)
    ensures
        r@ == moved_permanently_response(redirect@),
{
    let mut body = String::from_str("Moved permanently to ");
    body.append(redirect.as_str());
    body.append("\n");
    Response::single(Status::MovedPermanently(redirect), html_type(), Renderer::Text(body))
}

/// The identifier that a spelling in a path stands for, or the answer that is
/// given at once: a text that is no identifier names nothing, and one that is
/// not the canonical spelling of its identifier, for an upper-case letter in
/// it, is redirected to that spelling.
pub open spec fn canonicalized(given: Seq<char>) -> Result<u32, ResponseView> {
    if !decodable(given) {
        Err(not_found_response())
    } else if spelling(parsed(given)) == given {
        Ok(parsed(given))
    } else {
        Err(moved_permanently_response(spelling(parsed(given))))
    }
}

/// The view of an identifier or the answer given in its place.
pub open spec fn id_view(r: Result<Id30, Response>) -> Result<u32, ResponseView> {
    match r {
        Ok(id) => Ok(id@),
        Err(response) => Err(response@),
    }
}

/// Reads the spelling of an identifier in a path.
pub fn canonicalize_id30(given: &str) -> (r: Result<Id30, Response>)
    ensures
        id_view(r) == canonicalized(given@),
{
    match Id30::from_str(given) {
        Ok(id) => {
            let canon = id.to_string();
            if same_text(given, canon.as_str()) {
                Ok(id)
            } else {
                Err(moved_permanently(canon))
            }
        },
        Err(_) => Err(not_found()),
    }
}

/// Whether `c` is an ASCII letter or digit.
pub open spec fn alnum(c: char) -> bool {
    ('0' <= c && c <= '9') || ('a' <= c && c <= 'z') || ('A' <= c && c <= 'Z')
}

/// Whether `s` is six ASCII letters or digits.
pub open spec fn alnum6(s: Seq<char>) -> bool {
    s.len() == 6 && forall|i: int| 0 <= i < 6 ==> alnum(#[trigger] s[i])
}

/// The identifier that a spelling stands for where the path is not
/// redirected: a text that is no identifier names nothing.
pub open spec fn plain_id(given: Seq<char>) -> Result<u32, ResponseView> {
    if decodable(given) {
        Ok(parsed(given))
    } else {
        Err(not_found_response())
    }
}

/// The target named by an identifier, or the answer given in its place.
pub open spec fn target_of(
    id: Result<u32, ResponseView>,
    make: spec_fn(u32) -> TargetView,
) -> Result<TargetView, ResponseView> {
    match id {
        Ok(n) => Ok(make(n)),
        Err(response) => Err(response),
    }
}

/// What a path names, or the answer that is given at once. The path is the
/// request's path without its leading slash. The first of these that fits
/// decides:
///
/// * six letters or digits: a series, by canonical spelling;
/// * the same, followed by `/meta` or `/edit`: a photo's metadata, or the
///   page on which a series is edited, by any spelling;
/// * the empty path, `style.css`, `ingest.js`, `viewer.js`, `initiate_auth`
///   and `verify_auth`;
/// * `thumb/` and six letters or digits: a thumbnail, by canonical spelling;
/// * `img/`: where photos are taken in;
/// * `img/` and six letters or digits: a photo, by canonical spelling.
///
/// Any other path names nothing.
pub open spec fn looked_up(path: Seq<char>) -> Result<TargetView, ResponseView> {
    if alnum6(path) {
        target_of(canonicalized(path), |n: u32| TargetView::Series(n))
    } else if path.len() >= 6 && alnum6(path.take(6)) && path.skip(6) == "/meta"@ {
        target_of(plain_id(path.take(6)), |n: u32| TargetView::PixurMeta(n))
    } else if path.len() >= 6 && alnum6(path.take(6)) && path.skip(6) == "/edit"@ {
        target_of(plain_id(path.take(6)), |n: u32| TargetView::SeriesEdit(n))
    } else if path == ""@ {
        Ok(TargetView::Index)
    } else if path == "style.css"@ {
        Ok(TargetView::StyleSheet)
    } else if path == "ingest.js"@ {
        Ok(TargetView::IngestScript)
    } else if path == "viewer.js"@ {
        Ok(TargetView::ViewerScript)
    } else if path == "initiate_auth"@ {
        Ok(TargetView::InitiateAuth)
    } else if path == "verify_auth"@ {
        Ok(TargetView::VerifyAuth)
    } else if path.len() >= 6 && path.take(6) == "thumb/"@ && alnum6(path.skip(6)) {
        target_of(canonicalized(path.skip(6)), |n: u32| TargetView::Thumbnail(n))
    } else if path == "img/"@ {
        Ok(TargetView::Ingest)
    } else if path.len() >= 4 && path.take(4) == "img/"@ && alnum6(path.skip(4)) {
        target_of(canonicalized(path.skip(4)), |n: u32| TargetView::Image(n))
    } else {
        Err(not_found_response())
    }
}

/// Whether `v` is six ASCII letters or digits.
fn is_alnum6(v: &Vec<char>) -> (r: bool)
    ensures
        r == alnum6(v@),
{
    if v.len() != 6 {
        return false;
    }
    let mut i: usize = 0;
    while i < 6
        invariant
            i <= 6,
            v@.len() == 6,
            forall|k: int| 0 <= k < i ==> alnum(#[trigger] v@[k]),
        decreases 6 - i,
    {
        let c = v[i];
        if !(('0' <= c && c <= '9') || ('a' <= c && c <= 'z') || ('A' <= c && c <= 'Z')) {
            return false;
        }
        i += 1;
    }
    true
}

/// Whether `v` holds the text `text`.
fn holds(v: &Vec<char>, text: &str) -> (r: bool)
    ensures
        r == (v@ == text@),
{
    let other = chars_of(text);
    same_chars(v, &other)
}

/// The view of a target or the answer given in its place.
pub open spec fn lookup_view(r: Result<Target, Response>) -> Result<TargetView, ResponseView> {
    match r {
        Ok(target) => Ok(target@),
        Err(response) => Err(response@),
    }
}

/// The identifier that a spelling stands for, by any spelling.
fn plain_id30(given: &Vec<char>) -> (r: Result<Id30, Response>)
    ensures
        id_view(r) == plain_id(given@),
{
    let text = string_of(given);
    match Id30::from_str(text.as_str()) {
        Ok(id) => Ok(id),
        Err(_) => Err(not_found()),
    }
}

/// The identifier that a spelling stands for, by canonical spelling.
fn canonical_id30(given: &Vec<char>) -> (r: Result<Id30, Response>)
    ensures
        id_view(r) == canonicalized(given@),
{
    let text = string_of(given);
    canonicalize_id30(text.as_str())
}

/// Finds what a path names.
pub fn lookup(path: &str) -> (r: Result<Target, Response>)
    ensures
        lookup_view(r) == looked_up(path@),
{
    let chars = chars_of(path);
    let n: usize = chars.len();
    if is_alnum6(&chars) {
        return match canonical_id30(&chars) {
            Ok(id) => Ok(Target::Series(id)),
            Err(response) => Err(response),
        };
    }
    if n >= 6 {
        let head = sub_vec(&chars, 0, 6);
        let tail = sub_vec(&chars, 6, n);
        assert(head@ =~= path@.take(6));
        assert(tail@ =~= path@.skip(6));
        if is_alnum6(&head) && holds(&tail, "/meta") {
            return match plain_id30(&head) {
                Ok(id) => Ok(Target::PixurMeta(id)),
                Err(response) => Err(response),
            };
        }
        if is_alnum6(&head) && holds(&tail, "/edit") {
            return match plain_id30(&head) {
                Ok(id) => Ok(Target::SeriesEdit(id)),
                Err(response) => Err(response),
            };
        }
    }
    if holds(&chars, "") {
        return Ok(Target::Index);
    }
    if holds(&chars, "style.css") {
        return Ok(Target::StyleSheet);
    }
    if holds(&chars, "ingest.js") {
        return Ok(Target::IngestScript);
    }
    if holds(&chars, "viewer.js") {
        return Ok(Target::ViewerScript);
    }
    if holds(&chars, "initiate_auth") {
        return Ok(Target::InitiateAuth);
    }
    if holds(&chars, "verify_auth") {
        return Ok(Target::VerifyAuth);
    }
    if n >= 6 {
        let head = sub_vec(&chars, 0, 6);
        let tail = sub_vec(&chars, 6, n);
        assert(head@ =~= path@.take(6));
        assert(tail@ =~= path@.skip(6));
        if holds(&head, "thumb/") && is_alnum6(&tail) {
            return match canonical_id30(&tail) {
                Ok(id) => Ok(Target::Thumbnail(id)),
                Err(response) => Err(response),
            };
        }
    }
    if holds(&chars, "img/") {
        return Ok(Target::Ingest);
    }
    if n >= 4 {
        let head = sub_vec(&chars, 0, 4);
        let tail = sub_vec(&chars, 4, n);
        assert(head@ =~= path@.take(4));
        assert(tail@ =~= path@.skip(4));
        if holds(&head, "img/") && is_alnum6(&tail) {
            return match canonical_id30(&tail) {
                Ok(id) => Ok(Target::Image(id)),
                Err(response) => Err(response),
            };
        }
    }
    Err(not_found())
}

/// A spelling that can be read but is not canonical is redirected to the
/// canonical spelling of the same identifier, which is the spelling in lower
/// case; a canonical spelling is served; a text that cannot be read names
/// nothing.
pub proof fn lemma_canonicalization(given: Seq<char>)
    ensures
        !decodable(given) ==> canonicalized(given) == Err::<u32, ResponseView>(not_found_response()),
        canonical(given) ==> canonicalized(given) == Ok::<u32, ResponseView>(parsed(given)),
        decodable(given) && !canonical(given) ==> canonicalized(given) == Err::<u32, ResponseView>(
            moved_permanently_response(crate::id30::lower_case(given)),
        ) && canonical(crate::id30::lower_case(given)) && crate::id30::lower_case(given) != given
            && parsed(crate::id30::lower_case(given)) == parsed(given),
{
    if decodable(given) {
        lemma_canonical_iff_fixed(given);
        lemma_spelling_is_canonical(parsed(given));
        crate::id30::lemma_spelling_is_lower_case(given);
    }
    if canonical(given) {
        crate::id30::lemma_canonical_is_decodable(given);
        lemma_canonical_iff_fixed(given);
    }
}

} // verus!
