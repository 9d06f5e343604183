//! Taking in a photo or a change: what is accepted, and the answer that names
//! what was made of a photo.

use crate::handling_error::{HandlingError, HandlingErrorView};
use crate::id30::{spelling, Id30};
use crate::json::{
    json_written, members, no_numbers, no_texts, object_insert_text, object_new, object_to_string,
};
use crate::media_type::{MediaType, MediaTypeView};
use crate::resource::{
    single, Renderer, RendererView, Response, ResponseView, Status, StatusView,
};
use crate::text::{begins_with, starts_with};
use vstd::prelude::*;
use vstd::string::StringExecFns;

verus! {

/// What a body of the given content type is taken in as: it must be a JPEG.
pub open spec fn acceptable(content_type: Seq<char>) -> Result<(), HandlingErrorView> {
    if starts_with(content_type, "image/jpeg"@) {
        Ok(())
    } else {
        Err(HandlingErrorView::BadRequest("Unacceptable Content-Type, must be image/jpeg"@))
    }
}

/// Checks the content type of a photo that is posted.
pub fn check_content_type(content_type: &str) -> (r: Result<(), HandlingError>)
    ensures
        match r {
            Ok(_) => acceptable(content_type@) is Ok,
            Err(e) => acceptable(content_type@) == Err::<(), HandlingErrorView>(e@),
        },
{
    if begins_with(content_type, "image/jpeg") {
        Ok(())
    } else {
        Err(HandlingError::BadRequest("Unacceptable Content-Type, must be image/jpeg"))
    }
}

/// What a body of the given content type is taken as where JSON is asked
/// for: the content type must be `application/json`, to the letter.
pub open spec fn acceptable_json(content_type: Seq<char>) -> Result<(), HandlingErrorView> {
    if content_type == "application/json"@ {
        Ok(())
    } else {
        Err(HandlingErrorView::BadRequest("Unacceptable Content-Type, must be application/json"@))
    }
}

/// Checks the content type of a change that is posted as JSON.
pub fn check_json_content_type(content_type: &str) -> (r: Result<(), HandlingError>)
    ensures
        match r {
            Ok(_) => acceptable_json(content_type@) is Ok,
            Err(e) => acceptable_json(content_type@) == Err::<(), HandlingErrorView>(e@),
        },
{
    if crate::text::same_text(content_type, "application/json") {
        Ok(())
    } else {
        Err(HandlingError::BadRequest("Unacceptable Content-Type, must be application/json"))
    }
}

/// The address of the resource `id` of the site at `base_url`.
pub open spec fn address(base_url: Seq<char>, id: u32) -> Seq<char> {
    base_url + spelling(id)
}

/// The address of the resource `id` of the site at `base_url`.
pub fn address_of(base_url: &str, id: Id30) -> (r: String)
    ensures
        r@ == address(base_url@, id@),
{
    let mut r = String::from_str(base_url);
    let text = id.to_string();
    r.append(text.as_str());
    r
}

/// The media type `application/json`.
pub open spec fn application_json() -> MediaTypeView {
    MediaTypeView { type_category: "application"@, subtype: "json"@, args: Seq::empty() }
}

/// The texts that the answer to an ingestion holds: the address of the photo
/// and that of its series.
pub open spec fn ingestion_texts(url: Seq<char>, series_url: Seq<char>) -> Map<Seq<char>, Seq<char>> {
    no_texts().insert("url"@, url).insert("series_url"@, series_url)
}

/// Whether `r` answers the ingestion that `object` reports: status 201 with
/// the photo's address, and the object as JSON; a failure of the server
/// where the object cannot be written.
pub open spec fn reports(
    object: serde_json::Map<String, serde_json::Value>,
    url: Seq<char>,
    r: Result<ResponseView, HandlingErrorView>,
) -> bool {
    match json_written(object) {
        Some(text) => r == Ok::<ResponseView, HandlingErrorView>(
            single(StatusView::Created(url), application_json(), RendererView::Text(text)),
        ),
        None => r == Err::<ResponseView, HandlingErrorView>(HandlingErrorView::InternalServerError),
    }
}

/// The view of an answer or of the failure in its place.
pub open spec fn outcome_view(r: Result<Response, HandlingError>) -> Result<
    ResponseView,
    HandlingErrorView,
> {
    match r {
        Ok(response) => Ok(response@),
        Err(e) => Err(e@),
    }
}

/// The answer to a photo that was taken in as `id`, in the series
/// `series_id`.
pub fn ingested(base_url: &str, id: Id30, series_id: Id30) -> (r: Result<Response, HandlingError>)
    ensures
        exists|object: serde_json::Map<String, serde_json::Value>|
            members(object).texts == ingestion_texts(
                address(base_url@, id@),
                address(base_url@, series_id@),
            ) && members(object).numbers == no_numbers() && #[trigger] reports(
                object,
                address(base_url@, id@),
                outcome_view(r),
            ),
{
    let url = address_of(base_url, id);
    let series_url = address_of(base_url, series_id);
    let mut object = object_new();
    object_insert_text(&mut object, "url", url.as_str());
    object_insert_text(&mut object, "series_url", series_url.as_str());
    assert(members(object).numbers =~= no_numbers());
    let r = match object_to_string(&object) {
        None => Err(HandlingError::InternalServerError),
        Some(json) => {
            let media_type = MediaType::new("application", "json", Vec::new());
            assert(media_type@.args =~= Seq::empty());
            Ok(Response::single(Status::Created(url), media_type, Renderer::Text(json)))
        },
    };
    assert(reports(object, address(base_url@, id@), outcome_view(r)));
    r
}

} // verus!
