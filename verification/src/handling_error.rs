//! Failures of a handler, and the pages that report them.

use crate::resource::{
    html_type, single, text_html, Page, PageView, Renderer, RendererView, Response, ResponseView,
    Status, StatusView,
};
use vstd::prelude::*;
use vstd::string::StringExecFns;

verus! {

/// Why a handler could not answer.
#[derive(Clone, Copy, Debug, PartialEq, Eq)]
pub enum HandlingError {
    /// The request was refused; the text says why.
    BadRequest(&'static str),
    InternalServerError,
}

/// What a handling error holds.
pub enum HandlingErrorView {
    BadRequest(Seq<char>),
    InternalServerError,
}

impl View for HandlingError {
    type V = HandlingErrorView;

    open spec fn view(&self) -> HandlingErrorView {
        match self {
            HandlingError::BadRequest(details) => HandlingErrorView::BadRequest(details@),
            HandlingError::InternalServerError => HandlingErrorView::InternalServerError,
        }
    }
}

/// The page that reports a handling error: status 400 or 500, as HTML.
pub open spec fn rendered(error: HandlingErrorView, title: Seq<char>) -> ResponseView {
    match error {
        HandlingErrorView::BadRequest(details) => single(
            StatusView::BadRequest,
            text_html(),
            RendererView::Page(PageView::BadRequest { title, details }),
        ),
        HandlingErrorView::InternalServerError => single(
            StatusView::InternalServerError,
            text_html(),
            RendererView::Page(PageView::InternalServerError { title }),
        ),
    }
}

impl HandlingError {
    /// The page that reports the error, under the site's title.
    pub fn render(self, title: &str) -> (r: Response)
        ensures
            r@ == rendered(self@, title@),
    {
        match self {
            HandlingError::BadRequest(details) => Response::single(
                Status::BadRequest,
                html_type(),
                Renderer::Page(
                    Page::BadRequest {
                        title: String::from_str(title),
                        details: String::from_str(details),
                    },
                ),
            ),
            HandlingError::InternalServerError => Response::single(
                Status::InternalServerError,
                html_type(),
                Renderer::Page(Page::InternalServerError { title: String::from_str(title) }),
            ),
        }
    }
}

} // verus!
