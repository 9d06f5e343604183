//! Request resolution, capability authorization and passwordless login for a
//! small photo-sharing site.

pub mod assembly;
pub mod auth;
pub mod cache_control;
pub mod capability;
pub mod comment_position;
pub mod cookie;
pub mod crockford;
pub mod etag;
pub mod handling_error;
pub mod id30;
pub mod imaging;
pub mod ingest;
pub mod json;
pub mod media_type;
pub mod query_args;
pub mod recipients;
pub mod request;
pub mod resource;
pub mod site;
pub mod text;
