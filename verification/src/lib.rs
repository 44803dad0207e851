//! A verified core for a small image-serving protocol: a startup-built
//! catalog of image resources, HTTP conditional-GET freshness decisions
//! (`If-Modified-Since` / `Last-Modified`), and the abstract responses
//! (full body, not modified, not found, redirect) rendered from them.

mod catalog;
mod content_type;
mod freshness;
mod handler;
mod http_date;
mod laws;
mod random;
mod response;

pub use content_type::ContentType;
pub use content_type::content_type_check;
pub use content_type::content_type_from_extension;
pub use content_type::resolve_content_type;
pub use freshness::Freshness;
pub use freshness::decide_freshness;
pub use freshness::evaluate;
pub use http_date::HTTP_DATE_MAX_SECS;
pub use catalog::Catalog;
pub use catalog::CatalogError;
pub use catalog::Resource;
pub use catalog::ResourceView;
pub use catalog::str_eq;
pub use handler::DecisionView;
pub use handler::ResponseDecision;
pub use handler::handle_get_image;
pub use handler::handle_random_redirect;
pub use response::Body;
pub use response::HttpResponse;
pub use response::render;
pub use response::render_redirect;
pub use laws::lemma_decision_on_cataloged_resource;
pub use laws::lemma_no_token_full_body;
pub use laws::lemma_equal_token_not_modified;
pub use laws::lemma_later_token_not_modified;
pub use laws::lemma_earlier_token_full_body;
pub use laws::lemma_invalid_header_like_absent;
pub use laws::lemma_unknown_name_not_found;
