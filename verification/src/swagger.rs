//! The settings of the interactive API documentation.
use vstd::prelude::*;

verus! {

/// The settings of the API documentation page: one document, its title and
/// where it is served, and two display options.
#[derive(Debug, Clone, Copy, PartialEq, Eq)]
pub struct SwaggerSettings {
    pub title: &'static str,
    pub url: &'static str,
    pub deep_linking: bool,
    pub display_request_duration: bool,
}

/// The documentation settings of the school service: the document "The
/// Boring School" at `/openapi.json`, with deep links and request durations
/// shown, and every other option at its default.
pub fn swag_config() -> (c: SwaggerSettings)
    ensures
        c.title@ == "The Boring School"@,
        c.url@ == "/openapi.json"@,
        c.deep_linking,
        c.display_request_duration,
{
    SwaggerSettings {
        title: "The Boring School",
        url: "/openapi.json",
        deep_linking: true,
        display_request_duration: true,
    }
}

} // verus!
