//! Rendering a fetched JSON payload through a check's template.
//!
//! The caller fetches the payload and reads the template file, and
//! hands both outcomes in as plain values; this module decides which
//! error wins and, when everything is in order, renders the template
//! against the parsed payload.  Fetch errors take precedence over a
//! malformed payload, which takes precedence over a missing template,
//! which takes precedence over a rendering failure — the order in
//! which the stages run.

use vstd::prelude::*;

verus! {

/// Why a check could not be rendered.  Each variant carries a
/// description of the underlying failure.
#[derive(Debug)]
pub enum RenderError {
    /// The data source could not be fetched (connection failure,
    /// non-success status, timeout).
    FetchFailed(String),
    /// The fetched body is not valid JSON.
    InvalidPayload(String),
    /// The template file is missing or unreadable.
    TemplateUnavailable(String),
    /// The template could not be rendered against the payload.
    RenderFailed(String),
}

impl RenderError {
    /// The description carried by the error.
    pub open spec fn desc(self) -> Seq<char> {
        match self {
            RenderError::FetchFailed(d) => d@,
            RenderError::InvalidPayload(d) => d@,
            RenderError::TemplateUnavailable(d) => d@,
            RenderError::RenderFailed(d) => d@,
        }
    }

    /// Hands the description out for reporting.
    pub fn description(&self) -> (r: &String)
        ensures
            r@ == self.desc(),
    {
        match self {
            RenderError::FetchFailed(d) => d,
            RenderError::InvalidPayload(d) => d,
            RenderError::TemplateUnavailable(d) => d,
            RenderError::RenderFailed(d) => d,
        }
    }
}

/// Whether a character sequence is a well-formed JSON document.
pub uninterp spec fn json_ok(body: Seq<char>) -> bool;

/// Whether rendering a template against a well-formed JSON body
/// succeeds.
pub uninterp spec fn render_ok(template: Seq<char>, body: Seq<char>) -> bool;

/// The text produced by rendering a template against a JSON body, a
/// function of the two texts alone.
pub uninterp spec fn rendered_of(template: Seq<char>, body: Seq<char>) -> Seq<char>;

/// Relies on serde_json::from_str: whether a text parses as a JSON
/// value is a function of the text alone.  The error case carries the
/// parser's description.
#[verifier::external_body]
fn json_parses(body: &str) -> (r: Result<(), String>)
    ensures
        r is Ok <==> json_ok(body@),
{
    match serde_json::from_str::<serde_json::Value>(body) {
        Ok(_) => Ok(()),
        Err(e) => Err(e.to_string()),
    }
}

/// Relies on serde_json::from_str, handlebars::Handlebars::new and
/// Handlebars::render_template: a fresh default registry renders a
/// fixed template against the value parsed from a fixed well-formed
/// JSON body, so whether rendering succeeds and what text it produces
/// depend on the two texts alone.  The error case carries the
/// description of the failure.
#[verifier::external_body]
fn render_template_text(template: &str, body: &str) -> (r: Result<String, String>)
    ensures
        json_ok(body@) ==> ((r is Ok) <==> render_ok(template@, body@)),
        !json_ok(body@) ==> r is Err,
        r matches Ok(s) ==> s@ == rendered_of(template@, body@),
{
    let data: serde_json::Value = match serde_json::from_str(body) {
        Ok(v) => v,
        Err(e) => return Err(e.to_string()),
    };
    match handlebars::Handlebars::new().render_template(template, &data) {
        Ok(s) => Ok(s),
        Err(e) => Err(e.to_string()),
    }
}

/// Renders one check from the outcome of fetching its data source and
/// the outcome of reading its template file, each either the text or a
/// description of the failure.
///
/// The stages are tried in order — fetch, payload parse, template
/// read, render — and the first failure decides the error.
pub fn render_check(fetch: Result<String, String>, template: Result<String, String>) -> (r:
    Result<String, RenderError>)
    ensures
        fetch matches Err(d) ==> (r matches Err(e) && e matches RenderError::FetchFailed(d2)
            && d2@ == d@),
        fetch matches Ok(b) ==> !json_ok(b@) ==> (r matches Err(e)
            && e is InvalidPayload),
        fetch matches Ok(b) ==> json_ok(b@) ==> (template matches Err(d) ==> (r matches Err(e)
            && e matches RenderError::TemplateUnavailable(d2) && d2@ == d@)),
        fetch matches Ok(b) ==> json_ok(b@) ==> (template matches Ok(t) ==> ((r is Ok) <==>
            render_ok(t@, b@))),
        fetch matches Ok(b) ==> json_ok(b@) ==> (template matches Ok(t) ==> render_ok(t@, b@)
            ==> (r matches Ok(s) && s@ == rendered_of(t@, b@))),
        fetch matches Ok(b) ==> json_ok(b@) ==> (template matches Ok(t) ==> !render_ok(t@, b@)
            ==> (r matches Err(e) && e is RenderFailed)),
{
    let body = match fetch {
        Ok(b) => b,
        Err(d) => {
            return Err(RenderError::FetchFailed(d));
        },
    };
    if let Err(d) = json_parses(body.as_str()) {
        return Err(RenderError::InvalidPayload(d));
    }
    let template_text = match template {
        Ok(t) => t,
        Err(d) => {
            return Err(RenderError::TemplateUnavailable(d));
        },
    };
    match render_template_text(template_text.as_str(), body.as_str()) {
        Ok(s) => Ok(s),
        Err(d) => Err(RenderError::RenderFailed(d)),
    }
}

} // verus!
