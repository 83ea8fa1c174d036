//! Rendering the index page.
//!
//! The page is produced by the tera template engine from the template named
//! `index.html` of a template set the caller loaded, against a render context
//! that binds the single variable `release` to the fetched release record.
//! What the rendered text looks like depends on the template files on disk,
//! so nothing is claimed about it; a failed render is reported as a render
//! error carrying tera's description of the cause.

use vstd::prelude::*;
use crate::errors::{ErrorKind, Failure};
use crate::release::ReleaseRecord;

verus! {

/// The tera template set, loaded by the caller from the template directory.
#[verifier::external_type_specification]
#[verifier::external_body]
pub struct ExTera(tera::Tera);

/// The error tera reports when loading or rendering fails.
#[verifier::external_type_specification]
#[verifier::external_body]
pub struct ExTeraError(tera::Error);

/// Relies on tera::Tera::render: renders the template named "index.html"
/// against a context binding "release" to an object that holds the record's
/// three fields under the names "version", "published_at" and "html_url".
#[verifier::external_body]
fn render_index(
    templates: &tera::Tera,
    version: &String,
    published_at: &String,
    html_url: &String,
) -> (r: Result<String, tera::Error>) {
    let mut fields = std::collections::HashMap::new();
    fields.insert("version", tera::Value::from(version.as_str()));
    fields.insert("published_at", tera::Value::from(published_at.as_str()));
    fields.insert("html_url", tera::Value::from(html_url.as_str()));
    let mut context = tera::Context::new();
    context.insert_value("release", tera::Value::from(fields));
    templates.render("index.html", &context)
}

/// Relies on the Display implementation of tera::Error for a human-readable
/// description of a template failure.
#[verifier::external_body]
fn tera_error_text(e: &tera::Error) -> (r: String) {
    format!("{}", e)
}

/// Renders the index page for the release record through the loaded template
/// set. The rendered text is whatever the templates on disk produce for the
/// record's three fields; a failure is a render error.
pub fn render_release_page(templates: &tera::Tera, release: &ReleaseRecord) -> (r: Result<
    String,
    Failure,
>)
    ensures
        r matches Err(f) ==> f.kind == ErrorKind::Render,
{
    match render_index(templates, &release.version, &release.published_at, &release.html_url) {
        Ok(page) => Ok(page),
        Err(e) => Err(Failure { kind: ErrorKind::Render, detail: tera_error_text(&e) }),
    }
}

} // verus!
