//! Query texts: a template whose selection is filled with a projection.

use vstd::prelude::*;
use crate::error::{StoreError, StoreErrorView};
use crate::projection::{admits_all, check_all, render_all, texts, Field, FieldView, Kind};

verus! {

/// The text that Handlebars makes of `template` when the variable `fields`
/// is bound to the list of strings `fields`; none where it reports an error.
pub uninterp spec fn rendered(template: Seq<char>, fields: Seq<Seq<char>>) -> Option<Seq<char>>;

/// The error of the renderer, carried through as it is.
#[verifier::external_type_specification]
#[verifier::external_body]
pub struct ExRenderError(handlebars::RenderError);

/// Whether a template is one of the query templates of the stores. Each of
/// them is plain text around one block that repeats `{{this}}` for each
/// field, or plain text alone; none defines or calls a partial.
pub open spec fn is_query_template(template: Seq<char>) -> bool {
    ||| template == crate::entity_store::BY_UID@
    ||| template == crate::entity_store::BY_SID@
    ||| template == crate::entity_store::BY_IDENTIFIER@
    ||| template == crate::identifier_store::BY_UID@
    ||| template == crate::identifier_store::BY_TYPE_VALUE@
    ||| template == crate::authenticator_store::BY_UID@
    ||| template == crate::authenticator_store::BY_TYPE_IDENTIFIER@
    ||| template == crate::authenticator_store::LOGIN@
    ||| template == crate::system_store::BY_GUID@
    ||| template == crate::namespace_store::BY_GUID@
    ||| template == crate::namespace_store::BY_SYSTEM_NAME@
    ||| template == crate::scope_store::BY_GUID@
    ||| template == crate::scope_store::BY_NAMESPACE_NAME@
}

/// Renders with `handlebars::Handlebars::render_template`, on a registry as
/// `Handlebars::new` makes it and on the data `{"fields": [..]}`. The
/// contract gives the call's result its name, [`rendered`]: the text depends
/// on the template and on the data alone. The template must be one of the
/// query templates: on a template that calls a partial from within itself
/// the renderer need not return.
#[verifier::external_body]
fn render_template(template: &str, fields: &Vec<String>) -> (r: Result<
    String,
    handlebars::RenderError,
>)
    requires
        is_query_template(template@),
    ensures
        match r {
            Ok(text) => rendered(template@, fields.deep_view()) == Some(text@),
            Err(_) => rendered(template@, fields.deep_view()).is_none(),
        },
{
    let mut data = serde_json::Map::new();
    data.insert(String::from("fields"), serde_json::Value::from(fields.clone()));
    handlebars::Handlebars::new().render_template(template, &serde_json::Value::Object(data))
}

/// The text of the query that `template` gives for a projection on records
/// of kind `kind`: an error where the projection is not admitted, or where
/// the template does not render.
pub open spec fn query_text(template: Seq<char>, kind: Kind, fields: Seq<FieldView>) -> Result<
    Seq<char>,
    StoreErrorView,
> {
    if !admits_all(kind, fields) {
        Err(StoreErrorView::Projection)
    } else {
        match rendered(template, texts(fields)) {
            Some(text) => Ok(text),
            None => Err(StoreErrorView::Template),
        }
    }
}

/// What became of an attempt to render: the text, or the error
/// [`StoreError::Template`] in place of the renderer's own.
pub fn settle(outcome: Result<String, handlebars::RenderError>) -> (r: Result<String, StoreError>)
    ensures
        match outcome {
            Ok(text) => r matches Ok(t) && t == text,
            Err(_) => r matches Err(e) && e@ == StoreErrorView::Template,
        },
{
    match outcome {
        Ok(text) => Ok(text),
        Err(_) => Err(StoreError::Template),
    }
}

/// Checks the projection against the schema and renders the query of one
/// of the query templates.
pub fn select(template: &str, kind: Kind, fields: &Vec<Field>) -> (r: Result<String, StoreError>)
    requires
        is_query_template(template@),
    ensures
        match query_text(template@, kind, fields.deep_view()) {
            Ok(text) => r matches Ok(t) && t@ == text,
            Err(e) => r matches Err(x) && x@ == e,
        },
{
    if !check_all(kind, fields) {
        return Err(StoreError::Projection);
    }
    let names = render_all(fields);
    settle(render_template(template, &names))
}

/// Whether the query that `template` gives for the projection can be made:
/// the projection is admitted and the template renders.
pub open spec fn renders(template: Seq<char>, kind: Kind, fields: Seq<FieldView>) -> bool {
    query_text(template, kind, fields) is Ok
}

} // verus!
