//! The template renderer.
//!
//! The engine does not implement a templating language of its own: it
//! integrates an evaluator through the one contract it relies on —
//! `render(template, parameters)` either yields a string or fails — and
//! that result is a function of the template text and the parameter map
//! alone. Whether a render succeeds, and what it yields, are named below;
//! the rest of the engine's contracts speak of those names.

use vstd::prelude::*;
use std::collections::BTreeMap;
use toml::Value;
use crate::errors::ScaffoldError;
use crate::values::{ParamMap, ParamValue, ParamView};

verus! {

/// Whether rendering `tpl` against `params` succeeds; it depends on the
/// template text and the parameter map alone.
pub uninterp spec fn render_ok(tpl: Seq<char>, params: Map<Seq<char>, ParamView>) -> bool;

/// The text that rendering `tpl` against `params` yields when it succeeds;
/// it depends on the template text and the parameter map alone.
pub uninterp spec fn render_out(tpl: Seq<char>, params: Map<Seq<char>, ParamView>) -> Seq<char>;

/// Relies on handlebars' `render_template` with a fresh default registry:
/// substitution over the handed-in data, a pure function of template text
/// and data, failing exactly on templates the evaluator rejects for that
/// data. The parameter map is handed over as structured values; a float
/// travels as the text the caller formatted.
#[verifier::external_body]
fn hb_render(tpl: &str, params: &ParamMap) -> (r: Result<String, String>)
    ensures
        r is Ok <==> render_ok(tpl@, params@),
        r is Ok ==> r->Ok_0@ == render_out(tpl@, params@),
{
    let data: BTreeMap<String, Value> = params.entries.iter().map(
        |e| (e.0.clone(), match &e.1 {
            ParamValue::Str(s) => Value::String(s.clone()),
            ParamValue::Int(i) => Value::Integer(*i),
            ParamValue::Bool(b) => Value::Boolean(*b),
            ParamValue::Float(s) => Value::String(s.clone()),
            ParamValue::List(xs) => Value::Array(
                xs.iter().map(|x| Value::String(x.clone())).collect(),
            ),
        }),
    ).collect();
    handlebars::Handlebars::new().render_template(tpl, &data).map_err(|e| e.to_string())
}

/// Render one piece of template text against the sealed parameter map.
///
/// Succeeds exactly when the evaluator accepts the template for these
/// parameters, and then yields the one text that template and parameters
/// determine.
pub fn render_text(template: &str, params: &ParamMap) -> (r: Result<String, ScaffoldError>)
    requires
        params.is_sealed(),
    ensures
        r is Ok <==> render_ok(template@, params@),
        r is Ok ==> r->Ok_0@ == render_out(template@, params@),
        r is Err ==> r->Err_0 is Render,
{
    match hb_render(template, params) {
        Ok(s) => Ok(s),
        Err(message) => Err(ScaffoldError::Render { message }),
    }
}

/// Rendering is deterministic: any two results of rendering the same
/// template against the same parameter map are equal, byte for byte.
pub proof fn lemma_render_deterministic(
    tpl: Seq<char>,
    params: Map<Seq<char>, ParamView>,
    a: Seq<char>,
    b: Seq<char>,
)
    requires
        a == render_out(tpl, params),
        b == render_out(tpl, params),
    ensures
        a == b,
{
}

} // verus!
