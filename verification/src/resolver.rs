//! The parameter resolver.
//!
//! A template declares typed parameters; each is resolved to a concrete
//! value, in declaration order, by asking the caller's prompter. The
//! resolver itself does no prompting: for each declared parameter it plans
//! the one prompt to issue — failing fast, before any prompt, on a select
//! parameter with no choices — and turns the prompter's raw answer (free
//! text, a number, an index, a set of indices) into a parameter value.

use vstd::prelude::*;
use crate::errors::ScaffoldError;
use crate::values::{ParamValue, ParamView};

verus! {

/// The kind of a declared parameter.
#[derive(Debug, Clone, PartialEq, Eq, Structural)]
pub enum ParameterType {
    String,
    Integer,
    Float,
    Boolean,
    Select,
    MultiSelect,
}

/// One declared parameter of a template: the prompt text shown for it,
/// whether it is required, its kind, an optional default, and — for the
/// select kinds — the choices offered.
#[derive(Debug, Clone)]
pub struct Parameter {
    pub message: String,
    pub required: bool,
    pub kind: ParameterType,
    pub default: Option<ParamValue>,
    pub values: Option<Vec<String>>,
}

/// The one prompt that a declared parameter asks the caller's prompter to
/// issue.
#[derive(Debug, Clone)]
pub enum PromptRequest {
    /// Free text, with an optional pre-filled default.
    Text { message: String, default: Option<String> },
    /// A 64-bit signed integer.
    Integer { message: String },
    /// A floating-point number; its decimal text is handed back.
    Float { message: String },
    /// A yes/no confirmation.
    Confirm { message: String },
    /// A single choice from `items`, offered at `default_index`.
    Select { message: String, items: Vec<String>, default_index: usize },
    /// Zero or more choices from `items`.
    MultiSelect { message: String, items: Vec<String> },
}

/// The choices a parameter declares, empty when it declares none.
pub open spec fn choices_of(p: Parameter) -> Seq<Seq<char>> {
    match p.values {
        Some(v) => v.deep_view(),
        None => Seq::empty(),
    }
}

/// Whether a parameter's kind requires a non-empty choice list.
pub open spec fn needs_choices(kind: ParameterType) -> bool {
    kind is Select || kind is MultiSelect
}

/// The text that a parameter's default pre-fills, for defaults that are
/// text.
pub open spec fn default_text(d: Option<ParamView>) -> Option<Seq<char>> {
    match d {
        Some(ParamView::Str(t)) => Some(t),
        _ => None,
    }
}

/// `idx` is the index a select prompt is offered at: the first choice equal
/// to the declared text default, and the first choice otherwise.
pub open spec fn is_default_index(
    choices: Seq<Seq<char>>,
    d: Option<ParamView>,
    idx: int,
) -> bool {
    match default_text(d) {
        Some(t) => if exists|j: int| 0 <= j < choices.len() && choices[j] == t {
            &&& 0 <= idx < choices.len()
            &&& choices[idx] == t
            &&& forall|j: int| 0 <= j < idx ==> choices[j] != t
        } else {
            idx == 0
        },
        None => idx == 0,
    }
}

/// The index a select prompt for these choices is offered at.
#[verifier::loop_isolation(false)]
fn select_default_index(choices: &Vec<String>, default: &Option<ParamValue>) -> (idx: usize)
    ensures
        is_default_index(choices.deep_view(), default.deep_view(), idx as int),
{
    match default {
        Some(ParamValue::Str(t)) => {
            let mut i: usize = 0;
            while i < choices.len()
                invariant
                    i <= choices@.len(),
                    forall|j: int| 0 <= j < i ==> choices.deep_view()[j] != t@,
                decreases choices@.len() - i,
            {
                if choices[i] == *t {
                    return i;
                }
                i += 1;
            }
            0
        },
        _ => 0,
    }
}

/// Plan the prompt for one declared parameter.
///
/// Fails with `EmptyChoices` exactly when a select or multi-select
/// parameter declares no choices — a configuration bug of the template,
/// reported before any prompt is issued for it. Otherwise the returned
/// request carries the parameter's prompt text, and for the select kinds
/// its choices in declaration order.
pub fn prompt_plan(name: &String, p: &Parameter) -> (r: Result<PromptRequest, ScaffoldError>)
    ensures
        r is Err <==> needs_choices(p.kind) && choices_of(*p).len() == 0,
        r is Err ==> r->Err_0 is EmptyChoices,
        p.kind is String ==> (r->Ok_0 matches PromptRequest::Text { message, default }
            && message@ == p.message@ && default.deep_view() == default_text(
            p.default.deep_view(),
        )),
        p.kind is Integer ==> (r->Ok_0 matches PromptRequest::Integer { message }
            && message@ == p.message@),
        p.kind is Float ==> (r->Ok_0 matches PromptRequest::Float { message }
            && message@ == p.message@),
        p.kind is Boolean ==> (r->Ok_0 matches PromptRequest::Confirm { message }
            && message@ == p.message@),
        p.kind is Select && r is Ok ==> (r->Ok_0 matches PromptRequest::Select {
            message,
            items,
            default_index,
        } && message@ == p.message@ && items.deep_view() == choices_of(*p) && is_default_index(
            choices_of(*p),
            p.default.deep_view(),
            default_index as int,
        )),
        p.kind is MultiSelect && r is Ok ==> (r->Ok_0 matches PromptRequest::MultiSelect {
            message,
            items,
        } && message@ == p.message@ && items.deep_view() == choices_of(*p)),
    {
        match p.kind {
            ParameterType::String => {
                let default = match &p.default {
                    Some(ParamValue::Str(s)) => Some(s.clone()),
                    _ => None,
                };
                Ok(PromptRequest::Text { message: p.message.clone(), default })
            },
            ParameterType::Integer => Ok(PromptRequest::Integer { message: p.message.clone() }),
            ParameterType::Float => Ok(PromptRequest::Float { message: p.message.clone() }),
            ParameterType::Boolean => Ok(PromptRequest::Confirm { message: p.message.clone() }),
            ParameterType::Select => {
                match &p.values {
                    Some(v) => {
                        if v.len() == 0 {
                            return Err(ScaffoldError::EmptyChoices { parameter: name.clone() });
                        }
                        let default_index = select_default_index(v, &p.default);
                        Ok(PromptRequest::Select {
                            message: p.message.clone(),
                            items: v.clone(),
                            default_index,
                        })
                    },
                    None => Err(ScaffoldError::EmptyChoices { parameter: name.clone() }),
                }
            },
            ParameterType::MultiSelect => {
                match &p.values {
                    Some(v) => {
                        if v.len() == 0 {
                            return Err(ScaffoldError::EmptyChoices { parameter: name.clone() });
                        }
                        Ok(PromptRequest::MultiSelect {
                            message: p.message.clone(),
                            items: v.clone(),
                        })
                    },
                    None => Err(ScaffoldError::EmptyChoices { parameter: name.clone() }),
                }
            },
        }
    }

/// The value a single-select answer resolves to: the chosen entry itself,
/// not its index. An index outside the choices is rejected.
pub fn select_value(name: &String, items: &Vec<String>, idx: usize) -> (r: Result<
    ParamValue,
    ScaffoldError,
>)
    ensures
        r is Ok <==> (idx as int) < items.deep_view().len(),
        r is Ok ==> r->Ok_0@ == ParamView::Str(items.deep_view()[idx as int]),
        r is Err ==> r->Err_0 is InvalidChoice,
{
    if idx < items.len() {
        Ok(ParamValue::Str(items[idx].clone()))
    } else {
        Err(ScaffoldError::InvalidChoice { parameter: name.clone() })
    }
}

/// The value a multi-select answer resolves to: the chosen entries, in
/// selection order. Any index outside the choices is rejected.
#[verifier::loop_isolation(false)]
pub fn multi_select_value(name: &String, items: &Vec<String>, idxs: &Vec<usize>) -> (r: Result<
    ParamValue,
    ScaffoldError,
>)
    ensures
        r is Ok <==> (forall|i: int|
            0 <= i < idxs@.len() ==> (idxs@[i] as int) < items.deep_view().len()),
        r is Ok ==> r->Ok_0@ == ParamView::List(
            idxs@.map_values(|x: usize| items.deep_view()[x as int]),
        ),
        r is Err ==> r->Err_0 is InvalidChoice,
{
    let mut chosen: Vec<String> = Vec::new();
    let mut i: usize = 0;
    while i < idxs.len()
        invariant
            i <= idxs@.len(),
            chosen@.len() == i,
            forall|j: int| 0 <= j < i ==> (idxs@[j] as int) < items.deep_view().len(),
            forall|j: int|
                0 <= j < i ==> chosen.deep_view()[j] == items.deep_view()[idxs@[j] as int],
        decreases idxs@.len() - i,
    {
        let idx = idxs[i];
        if idx >= items.len() {
            return Err(ScaffoldError::InvalidChoice { parameter: name.clone() });
        }
        let ghost prevseq = chosen@;
        let ghost prevdv = chosen.deep_view();
        chosen.push(items[idx].clone());
        proof {
            assert forall|j: int| 0 <= j < i as int + 1 implies chosen.deep_view()[j]
                == items.deep_view()[idxs@[j] as int] by {
                assert(chosen.deep_view()[j] == chosen@[j].deep_view());
                assert(items.deep_view()[idxs@[j] as int] == items@[idxs@[j] as int].deep_view());
                if j < i as int {
                    assert(chosen@[j] == prevseq[j]);
                    assert(prevdv[j] == prevseq[j].deep_view());
                }
            }
        }
        i += 1;
    }
    proof {
        assert(chosen.deep_view() =~= idxs@.map_values(|x: usize| items.deep_view()[x as int]));
    }
    Ok(ParamValue::List(chosen))
}

} // verus!
