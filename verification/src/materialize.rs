//! The materializer.
//!
//! One run turns the template tree into the target tree: the target path is
//! computed from the project name and the conflict policy (create, force,
//! append) is decided before anything is written; every traversal entry is
//! then either skipped by the exclusion filter, created as a directory, or
//! rendered — content and destination path both — and written. The caller
//! performs the walking, reading and writing; every decision and every
//! rendered text comes from here.

use vstd::prelude::*;
use crate::errors::ScaffoldError;
use crate::exclude::{excluded_spec, ExclusionFilter};
use crate::paths::{join_components, join_path, join_spec, joined_components, kebab_of, to_kebab};
use crate::render::{render_ok, render_out, render_text};
use crate::resolver::Parameter;
use crate::values::{ParamMap, ParamValue, ParamView};

verus! {

/// The caller-supplied options of one run.
pub struct Opts {
    /// The template location: a local path, or a remote location ending in
    /// the remote-repository suffix.
    pub template_path: String,
    /// A preset project name; set, it skips the name prompt.
    pub project_name: Option<String>,
    /// The base output path; unset, the caller's current directory stands
    /// in for it.
    pub target_dir: Option<String>,
    /// Replace the target directory if it already exists.
    pub force: bool,
    /// Write into the base directory itself instead of creating a project
    /// subdirectory.
    pub append: bool,
    /// Whether fetching a remote template must ask for a passphrase.
    pub passphrase_needed: bool,
}

/// A template's declared metadata: exclusion patterns, and notes shown
/// once generation is done.
#[derive(Debug, Clone)]
pub struct TemplateDescription {
    pub exclude: Option<Vec<String>>,
    pub notes: Option<String>,
}

/// The loaded description of one run: the template's metadata and declared
/// parameters, and the caller's options.
pub struct ScaffoldDescription {
    pub template: TemplateDescription,
    pub parameters: Vec<(String, Parameter)>,
    pub target_dir: Option<String>,
    pub template_path: String,
    pub force: bool,
    pub append: bool,
    pub project_name: Option<String>,
}

/// The exclusion patterns a run declares, none meaning no patterns.
pub open spec fn exclude_patterns(d: ScaffoldDescription) -> Seq<Seq<char>> {
    match d.template.exclude {
        Some(v) => v.deep_view(),
        None => Seq::empty(),
    }
}

impl ScaffoldDescription {
    /// Assemble a run description from the caller's options and the
    /// template's metadata and parameters, as read from the descriptor at
    /// the template root.
    pub fn new(
        opts: Opts,
        template: TemplateDescription,
        parameters: Vec<(String, Parameter)>,
    ) -> (r: ScaffoldDescription)
        ensures
            r.template == template,
            r.parameters == parameters,
            r.target_dir == opts.target_dir,
            r.template_path == opts.template_path,
            r.force == opts.force,
            r.append == opts.append,
            r.project_name == opts.project_name,
    {
        ScaffoldDescription {
            template,
            parameters,
            target_dir: opts.target_dir,
            template_path: opts.template_path,
            force: opts.force,
            append: opts.append,
            project_name: opts.project_name,
        }
    }

    /// Compile this run's exclusion filter: the declared patterns, or none.
    ///
    /// Succeeds exactly when every declared pattern is a well-formed glob
    /// and the list compiles into one set; anything else is `BadPattern`.
    pub fn compile_excludes(&self) -> (r: Result<ExclusionFilter, ScaffoldError>)
        ensures
            r is Ok <==> ((forall|i: int|
                0 <= i < exclude_patterns(*self).len() ==> crate::exclude::glob_ok(
                    exclude_patterns(*self)[i],
                )) && crate::exclude::set_ok(exclude_patterns(*self))),
            r is Ok ==> r->Ok_0.patterns() == exclude_patterns(*self),
            r is Err ==> r->Err_0 is BadPattern,
    {
        match &self.template.exclude {
            Some(pats) => ExclusionFilter::compile(pats),
            None => {
                let none: Vec<String> = Vec::new();
                proof {
                    assert(none.deep_view() =~= Seq::<Seq<char>>::empty());
                }
                ExclusionFilter::compile(&none)
            },
        }
    }
}

/// How the target directory is prepared before anything is written.
#[derive(Debug, Clone, PartialEq, Eq, Structural)]
pub enum TargetAction {
    /// Append mode: the base directory is used as it stands; nothing is
    /// created and nothing is checked.
    UseExisting,
    /// The target does not exist: it is created.
    Create,
    /// The target exists and force was asked for: what stands there is
    /// removed, then the target is created afresh, so it ends up holding
    /// exactly the freshly rendered entries.
    ReplaceThenCreate,
}

/// The target path of a run: in append mode the base directory itself — a
/// project subdirectory is never created there — and otherwise the base
/// extended by the kebab-cased project name.
pub fn target_path(base: &str, name: &str, append: bool) -> (r: String)
    ensures
        append ==> r@ == base@,
        !append ==> r@ == join_spec(base@, kebab_of(name@)),
{
    if append {
        base.to_owned()
    } else {
        let dir_name = to_kebab(name);
        join_path(base, dir_name.as_str())
    }
}

/// Decide the conflict policy for the computed target path, `exists`
/// saying whether that path already exists.
///
/// In append mode the base is used as it stands. Otherwise an absent
/// target is created; an existing one is replaced when force was asked
/// for, and reported as `AlreadyExists` — before any write — when it was
/// not.
pub fn conflict_action(append: bool, force: bool, exists: bool, path: &String) -> (r: Result<
    TargetAction,
    ScaffoldError,
>)
    ensures
        append ==> r == Ok::<TargetAction, ScaffoldError>(TargetAction::UseExisting),
        !append && !exists ==> r == Ok::<TargetAction, ScaffoldError>(TargetAction::Create),
        !append && exists && force ==> r == Ok::<TargetAction, ScaffoldError>(
            TargetAction::ReplaceThenCreate,
        ),
        !append && exists && !force ==> (r matches Err(e) && e matches
            ScaffoldError::AlreadyExists { path: p } && p@ == path@),
{
    if append {
        Ok(TargetAction::UseExisting)
    } else if !exists {
        Ok(TargetAction::Create)
    } else if force {
        Ok(TargetAction::ReplaceThenCreate)
    } else {
        Err(ScaffoldError::AlreadyExists { path: path.clone() })
    }
}

/// What the materializer does with one traversal entry.
#[derive(Debug)]
pub enum EntryPlan {
    /// Excluded, or the template root itself: nothing is written.
    Skip,
    /// A directory: created under the target at its relative path, which
    /// is not rendered.
    MakeDir { dest: String },
    /// A file: content and destination path are rendered, then the caller
    /// writes the rendered content at the rendered path.
    RenderFile,
}

/// Plan one traversal entry, given as its path relative to the template
/// root (as components) and whether it is a directory.
///
/// An entry is skipped exactly when it is the root itself or the exclusion
/// filter excludes its relative path; an included directory is created at
/// the unrendered destination; an included file goes on to rendering.
pub fn plan_entry(
    filter: &ExclusionFilter,
    target_dir: &str,
    components: &Vec<String>,
    is_dir: bool,
) -> (r: EntryPlan)
    ensures
        r is Skip <==> (components.deep_view().len() == 0 || excluded_spec(
            components.deep_view(),
            filter.patterns(),
        )),
        (!(r is Skip) && is_dir) ==> (r matches EntryPlan::MakeDir { dest } && dest@ == join_spec(
            target_dir@,
            joined_components(components.deep_view()),
        )),
        (!(r is Skip) && !is_dir) ==> r is RenderFile,
{
    if components.len() == 0 {
        return EntryPlan::Skip;
    }
    if filter.excludes(components) {
        return EntryPlan::Skip;
    }
    if is_dir {
        let rel = join_components(components);
        EntryPlan::MakeDir { dest: join_path(target_dir, rel.as_str()) }
    } else {
        EntryPlan::RenderFile
    }
}

/// Render one included file: its content, and separately its destination
/// path — the target path joined with the relative path, rendered as text
/// itself, so parameter values may appear in generated file names.
///
/// Succeeds exactly when the evaluator accepts both texts for these
/// parameters, yielding the rendered destination path and the rendered
/// content; either rejection is a `Render` error, which aborts the run.
pub fn materialize_file(
    target_dir: &str,
    components: &Vec<String>,
    content: &str,
    params: &ParamMap,
) -> (r: Result<(String, String), ScaffoldError>)
    requires
        params.is_sealed(),
    ensures
        r is Ok <==> (render_ok(content@, params@) && render_ok(
            join_spec(target_dir@, joined_components(components.deep_view())),
            params@,
        )),
        r is Ok ==> r->Ok_0.0@ == render_out(
            join_spec(target_dir@, joined_components(components.deep_view())),
            params@,
        ),
        r is Ok ==> r->Ok_0.1@ == render_out(content@, params@),
        r is Err ==> r->Err_0 is Render,
{
    let rel = join_components(components);
    let dest_template = join_path(target_dir, rel.as_str());
    match render_text(content, params) {
        Err(e) => Err(e),
        Ok(rendered_content) => match render_text(dest_template.as_str(), params) {
            Err(e) => Err(e),
            Ok(rendered_path) => Ok((rendered_path, rendered_content)),
        },
    }
}

/// Inject the two engine-reserved parameters once the target directory is
/// known — the project name, and the canonical target path — and seal the
/// map: parameter injection is two-phase, and no partially-built map ever
/// reaches the renderer.
pub fn finalize_params(params: &mut ParamMap, name: &String, target_dir: &String)
    requires
        old(params).wf(),
        !old(params).is_sealed(),
    ensures
        final(params).wf(),
        final(params).is_sealed(),
        final(params)@ == old(params)@.insert(
            "target_dir"@,
            ParamView::Str(target_dir@),
        ).insert("name"@, ParamView::Str(name@)),
{
    params.set("target_dir".to_owned(), ParamValue::Str(target_dir.clone()));
    params.set("name".to_owned(), ParamValue::Str(name.clone()));
    params.seal();
}

impl ScaffoldDescription {
    /// Render the template's post-generation notes, when it declares any,
    /// against the sealed parameters: the final user-visible output of a
    /// run.
    pub fn render_notes(&self, params: &ParamMap) -> (r: Result<Option<String>, ScaffoldError>)
        requires
            params.is_sealed(),
        ensures
            self.template.notes is None ==> r == Ok::<Option<String>, ScaffoldError>(None),
            self.template.notes matches Some(n) ==> {
                &&& r is Ok <==> render_ok(n@, params@)
                &&& r is Ok ==> (r->Ok_0 matches Some(s) && s@ == render_out(n@, params@))
                &&& r is Err ==> r->Err_0 is Render
            },
    {
        match &self.template.notes {
            None => Ok(None),
            Some(notes) => match render_text(notes.as_str(), params) {
                Err(e) => Err(e),
                Ok(rendered) => Ok(Some(rendered)),
            },
        }
    }
}

} // verus!
