//! The exclusion filter.
//!
//! A template's descriptor may declare glob patterns; entries of the
//! template tree whose path, relative to the template root, matches one of
//! them are skipped. Two further exclusions are structural and hold whatever
//! the descriptor says: any path with a component equal to the reserved
//! version-control directory name, and the descriptor file itself at the
//! template root.
//!
//! Glob compilation and matching come from the globset crate behind trusted
//! items; what a pattern matches is named, and the filter's own logic is
//! verified against those names.

use vstd::prelude::*;
use crate::errors::ScaffoldError;
use crate::paths::joined_components;

verus! {

#[verifier::external_type_specification]
#[verifier::external_body]
pub struct ExGlob(globset::Glob);

#[verifier::external_type_specification]
#[verifier::external_body]
pub struct ExGlobSetBuilder(globset::GlobSetBuilder);

#[verifier::external_type_specification]
#[verifier::external_body]
pub struct ExGlobSet(globset::GlobSet);

/// Whether `pat` is a well-formed glob pattern; it depends on the pattern
/// text alone.
pub uninterp spec fn glob_ok(pat: Seq<char>) -> bool;

/// The pattern text a compiled glob carries.
pub uninterp spec fn glob_pat(g: globset::Glob) -> Seq<char>;

/// The pattern texts a glob-set builder has collected, in order.
pub uninterp spec fn builder_pats(b: globset::GlobSetBuilder) -> Seq<Seq<char>>;

/// The pattern texts a built glob set holds, in order.
pub uninterp spec fn set_pats(s: globset::GlobSet) -> Seq<Seq<char>>;

/// Whether this list of pattern texts compiles into one glob set; the
/// texts alone decide.
pub uninterp spec fn set_ok(pats: Seq<Seq<char>>) -> bool;

/// Whether the glob pattern `pat`, compiled with default settings, matches
/// `path`; it depends on the two texts alone. (globset fixes its backslash
/// handling per target when it is built, so this function, like the other
/// names here, is pinned for any one built program.)
pub uninterp spec fn glob_matches(pat: Seq<char>, path: Seq<char>) -> bool;

/// Relies on `globset::Glob::new`: parses the pattern with default
/// settings, succeeding exactly on well-formed patterns, a pure function of
/// the pattern text.
#[verifier::external_body]
fn glob_new(pat: &str) -> (r: Result<globset::Glob, String>)
    ensures
        r is Ok <==> glob_ok(pat@),
        r is Ok ==> glob_pat(r->Ok_0) == pat@,
{
    globset::Glob::new(pat).map_err(|e| e.to_string())
}

/// Relies on `globset::GlobSetBuilder::new`: a builder holding no patterns.
#[verifier::external_body]
fn builder_new() -> (b: globset::GlobSetBuilder)
    ensures
        builder_pats(b) == Seq::<Seq<char>>::empty(),
{
    globset::GlobSetBuilder::new()
}

/// Relies on `globset::GlobSetBuilder::add`: appends one pattern to the
/// builder's collection.
#[verifier::external_body]
fn builder_add(b: &mut globset::GlobSetBuilder, g: globset::Glob)
    ensures
        builder_pats(*final(b)) == builder_pats(*old(b)).push(glob_pat(g)),
{
    b.add(g);
}

/// Relies on `globset::GlobSetBuilder::build`: compiles the collected
/// patterns into one set, succeeding exactly when that list of texts
/// compiles — a pure function of the texts; on success the set holds
/// exactly those patterns.
#[verifier::external_body]
fn builder_build(b: &globset::GlobSetBuilder) -> (r: Result<globset::GlobSet, String>)
    ensures
        r is Ok <==> set_ok(builder_pats(*b)),
        r is Ok ==> set_pats(r->Ok_0) == builder_pats(*b),
{
    b.build().map_err(|e| e.to_string())
}

/// Relies on `globset::GlobSet::is_match`: true exactly when some pattern
/// of the set matches the path.
#[verifier::external_body]
fn set_is_match(s: &globset::GlobSet, path: &str) -> (r: bool)
    ensures
        r == (exists|i: int| 0 <= i < set_pats(*s).len() && glob_matches(set_pats(*s)[i], path@)),
{
    s.is_match(path)
}

/// Whether some pattern of `pats` matches `path`.
pub open spec fn some_match(pats: Seq<Seq<char>>, path: Seq<char>) -> bool {
    exists|i: int| 0 <= i < pats.len() && glob_matches(pats[i], path)
}

/// Whether a relative path, given as components, has a component equal to
/// the reserved version-control directory name.
pub open spec fn has_reserved_component(path: Seq<Seq<char>>) -> bool {
    exists|i: int| 0 <= i < path.len() && path[i] == ".git"@
}

/// Whether a relative path, given as components, is the descriptor file at
/// the template root.
pub open spec fn is_descriptor_path(path: Seq<Seq<char>>) -> bool {
    path.len() == 1 && path[0] == ".scaffold.toml"@
}

/// Whether an entry with this relative path is excluded from
/// materialization under these patterns.
pub open spec fn excluded_spec(path: Seq<Seq<char>>, pats: Seq<Seq<char>>) -> bool {
    has_reserved_component(path) || is_descriptor_path(path) || some_match(
        pats,
        joined_components(path),
    )
}

/// The compiled exclusion filter of one run.
#[derive(Debug)]
pub struct ExclusionFilter {
    set: globset::GlobSet,
}

impl ExclusionFilter {
    /// The pattern texts the filter was compiled from, in order.
    pub closed spec fn patterns(&self) -> Seq<Seq<char>> {
        set_pats(self.set)
    }

    /// Compile a descriptor's exclusion patterns into one filter.
    ///
    /// Succeeds exactly when every pattern is a well-formed glob and the
    /// list compiles into one set, and then the filter holds exactly the
    /// given patterns in order; anything else is reported as `BadPattern`.
    #[verifier::loop_isolation(false)]
    pub fn compile(patterns: &Vec<String>) -> (r: Result<ExclusionFilter, ScaffoldError>)
        ensures
            r is Ok <==> ((forall|i: int|
                0 <= i < patterns.deep_view().len() ==> glob_ok(patterns.deep_view()[i]))
                && set_ok(patterns.deep_view())),
            r is Ok ==> r->Ok_0.patterns() == patterns.deep_view(),
            r is Err ==> r->Err_0 is BadPattern,
    {
        let ghost pv = patterns.deep_view();
        let mut builder = builder_new();
        let mut i: usize = 0;
        while i < patterns.len()
            invariant
                i <= pv.len(),
                builder_pats(builder) == pv.take(i as int),
                forall|j: int| 0 <= j < i ==> glob_ok(pv[j]),
            decreases pv.len() - i,
        {
            match glob_new(patterns[i].as_str()) {
                Ok(g) => {
                    builder_add(&mut builder, g);
                    proof {
                        assert(pv.take(i + 1) =~= pv.take(i as int).push(pv[i as int]));
                    }
                },
                Err(message) => {
                    return Err(ScaffoldError::BadPattern { message });
                },
            }
            i += 1;
        }
        proof {
            assert(pv.take(pv.len() as int) =~= pv);
        }
        match builder_build(&builder) {
            Ok(set) => Ok(ExclusionFilter { set }),
            Err(message) => Err(ScaffoldError::BadPattern { message }),
        }
    }

    /// Decide whether the entry with this relative path (as components) is
    /// excluded: structurally reserved, or matched by some pattern.
    #[verifier::loop_isolation(false)]
    pub fn excludes(&self, components: &Vec<String>) -> (r: bool)
        ensures
            r == excluded_spec(components.deep_view(), self.patterns()),
    {
        let ghost path = components.deep_view();
        let reserved = ".git".to_owned();
        let mut i: usize = 0;
        while i < components.len()
            invariant
                i <= path.len(),
                forall|j: int| 0 <= j < i ==> path[j] != ".git"@,
            decreases path.len() - i,
        {
            if components[i] == reserved {
                proof {
                    assert(path[i as int] == ".git"@);
                }
                return true;
            }
            i += 1;
        }
        if components.len() == 1 {
            let descriptor = ".scaffold.toml".to_owned();
            if components[0] == descriptor {
                return true;
            }
        }
        let joined = crate::paths::join_components(components);
        set_is_match(&self.set, joined.as_str())
    }
}

/// Exclusion is exact: a path that some pattern matches is excluded, and a
/// path that no pattern matches and that is not structurally reserved is
/// not excluded.
pub proof fn lemma_exclusion_exact(path: Seq<Seq<char>>, pats: Seq<Seq<char>>)
    ensures
        some_match(pats, joined_components(path)) ==> excluded_spec(path, pats),
        !has_reserved_component(path) && !is_descriptor_path(path) && !some_match(
            pats,
            joined_components(path),
        ) ==> !excluded_spec(path, pats),
{
}

/// The structural exclusions hold whatever patterns the descriptor
/// declares, the empty set included: a path with a reserved
/// version-control component, and the descriptor file at the template
/// root, are always excluded.
pub proof fn lemma_structural_exclusions(path: Seq<Seq<char>>, pats: Seq<Seq<char>>)
    ensures
        has_reserved_component(path) ==> excluded_spec(path, pats),
        is_descriptor_path(path) ==> excluded_spec(path, pats),
{
}

} // verus!
