//! Path text handling.
//!
//! The engine works on paths as plain text with `/` separators: the part of
//! a path it reasons about (joining a base with a generated directory name,
//! joining the components of a relative path) is ordinary string logic. The
//! kebab-casing of a project name and the digest that names a remote
//! template's cache directory come from outside crates behind trusted
//! wrappers.

use vstd::prelude::*;

verus! {

/// The text that joining `a` and `b` with a separator denotes.
pub open spec fn join_spec(a: Seq<char>, b: Seq<char>) -> Seq<char> {
    a + "/"@ + b
}

/// Join a base path and one further path component.
pub fn join_path(a: &str, b: &str) -> (r: String)
    ensures
        r@ == join_spec(a@, b@),
{
    let mut s = a.to_owned();
    s.append("/");
    s.append(b);
    s
}

/// The joined form of a relative path given as its components.
pub open spec fn joined_components(p: Seq<Seq<char>>) -> Seq<char>
    decreases p.len(),
{
    if p.len() == 0 {
        Seq::empty()
    } else if p.len() == 1 {
        p[0]
    } else {
        join_spec(joined_components(p.drop_last()), p.last())
    }
}

/// Join the components of a relative path with separators.
#[verifier::loop_isolation(false)]
pub fn join_components(p: &Vec<String>) -> (r: String)
    ensures
        r@ == joined_components(p.deep_view()),
{
    let mut out = String::new();
    let mut i: usize = 0;
    while i < p.len()
        invariant
            i <= p@.len(),
            out@ == joined_components(p.deep_view().take(i as int)),
        decreases p@.len() - i,
    {
        if i == 0 {
            out = p[0].clone();
        } else {
            out.append("/");
            out.append(p[i].as_str());
        }
        proof {
            let pv = p.deep_view();
            assert(pv.take(i + 1).drop_last() =~= pv.take(i as int));
            assert(pv.take(i + 1).last() == pv[i as int]);
            if i == 0 {
                assert(pv.take(1) =~= seq![pv[0]]);
            }
        }
        i += 1;
    }
    proof {
        assert(p.deep_view().take(p@.len() as int) =~= p.deep_view());
    }
    out
}

/// Whether a template location names a remote repository: it ends in the
/// remote-repository suffix.
pub open spec fn is_remote_spec(s: Seq<char>) -> bool {
    s.len() >= 4 && s.subrange(s.len() - 4, s.len() as int) == ".git"@
}

/// Decide whether a template location is remote rather than a local path.
pub fn is_remote_location(location: &str) -> (r: bool)
    ensures
        r == is_remote_spec(location@),
{
    proof {
        reveal_strlit(".git");
    }
    let n = location.unicode_len();
    if n < 4 {
        return false;
    }
    let tail = location.substring_char(n - 4, n).to_owned();
    let suffix = ".git".to_owned();
    tail == suffix
}

/// The kebab-cased form of a name; it depends on the characters alone.
pub uninterp spec fn kebab_of(s: Seq<char>) -> Seq<char>;

/// Relies on heck's `to_kebab_case`: a pure recasing of the input string.
#[verifier::external_body]
pub(crate) fn to_kebab(s: &str) -> (r: String)
    ensures
        r@ == kebab_of(s@),
{
    heck::ToKebabCase::to_kebab_case(s)
}

/// The lower-hex digest that names a location's cache entry; it depends on
/// the location's characters alone.
pub uninterp spec fn md5_hex_of(s: Seq<char>) -> Seq<char>;

/// Relies on `md5::compute` and the lower-hex form of its digest: a pure
/// digest of the location's bytes.
#[verifier::external_body]
fn md5_hex(s: &str) -> (r: String)
    ensures
        r@ == md5_hex_of(s@),
{
    format!("{:x}", md5::compute(s.as_bytes()))
}

/// The cache directory, under `tmp_base`, where a remote template location
/// is (or would be) checked out: a deterministic digest of the location
/// string, so the same location always lands in the same place.
pub fn cache_dir(tmp_base: &str, location: &str) -> (r: String)
    ensures
        r@ == join_spec(tmp_base@, md5_hex_of(location@)),
{
    let digest = md5_hex(location);
    join_path(tmp_base, digest.as_str())
}

} // verus!
