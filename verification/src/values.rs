//! Parameter values and the resolved-parameter map.
//!
//! A parameter value is a closed tagged union: string, 64-bit signed
//! integer, boolean, a floating-point number carried as its decimal text,
//! or an array of strings (the result of a multi-select). The resolved
//! parameters are an insertion-ordered map with unique keys, built once per
//! run and then sealed: a sealed map can no longer change, and only a sealed
//! map is handed to the renderer.

use vstd::prelude::*;

verus! {

/// A dynamically-typed parameter value.
///
/// A float is carried as the decimal text the caller formatted, so that the
/// engine itself never computes with floating point; the renderer receives
/// it as text.
#[derive(Debug, Clone)]
pub enum ParamValue {
    Str(String),
    Int(i64),
    Bool(bool),
    Float(String),
    List(Vec<String>),
}

/// The mathematical shape of a parameter value.
pub enum ParamView {
    Str(Seq<char>),
    Int(int),
    Bool(bool),
    Float(Seq<char>),
    List(Seq<Seq<char>>),
}

impl View for ParamValue {
    type V = ParamView;

    open spec fn view(&self) -> ParamView {
        match self {
            ParamValue::Str(s) => ParamView::Str(s@),
            ParamValue::Int(i) => ParamView::Int(*i as int),
            ParamValue::Bool(b) => ParamView::Bool(*b),
            ParamValue::Float(s) => ParamView::Float(s@),
            ParamValue::List(v) => ParamView::List(v.deep_view()),
        }
    }
}

impl DeepView for ParamValue {
    type V = ParamView;

    open spec fn deep_view(&self) -> ParamView {
        self.view()
    }
}

/// The map that a sequence of (key, value) pairs denotes: a later pair with
/// the same key wins.
pub open spec fn map_of(s: Seq<(Seq<char>, ParamView)>) -> Map<Seq<char>, ParamView>
    decreases s.len(),
{
    if s.len() == 0 {
        Map::empty()
    } else {
        map_of(s.drop_last()).insert(s.last().0, s.last().1)
    }
}

/// No two pairs of the sequence carry the same key.
pub open spec fn keys_unique(s: Seq<(Seq<char>, ParamView)>) -> bool {
    forall|i: int, j: int| 0 <= i < j < s.len() ==> s[i].0 != s[j].0
}

/// A key is in the denoted map exactly when some pair of the sequence
/// carries it.
pub proof fn lemma_map_of_contains(s: Seq<(Seq<char>, ParamView)>, k: Seq<char>)
    ensures
        map_of(s).contains_key(k) <==> exists|i: int| 0 <= i < s.len() && s[i].0 == k,
    decreases s.len(),
{
    if s.len() > 0 {
        lemma_map_of_contains(s.drop_last(), k);
        if s.last().0 == k {
            assert(s[s.len() - 1].0 == k);
        } else if map_of(s).contains_key(k) {
            let i = choose|i: int| 0 <= i < s.drop_last().len() && s.drop_last()[i].0 == k;
            assert(s[i].0 == k);
        } else {
            assert forall|i: int| 0 <= i < s.len() implies s[i].0 != k by {
                if i < s.len() - 1 {
                    assert(s.drop_last()[i].0 == s[i].0);
                }
            }
        }
    }
}

/// With unique keys, the denoted map sends each pair's key to that pair's
/// value.
pub proof fn lemma_map_of_index(s: Seq<(Seq<char>, ParamView)>, i: int)
    requires
        keys_unique(s),
        0 <= i < s.len(),
    ensures
        map_of(s).contains_key(s[i].0),
        map_of(s)[s[i].0] == s[i].1,
    decreases s.len(),
{
    if i == s.len() - 1 {
    } else {
        assert(keys_unique(s.drop_last()));
        assert(s.drop_last()[i] == s[i]);
        lemma_map_of_index(s.drop_last(), i);
        assert(s[i].0 != s[s.len() - 1].0);
    }
}

/// The resolved parameters: an insertion-ordered mapping from parameter
/// name to value, with the engine-injected names added last, sealed before
/// any rendering.
pub struct ParamMap {
    pub(crate) entries: Vec<(String, ParamValue)>,
    pub(crate) sealed: bool,
}

impl ParamMap {
    /// The pairs the map holds, in insertion order.
    pub closed spec fn entries_view(&self) -> Seq<(Seq<char>, ParamView)> {
        self.entries@.map_values(|e: (String, ParamValue)| (e.0@, e.1@))
    }

    /// The map is well formed: no key occurs twice.
    pub closed spec fn wf(&self) -> bool {
        keys_unique(self.entries_view())
    }

    /// Whether the map has been sealed against further change.
    pub closed spec fn is_sealed(&self) -> bool {
        self.sealed
    }

    /// Whether the map has been sealed; a caller tests this before asking
    /// for any rendering.
    pub fn sealed(&self) -> (r: bool)
        ensures
            r == self.is_sealed(),
    {
        self.sealed
    }

    /// How many parameters the map holds.
    pub fn len(&self) -> (n: usize)
        ensures
            n == self.entries_view().len(),
    {
        self.entries.len()
    }

    /// An empty, unsealed map.
    pub fn new() -> (r: ParamMap)
        ensures
            r@ == Map::<Seq<char>, ParamView>::empty(),
            r.wf(),
            !r.is_sealed(),
            r.entries_view().len() == 0,
    {
        let r = ParamMap { entries: Vec::new(), sealed: false };
        proof {
            assert(r.entries_view() =~= Seq::<(Seq<char>, ParamView)>::empty());
        }
        r
    }

    /// Set `key` to `value`: an existing entry with that key is replaced
    /// (and moves to the end of the display order), a new key is appended.
    #[verifier::loop_isolation(false)]
    pub fn set(&mut self, key: String, value: ParamValue)
        requires
            old(self).wf(),
            !old(self).is_sealed(),
        ensures
            final(self).wf(),
            !final(self).is_sealed(),
            final(self)@ == old(self)@.insert(key@, value@),
            final(self).entries_view().len() <= old(self).entries_view().len() + 1,
            final(self).entries_view().last() == (key@, value@),
    {
        let ghost old_entries = self.entries_view();
        let mut i: usize = 0;
        let n = self.entries.len();
        while i < n
            invariant
                n == self.entries@.len(),
                i <= n,
                forall|j: int| 0 <= j < i ==> self.entries_view()[j].0 != key@,
                self.entries_view() == old_entries,
                self.entries == old(self).entries,
                self.sealed == old(self).sealed,
            decreases n - i,
        {
            if self.entries[i].0 == key {
                proof {
                    lemma_set_replace(old_entries, i as int, key@, value@);
                }
                self.entries.remove(i);
                self.entries.push((key, value));
                proof {
                    assert(self.entries_view() =~= old_entries.remove(i as int).push(
                        (key@, value@),
                    ));
                }
                return ;
            }
            i += 1;
        }
        self.entries.push((key, value));
        proof {
            assert(self.entries_view() =~= old_entries.push((key@, value@)));
            assert(self.entries_view().drop_last() =~= old_entries);
        }
    }

    /// Seal the map: its contents are frozen from here on.
    pub fn seal(&mut self)
        requires
            old(self).wf(),
        ensures
            final(self).wf(),
            final(self).is_sealed(),
            final(self)@ == old(self)@,
            final(self).entries_view() == old(self).entries_view(),
    {
        self.sealed = true;
    }

    /// Look a parameter up by name.
    #[verifier::loop_isolation(false)]
    pub fn get(&self, key: &String) -> (r: Option<&ParamValue>)
        requires
            self.wf(),
        ensures
            r is Some <==> self@.contains_key(key@),
            r is Some ==> r->0@ == self@[key@],
    {
        proof {
            lemma_map_of_contains(self.entries_view(), key@);
        }
        let n = self.entries.len();
        let mut i: usize = 0;
        while i < n
            invariant
                n == self.entries@.len(),
                i <= n,
                self.wf(),
                forall|j: int| 0 <= j < i ==> self.entries_view()[j].0 != key@,
            decreases n - i,
        {
            if self.entries[i].0 == *key {
                proof {
                    lemma_map_of_index(self.entries_view(), i as int);
                }
                return Some(&self.entries[i].1);
            }
            i += 1;
        }
        None
    }
}

impl View for ParamMap {
    type V = Map<Seq<char>, ParamView>;

    closed spec fn view(&self) -> Map<Seq<char>, ParamView> {
        map_of(self.entries_view())
    }
}

/// Replacing the one pair that carries `k` (dropping it and appending a
/// fresh pair at the end) denotes insertion into the denoted map, and keeps
/// the keys unique.
proof fn lemma_set_replace(s: Seq<(Seq<char>, ParamView)>, i: int, k: Seq<char>, v: ParamView)
    requires
        keys_unique(s),
        0 <= i < s.len(),
        s[i].0 == k,
    ensures
        keys_unique(s.remove(i).push((k, v))),
        map_of(s.remove(i).push((k, v))) == map_of(s).insert(k, v),
{
    let removed = s.remove(i);
    let result = removed.push((k, v));
    assert forall|p: int, q: int| 0 <= p < q < result.len() implies result[p].0 != result[q].0 by {
        if q < result.len() - 1 {
            let p0: int = if p < i { p } else { p + 1 };
            let q0: int = if q < i { q } else { q + 1 };
            assert(result[p] == s[p0] && result[q] == s[q0]);
        } else {
            let p0: int = if p < i { p } else { p + 1 };
            assert(result[p] == s[p0]);
            assert(p0 != i);
            assert(s[p0].0 != s[i].0);
        }
    }
    assert(result.drop_last() =~= removed);
    assert(map_of(result) == map_of(removed).insert(k, v));
    assert(keys_unique(removed));
    lemma_map_of_contains(s, k);
    assert forall|x: Seq<char>| true implies #[trigger] map_of(result).contains_key(x)
        == map_of(s).insert(k, v).contains_key(x) && (map_of(result).contains_key(x)
        ==> map_of(result)[x] == map_of(s).insert(k, v)[x]) by {
        if x == k {
        } else {
            lemma_map_of_contains(removed, x);
            lemma_map_of_contains(s, x);
            if map_of(removed).contains_key(x) {
                let j = choose|j: int| 0 <= j < removed.len() && removed[j].0 == x;
                let j0: int = if j < i { j } else { j + 1 };
                assert(removed[j] == s[j0]);
                lemma_map_of_index(removed, j);
                lemma_map_of_index(s, j0);
            } else if map_of(s).contains_key(x) {
                let j0 = choose|j0: int| 0 <= j0 < s.len() && s[j0].0 == x;
                let j: int = if j0 < i { j0 } else { j0 - 1 };
                assert(j0 != i);
                assert(removed[j] == s[j0]);
            }
        }
    }
    assert(map_of(result) =~= map_of(s).insert(k, v));
}

} // verus!
