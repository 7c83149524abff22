use vstd::prelude::*;

verus! {

/// What `std::path::Path::parent` gives for a path: the path without its
/// final component, or nothing for a root, a prefix or the empty path.
pub uninterp spec fn path_parent(p: Seq<char>) -> Option<Seq<char>>;

/// What the last item of `std::path::Path::iter` is for a path, as text: the
/// final component (`/` for the root), or nothing for the empty path.
pub uninterp spec fn path_last_component(p: Seq<char>) -> Option<Seq<char>>;

/// What `std::path::Path::file_name` gives for a path, as text: the final
/// component when it is a normal name, nothing otherwise.
pub uninterp spec fn path_file_name(p: Seq<char>) -> Option<Seq<char>>;

/// What `std::path::Path::extension` gives for a path, as text: the part of
/// the file name after its last `.`, or nothing.
pub uninterp spec fn path_extension(p: Seq<char>) -> Option<Seq<char>>;

/// Calls `std::path::Path::extension`; the contract names the result.
#[verifier::external_body]
pub fn extension(p: &str) -> (r: Option<String>)
    ensures
        match r {
            Some(c) => path_extension(p@) == Some(c@),
            None => path_extension(p@) is None,
        },
{
    std::path::Path::new(p).extension().map(|c| c.to_string_lossy().into_owned())
}

/// Calls `std::path::Path::parent`. The contract names its result and states
/// one fact of it: a parent is the path without its final component, so it is
/// shorter than the path.
#[verifier::external_body]
pub fn parent(p: &str) -> (r: Option<String>)
    ensures
        match r {
            Some(q) => path_parent(p@) == Some(q@) && q@.len() < p@.len(),
            None => path_parent(p@) is None,
        },
{
    std::path::Path::new(p).parent().map(|q| q.to_string_lossy().into_owned())
}

/// Calls `std::path::Path::iter` and takes its last item; the contract
/// names the result.
#[verifier::external_body]
pub fn last_component(p: &str) -> (r: Option<String>)
    ensures
        match r {
            Some(c) => path_last_component(p@) == Some(c@),
            None => path_last_component(p@) is None,
        },
{
    std::path::Path::new(p).iter().last().map(|c| c.to_string_lossy().into_owned())
}

/// Calls `std::path::Path::file_name`; the contract names the result.
#[verifier::external_body]
pub fn file_name(p: &str) -> (r: Option<String>)
    ensures
        match r {
            Some(c) => path_file_name(p@) == Some(c@),
            None => path_file_name(p@) is None,
        },
{
    std::path::Path::new(p).file_name().map(|c| c.to_string_lossy().into_owned())
}

/// The path and its ancestors, from the path itself to the last one that has
/// no parent (what `std::path::Path::ancestors` lists).
pub open spec fn ancestors(p: Seq<char>) -> Seq<Seq<char>>
    decreases p.len(),
{
    match path_parent(p) {
        Some(q) => if q.len() < p.len() {
            seq![p] + ancestors(q)
        } else {
            seq![p]
        },
        None => seq![p],
    }
}

/// Whether every ancestor of the path has a last component, so that a trail
/// of names can be made of them.
pub open spec fn trail_defined(p: Seq<char>) -> bool {
    forall|i: int|
        0 <= i < ancestors(p).len() ==> (#[trigger] path_last_component(ancestors(p)[i])) is Some
}

/// The trail of a path: its ancestors from the outermost to the path itself,
/// each with its last component as its name.
pub open spec fn trail(p: Seq<char>) -> Seq<(Seq<char>, Seq<char>)> {
    let a = ancestors(p);
    Seq::new(
        a.len(),
        |i: int| (path_last_component(a[a.len() - 1 - i])->0, a[a.len() - 1 - i]),
    )
}

/// The texts of a list of (name, path) pairs.
pub open spec fn pairs_view(v: Seq<(String, String)>) -> Seq<(Seq<char>, Seq<char>)> {
    v.map_values(|e: (String, String)| (e.0@, e.1@))
}

/// The ancestors of a path are never empty, start with the path itself and end
/// with one that has no parent.
pub proof fn lemma_ancestors_shape(p: Seq<char>)
    ensures
        ancestors(p).len() >= 1,
        ancestors(p)[0] == p,
    decreases p.len(),
{
}

/// The trail of a path ends with the path itself.
pub proof fn law_trail_ends_with_path(p: Seq<char>)
    ensures
        trail(p).len() >= 1,
        trail(p)[trail(p).len() - 1].1 == p,
{
    lemma_ancestors_shape(p);
}

/// The ancestors of an ancestor of a path are the rest of the path's own.
pub proof fn lemma_ancestors_suffix(p: Seq<char>, k: int)
    requires
        0 <= k < ancestors(p).len(),
    ensures
        ancestors(ancestors(p)[k]) =~= ancestors(p).skip(k),
    decreases p.len(),
{
    lemma_ancestors_shape(p);
    if k > 0 {
        let q = path_parent(p)->0;
        assert(path_parent(p) is Some && q.len() < p.len());
        assert(ancestors(p) == seq![p] + ancestors(q));
        lemma_ancestors_suffix(q, k - 1);
        assert(ancestors(p)[k] == ancestors(q)[k - 1]);
        assert(ancestors(p).skip(k) =~= ancestors(q).skip(k - 1));
    }
}

/// Every path of a trail has a trail of its own.
pub proof fn lemma_trail_paths_defined(p: Seq<char>)
    requires
        trail_defined(p),
    ensures
        forall|i: int| 0 <= i < trail(p).len() ==> trail_defined(#[trigger] trail(p)[i].1),
{
    let a = ancestors(p);
    assert forall|i: int| 0 <= i < trail(p).len() implies trail_defined(#[trigger] trail(p)[i].1) by {
        let k = a.len() - 1 - i;
        lemma_ancestors_suffix(p, k);
        assert(trail(p)[i].1 == a[k]);
        assert forall|j: int| 0 <= j < ancestors(a[k]).len() implies (#[trigger] path_last_component(
            ancestors(a[k])[j],
        )) is Some by {
            assert(ancestors(a[k])[j] == a[k + j]);
        }
    }
}

/// The trail of a path, or nothing when an ancestor has no last component
/// (only an empty ancestor has none, which a relative path reaches).
pub fn breadcrumb_trail(path: &str) -> (r: Option<Vec<(String, String)>>)
    ensures
        r is Some <==> trail_defined(path@),
        r matches Some(v) ==> pairs_view(v@) == trail(path@),
{
    let mut anc: Vec<(String, String)> = Vec::new();
    let mut cur: String = path.to_owned();
    loop
        invariant_except_break
            ancestors(path@) =~= pairs_view(anc@).map_values(|e: (Seq<char>, Seq<char>)| e.1)
                + ancestors(cur@),
        invariant
            forall|j: int|
                0 <= j < anc@.len() ==> path_last_component(#[trigger] anc@[j].1@) == Some(
                    anc@[j].0@,
                ),
        ensures
            ancestors(path@) =~= pairs_view(anc@).map_values(|e: (Seq<char>, Seq<char>)| e.1),
        decreases cur@.len(),
    {
        let ghost before = pairs_view(anc@).map_values(|e: (Seq<char>, Seq<char>)| e.1);
        let name = last_component(cur.as_str());
        match name {
            None => {
                proof {
                    lemma_ancestors_shape(cur@);
                    assert(ancestors(path@)[before.len() as int] == cur@);
                }
                return None;
            },
            Some(name) => {
                anc.push((name, cur.clone()));
            },
        }
        let ghost after = pairs_view(anc@).map_values(|e: (Seq<char>, Seq<char>)| e.1);
        assert(after =~= before.push(cur@));
        match parent(cur.as_str()) {
            Some(q) => {
                assert(ancestors(cur@) == seq![cur@] + ancestors(q@));
                cur = q;
            },
            None => {
                assert(ancestors(cur@) == seq![cur@]);
                break ;
            },
        }
    }
    let ghost a = ancestors(path@);
    assert(a =~= pairs_view(anc@).map_values(|e: (Seq<char>, Seq<char>)| e.1));
    let n = anc.len();
    let mut out: Vec<(String, String)> = Vec::new();
    let mut i: usize = n;
    while i > 0
        invariant
            n == anc@.len(),
            a.len() == n,
            i <= n,
            out@.len() == n - i,
            forall|j: int| 0 <= j < n ==> #[trigger] a[j] == anc@[j].1@,
            forall|j: int|
                0 <= j < n ==> path_last_component(#[trigger] anc@[j].1@) == Some(anc@[j].0@),
            forall|j: int|
                0 <= j < n - i ==> (#[trigger] out@[j]).0@ == anc@[n - 1 - j].0@ && out@[j].1@
                    == anc@[n - 1 - j].1@,
        decreases i,
    {
        i = i - 1;
        let (name, p) = (anc[i].0.clone(), anc[i].1.clone());
        out.push((name, p));
    }
    proof {
        assert forall|j: int| 0 <= j < a.len() implies (#[trigger] path_last_component(
            a[j],
        )) is Some by {
            assert(a[j] == anc@[j].1@);
        }
        assert(pairs_view(out@) =~= trail(path@));
    }
    Some(out)
}

/// Whether `path` has a trail (see `trail_defined`).
pub fn trail_is_defined(path: &String) -> (r: bool)
    ensures
        r == trail_defined(path@),
{
    breadcrumb_trail(path.as_str()).is_some()
}

} // verus!
