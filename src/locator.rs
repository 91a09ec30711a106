//! Choosing the resource directory among the candidate locations.
use vstd::prelude::*;
use crate::launcher::{backend_dir_name, python_dir_name};
use crate::paths::{Platform, join, joined};

verus! {

/// Name of a resource directory below an install or project directory.
pub open spec fn resources_name() -> Seq<char> {
    "resources"@
}

/// Name of the directory that marks the root of a development project.
pub open spec fn project_marker_name() -> Seq<char> {
    "src-tauri"@
}

/// What was observed on disk about one candidate resource directory.
#[derive(Clone, Copy, Debug, PartialEq, Eq, Structural)]
pub struct DirProbe {
    pub exists: bool,
    pub has_python: bool,
    pub has_backend: bool,
}

/// A candidate resource directory with what was observed about it.
#[derive(Clone, Debug)]
pub struct Candidate {
    pub path: String,
    pub probe: DirProbe,
}

/// One directory on the way up from the working directory: whether it holds
/// the project marker, and its `resources` subdirectory.
#[derive(Clone, Debug)]
pub struct AncestorProbe {
    pub has_marker: bool,
    pub resources: Candidate,
}

/// Everything the search looks at, in priority order.
/// An absent candidate is one whose location could not be determined.
#[derive(Clone, Debug)]
pub struct SearchInputs {
    /// `resources` beside the running executable.
    pub beside_executable: Option<Candidate>,
    /// The platform's packaged resource directory.
    pub packaged: Option<Candidate>,
    /// The working directory and then each of its ancestors up to the root.
    pub ancestors: Vec<AncestorProbe>,
    /// `resources` under the working directory.
    pub working_dir: Option<Candidate>,
}

pub open spec fn probe_valid(p: DirProbe) -> bool {
    p.exists && p.has_python && p.has_backend
}

pub open spec fn valid(c: Candidate) -> bool {
    probe_valid(c.probe)
}

pub open spec fn opt_valid(c: Option<Candidate>) -> bool {
    c is Some && valid(c->0)
}

pub open spec fn opt_seq(c: Option<Candidate>) -> Seq<Candidate> {
    match c {
        Some(x) => seq![x],
        None => Seq::empty(),
    }
}

/// `i` is the first ancestor that holds the project marker.
pub open spec fn is_first_marker(a: Seq<AncestorProbe>, i: int) -> bool {
    0 <= i < a.len() && a[i].has_marker && forall|j: int| 0 <= j < i ==> !(#[trigger] a[j]).has_marker
}

pub open spec fn has_marker(a: Seq<AncestorProbe>) -> bool {
    exists|i: int| is_first_marker(a, i)
}

/// The project candidate: `resources` of the nearest ancestor with the marker.
pub open spec fn project_candidate(a: Seq<AncestorProbe>) -> Option<Candidate> {
    if has_marker(a) {
        Some(a[choose|i: int| is_first_marker(a, i)].resources)
    } else {
        None
    }
}

/// The candidates in the order in which they are tried.
pub open spec fn search_order(inp: SearchInputs) -> Seq<Candidate> {
    opt_seq(inp.beside_executable) + opt_seq(inp.packaged) + opt_seq(project_candidate(inp.ancestors@))
        + opt_seq(inp.working_dir)
}

/// Index in `search_order` of the candidate that the search returns.
/// The first valid candidate wins, except that the project candidate is taken
/// even when invalid. With nothing valid the best guess is returned: the
/// packaged directory, else the working-directory candidate, else the one
/// beside the executable. There is no result only when there is no candidate.
pub open spec fn chosen(inp: SearchInputs) -> Option<int> {
    let nb = opt_seq(inp.beside_executable).len() as int;
    let np = opt_seq(inp.packaged).len() as int;
    let nm = opt_seq(project_candidate(inp.ancestors@)).len() as int;
    if opt_valid(inp.beside_executable) {
        Some(0)
    } else if opt_valid(inp.packaged) {
        Some(nb)
    } else if project_candidate(inp.ancestors@) is Some {
        Some(nb + np)
    } else if opt_valid(inp.working_dir) {
        Some(nb + np + nm)
    } else if inp.packaged is Some {
        Some(nb)
    } else if inp.working_dir is Some {
        Some(nb + np + nm)
    } else if inp.beside_executable is Some {
        Some(0)
    } else {
        None
    }
}

/// Path of the chosen candidate.
pub open spec fn located(inp: SearchInputs) -> Option<Seq<char>> {
    match chosen(inp) {
        Some(k) => Some(search_order(inp)[k].path@),
        None => None,
    }
}

/// A resource directory is valid when it exists and holds both the
/// interpreter directory and the backend directory.
pub fn is_valid_resource_dir(probe: &DirProbe) -> (r: bool)
    ensures
        r == probe_valid(*probe),
{
    probe.exists && probe.has_python && probe.has_backend
}

/// The `resources` subdirectory of `dir`: where a resource directory is looked for.
pub fn resources_path(platform: Platform, dir: &str) -> (r: String)
    ensures
        r@ == joined(platform, dir@, resources_name()),
{
    join(platform, dir, "resources")
}

/// The directory whose presence marks `dir` as the root of a development project.
pub fn project_marker_path(platform: Platform, dir: &str) -> (r: String)
    ensures
        r@ == joined(platform, dir@, project_marker_name()),
{
    join(platform, dir, "src-tauri")
}

/// The interpreter directory of the resource directory `dir`.
pub fn python_dir_path(platform: Platform, dir: &str) -> (r: String)
    ensures
        r@ == joined(platform, dir@, python_dir_name()),
{
    join(platform, dir, "python")
}

/// The backend directory of the resource directory `dir`.
pub fn backend_dir_path(platform: Platform, dir: &str) -> (r: String)
    ensures
        r@ == joined(platform, dir@, backend_dir_name()),
{
    join(platform, dir, "backend")
}

fn first_marker(a: &Vec<AncestorProbe>) -> (r: Option<usize>)
    ensures
        match r {
            Some(i) => is_first_marker(a@, i as int),
            None => !has_marker(a@),
        },
{
    let mut i: usize = 0;
    while i < a.len()
        invariant
            i <= a.len(),
            forall|j: int| 0 <= j < i ==> !(#[trigger] a@[j]).has_marker,
        decreases a.len() - i,
    {
        if a[i].has_marker {
            return Some(i);
        }
        i = i + 1;
    }
    proof {
        assert forall|k: int| !is_first_marker(a@, k) by {
            if 0 <= k < a@.len() {
                assert(!a@[k].has_marker);
            }
        }
    }
    None
}

proof fn lemma_first_marker_unique(a: Seq<AncestorProbe>, i: int)
    requires
        is_first_marker(a, i),
    ensures
        has_marker(a),
        project_candidate(a) == Some(a[i].resources),
{
    let k = choose|k: int| is_first_marker(a, k);
    assert(is_first_marker(a, k));
    if k < i {
        assert(!a[k].has_marker);
    } else if i < k {
        assert(!a[i].has_marker);
    }
}

/// Picks the resource directory from the observed candidates.
/// Never fails while there is a candidate at all: a best guess that may not
/// be valid is returned then, so that the launch reports what is missing.
pub fn locate(inp: &SearchInputs) -> (r: Option<String>)
    ensures
        search_order(*inp).len() > 0 ==> r is Some,
        match located(*inp) {
            Some(p) => r is Some && r->0@ == p,
            None => r is None,
        },
{
    let ghost order = search_order(*inp);
    let ghost nb = opt_seq(inp.beside_executable).len() as int;
    let ghost np = opt_seq(inp.packaged).len() as int;
    if let Some(c) = &inp.beside_executable {
        if is_valid_resource_dir(&c.probe) {
            assert(order[0] == *c);
            return Some(c.path.clone());
        }
    }
    if let Some(c) = &inp.packaged {
        if is_valid_resource_dir(&c.probe) {
            assert(order[nb] == *c);
            return Some(c.path.clone());
        }
    }
    match first_marker(&inp.ancestors) {
        Some(i) => {
            proof {
                lemma_first_marker_unique(inp.ancestors@, i as int);
                assert(order[nb + np] == inp.ancestors@[i as int].resources);
            }
            return Some(inp.ancestors[i].resources.path.clone());
        },
        None => {},
    }
    if let Some(c) = &inp.working_dir {
        if is_valid_resource_dir(&c.probe) {
            assert(order[nb + np] == *c);
            return Some(c.path.clone());
        }
    }
    if let Some(c) = &inp.packaged {
        assert(order[nb] == *c);
        return Some(c.path.clone());
    }
    if let Some(c) = &inp.working_dir {
        assert(order[nb + np] == *c);
        return Some(c.path.clone());
    }
    match &inp.beside_executable {
        Some(c) => {
            assert(order[0] == *c);
            Some(c.path.clone())
        },
        None => {
            assert(order.len() == 0);
            None
        },
    }
}

/// The search never returns an invalid candidate while a valid one comes later
/// in the search order. The one input left out is an invalid project candidate
/// followed by a valid working-directory candidate: the project candidate is
/// returned whether or not it is valid.
pub proof fn lemma_valid_candidate_not_passed_over(inp: SearchInputs, j: int, k: int)
    requires
        0 <= j < k < search_order(inp).len(),
        !valid(search_order(inp)[j]),
        valid(search_order(inp)[k]),
        !(project_candidate(inp.ancestors@) is Some && !valid(project_candidate(inp.ancestors@)->0)
            && opt_valid(inp.working_dir)),
    ensures
        chosen(inp) != Some(j),
{
    let order = search_order(inp);
    let a = opt_seq(inp.beside_executable);
    let b = opt_seq(inp.packaged);
    let c = opt_seq(project_candidate(inp.ancestors@));
    let d = opt_seq(inp.working_dir);
    assert(order == a + b + c + d);
    if k < a.len() {
        assert(order[k] == a[k]);
    } else if k < a.len() + b.len() {
        assert(order[k] == b[k - a.len()]);
    } else if k < a.len() + b.len() + c.len() {
        assert(order[k] == c[k - a.len() - b.len()]);
    } else {
        assert(order[k] == d[k - a.len() - b.len() - c.len()]);
    }
    if j < a.len() {
        assert(order[j] == a[j]);
    } else if j < a.len() + b.len() {
        assert(order[j] == b[j - a.len()]);
    } else if j < a.len() + b.len() + c.len() {
        assert(order[j] == c[j - a.len() - b.len()]);
    }
}

} // verus!
