//! Discovery of the worker binary among an ordered list of guessed paths.

use vstd::prelude::*;

verus! {

/// The directories that the candidate paths are derived from; each may be unknown.
pub struct SearchRoots {
    /// Directory of the running executable.
    pub exe_dir: Option<String>,
    /// The application's bundled-resource directory.
    pub resource_dir: Option<String>,
    /// The application's configuration root.
    pub config_dir: Option<String>,
}

/// `rel` resolved against `dir`, as a path join does for a relative `rel`.
pub open spec fn join_spec(dir: Seq<char>, rel: Seq<char>) -> Seq<char> {
    if dir.len() == 0 {
        rel
    } else if dir.last() == '/' {
        dir + rel
    } else {
        dir + "/"@ + rel
    }
}

/// Joins a relative path onto a directory.
pub fn join_path(dir: &str, rel: &str) -> (r: String)
    ensures
        r@ == join_spec(dir@, rel@),
{
    let n = dir.unicode_len();
    let mut s = String::from_str(dir);
    if n > 0 && dir.get_char(n - 1) != '/' {
        s.append("/");
    }
    s.append(rel);
    s
}

/// The architecture-generic name of the worker binary.
pub open spec fn base_name() -> Seq<char> {
    "python-sidecar"@
}

/// The architecture-specific name of the worker binary.
pub open spec fn triple_name(arch: Seq<char>) -> Seq<char> {
    "python-sidecar-"@ + arch + "-apple-darwin"@
}

/// Renders the architecture-specific name of the worker binary.
pub fn sidecar_triple_name(arch: &str) -> (r: String)
    ensures
        r@ == triple_name(arch@),
{
    let mut s = String::from_str("python-sidecar-");
    s.append(arch);
    s.append("-apple-darwin");
    s
}

/// The views of a list of strings.
pub open spec fn views(v: Seq<String>) -> Seq<Seq<char>> {
    v.map_values(|s: String| s@)
}

/// The candidate contributed by a directory that may be unknown.
pub open spec fn under(dir: Option<String>, rel: Seq<char>) -> Seq<Seq<char>> {
    match dir {
        Some(d) => seq![join_spec(d@, rel)],
        None => Seq::empty(),
    }
}

/// Every candidate path, highest priority first: beside the executable, in
/// the bundled resources, under the configuration root, then relative to the
/// working directory; each location with the architecture-specific name first.
pub open spec fn candidates_spec(roots: SearchRoots, arch: Seq<char>) -> Seq<Seq<char>> {
    let full = triple_name(arch);
    let base = base_name();
    under(roots.exe_dir, full) + under(roots.exe_dir, base) + under(roots.resource_dir, "bin/"@ + full)
        + under(roots.resource_dir, "bin/"@ + base) + under(roots.config_dir, "src-tauri/bin/"@ + full)
        + under(roots.config_dir, "src-tauri/bin/"@ + base) + seq![
        "src-tauri/bin/"@ + full,
        "src-tauri/bin/"@ + base,
        "bin/"@ + full,
        "bin/"@ + base,
    ]
}

fn push_path(v: &mut Vec<String>, p: String)
    ensures
        views(final(v)@) == views(old(v)@).push(p@),
{
    v.push(p);
    assert(views(final(v)@) =~= views(old(v)@).push(p@));
}

fn push_under(v: &mut Vec<String>, dir: &Option<String>, rel: &str)
    ensures
        views(final(v)@) == views(old(v)@) + under(*dir, rel@),
{
    match dir {
        Some(d) => {
            let p = join_path(d.as_str(), rel);
            push_path(v, p);
        },
        None => {
            assert(views(old(v)@) + under(*dir, rel@) =~= views(old(v)@));
        },
    }
}

fn prefixed(prefix: &str, name: &str) -> (r: String)
    ensures
        r@ == prefix@ + name@,
{
    let mut s = String::from_str(prefix);
    s.append(name);
    s
}

/// Builds the ordered candidate list for the worker binary.
pub fn candidate_paths(roots: &SearchRoots, arch: &str) -> (r: Vec<String>)
    ensures
        views(r@) == candidates_spec(*roots, arch@),
{
    let full = sidecar_triple_name(arch);
    let base = "python-sidecar";
    let bin_full = prefixed("bin/", full.as_str());
    let bin_base = prefixed("bin/", base);
    let dev_full = prefixed("src-tauri/bin/", full.as_str());
    let dev_base = prefixed("src-tauri/bin/", base);
    let mut v: Vec<String> = Vec::new();
    assert(views(v@) =~= Seq::<Seq<char>>::empty());
    push_under(&mut v, &roots.exe_dir, full.as_str());
    push_under(&mut v, &roots.exe_dir, base);
    push_under(&mut v, &roots.resource_dir, bin_full.as_str());
    push_under(&mut v, &roots.resource_dir, bin_base.as_str());
    push_under(&mut v, &roots.config_dir, dev_full.as_str());
    push_under(&mut v, &roots.config_dir, dev_base.as_str());
    push_path(&mut v, String::from_str(dev_full.as_str()));
    push_path(&mut v, String::from_str(dev_base.as_str()));
    push_path(&mut v, bin_full);
    push_path(&mut v, bin_base);
    assert(views(v@) =~= candidates_spec(*roots, arch@));
    v
}

/// Whether `i` is the first index at which `exists` holds.
pub open spec fn is_first_existing(exists: Seq<bool>, i: int) -> bool {
    &&& 0 <= i < exists.len()
    &&& exists[i]
    &&& forall|j: int| 0 <= j < i ==> !#[trigger] exists[j]
}

/// The first candidate that exists, given the existence of each in priority order.
pub fn first_existing(exists: &Vec<bool>) -> (r: Option<usize>)
    ensures
        match r {
            Some(i) => is_first_existing(exists@, i as int),
            None => forall|j: int| 0 <= j < exists@.len() ==> !#[trigger] exists@[j],
        },
{
    let mut i: usize = 0;
    while i < exists.len()
        invariant
            i <= exists@.len(),
            forall|j: int| 0 <= j < i ==> !#[trigger] exists@[j],
        decreases exists@.len() - i,
    {
        if exists[i] {
            return Some(i);
        }
        i = i + 1;
    }
    None
}

/// When two candidates both exist, the one of higher priority is chosen,
/// never the later one, whatever is found elsewhere.
pub proof fn earlier_candidate_wins(exists: Seq<bool>, i: int, j: int, k: int)
    requires
        0 <= i < j < exists.len(),
        exists[i],
        exists[j],
        is_first_existing(exists, k),
    ensures
        k <= i,
        k != j,
{
    if k > i {
        assert(!exists[i]);
    }
}

} // verus!
