//! Where the external executables are looked for: an ordered list of
//! candidate paths, the first that exists winning.
use vstd::prelude::*;
use crate::text::{join_path, joined_path, trim, trimmed};

verus! {

/// What the search for an executable starts from.
#[derive(Clone, Debug)]
pub struct ToolSearch {
    /// The path an environment variable names, if set.
    pub env_override: Option<String>,
    /// The project's root directory, if known.
    pub project_root: Option<String>,
    /// The directory of this package's sources.
    pub crate_dir: String,
    /// The directory above the running executable's, in a packaged build.
    pub bundle_root: Option<String>,
}

/// The paths of an optional value: none or one.
pub open spec fn optional_path(o: Option<String>) -> Seq<Seq<char>> {
    match o {
        Some(p) => seq![p@],
        None => Seq::<Seq<char>>::empty(),
    }
}

/// The views of a list of paths.
pub open spec fn path_views(v: Seq<String>) -> Seq<Seq<char>> {
    v.map_values(|s: String| s@)
}

/// Where the gesture tool is looked for, in order: the override; the
/// project's `app/binaries/axe` and this package's `binaries/axe` (when the
/// project root is known); the packaged `Resources/binaries/axe`.
pub open spec fn gesture_tool_paths(s: ToolSearch) -> Seq<Seq<char>> {
    optional_path(s.env_override) + match s.project_root {
        Some(root) => seq![
            joined_path(root@, "app/binaries/axe"@),
            joined_path(s.crate_dir@, "binaries/axe"@),
        ],
        None => Seq::<Seq<char>>::empty(),
    } + match s.bundle_root {
        Some(b) => seq![joined_path(b@, "Resources/binaries/axe"@)],
        None => Seq::<Seq<char>>::empty(),
    }
}

/// Where the mirroring executable is looked for, in order: the override;
/// the project's debug and release builds; the packaged
/// `Resources/binaries/simulator-server`.
pub open spec fn mirror_tool_paths(s: ToolSearch) -> Seq<Seq<char>> {
    optional_path(s.env_override) + match s.project_root {
        Some(root) => seq![
            joined_path(root@, "swift/.build/debug/simulator-server"@),
            joined_path(root@, "swift/.build/release/simulator-server"@),
        ],
        None => Seq::<Seq<char>>::empty(),
    } + match s.bundle_root {
        Some(b) => seq![joined_path(b@, "Resources/binaries/simulator-server"@)],
        None => Seq::<Seq<char>>::empty(),
    }
}

fn push_path(v: &mut Vec<String>, p: String)
    ensures
        path_views(final(v)@) == path_views(old(v)@).push(p@),
{
    let ghost v0 = v@;
    v.push(p);
    assert(path_views(v@) =~= path_views(v0).push(p@));
}

/// The candidates of a search: the override, then two paths under the
/// project root, then one under the bundle root.
fn candidates(s: &ToolSearch, in_root_a: &str, in_root_b_base_is_crate: bool, in_root_b: &str, in_bundle: &str) -> (r: Vec<String>)
    ensures
        path_views(r@) == optional_path(s.env_override) + match s.project_root {
            Some(root) => seq![
                joined_path(root@, in_root_a@),
                joined_path(if in_root_b_base_is_crate { s.crate_dir@ } else { root@ }, in_root_b@),
            ],
            None => Seq::<Seq<char>>::empty(),
        } + match s.bundle_root {
            Some(b) => seq![joined_path(b@, in_bundle@)],
            None => Seq::<Seq<char>>::empty(),
        },
{
    let mut v: Vec<String> = Vec::new();
    assert(path_views(v@) =~= Seq::<Seq<char>>::empty());
    match &s.env_override {
        Some(p) => push_path(&mut v, p.clone()),
        None => {},
    }
    assert(path_views(v@) =~= optional_path(s.env_override));
    let ghost after_env = path_views(v@);
    match &s.project_root {
        Some(root) => {
            push_path(&mut v, join_path(root.as_str(), in_root_a));
            let base = if in_root_b_base_is_crate { s.crate_dir.as_str() } else { root.as_str() };
            push_path(&mut v, join_path(base, in_root_b));
        },
        None => {},
    }
    let ghost after_root = path_views(v@);
    match &s.bundle_root {
        Some(b) => push_path(&mut v, join_path(b.as_str(), in_bundle)),
        None => {},
    }
    proof {
        let mid = match &s.project_root {
            Some(root) => seq![
                joined_path(root@, in_root_a@),
                joined_path(if in_root_b_base_is_crate { s.crate_dir@ } else { root@ }, in_root_b@),
            ],
            None => Seq::<Seq<char>>::empty(),
        };
        let tail = match &s.bundle_root {
            Some(b) => seq![joined_path(b@, in_bundle@)],
            None => Seq::<Seq<char>>::empty(),
        };
        assert(after_root =~= after_env + mid);
        assert(path_views(v@) =~= after_env + mid + tail);
    }
    v
}

/// Where the gesture tool is looked for, in order.
pub fn gesture_tool_candidates(s: &ToolSearch) -> (r: Vec<String>)
    ensures
        path_views(r@) == gesture_tool_paths(*s),
{
    candidates(s, "app/binaries/axe", true, "binaries/axe", "Resources/binaries/axe")
}

/// Where the mirroring executable is looked for, in order.
pub fn mirror_tool_candidates(s: &ToolSearch) -> (r: Vec<String>)
    ensures
        path_views(r@) == mirror_tool_paths(*s),
{
    candidates(
        s,
        "swift/.build/debug/simulator-server",
        false,
        "swift/.build/release/simulator-server",
        "Resources/binaries/simulator-server",
    )
}

/// The first candidate that exists, `exists[i]` telling whether the `i`-th
/// does.
pub fn first_existing(exists: &Vec<bool>) -> (r: Option<usize>)
    ensures
        match r {
            Some(i) => i < exists@.len() && exists@[i as int] && forall|j: int| 0 <= j < i ==> !exists@[j],
            None => forall|j: int| 0 <= j < exists@.len() ==> !exists@[j],
        },
{
    let mut i: usize = 0;
    while i < exists.len()
        invariant
            i <= exists@.len(),
            forall|j: int| 0 <= j < i ==> !exists@[j],
        decreases exists@.len() - i,
    {
        if exists[i] {
            return Some(i);
        }
        i = i + 1;
    }
    None
}

/// The path a successful `PATH` lookup printed: its output trimmed, when
/// not empty.
pub fn lookup_result(succeeded: bool, output: &str) -> (r: Option<String>)
    ensures
        succeeded && trimmed(output@).len() > 0 ==> (r matches Some(p) && p@ == trimmed(output@)),
        !(succeeded && trimmed(output@).len() > 0) ==> r is None,
{
    if !succeeded {
        return None;
    }
    let t = trim(output);
    if t.unicode_len() == 0 {
        None
    } else {
        Some(String::from_str(t))
    }
}

} // verus!
