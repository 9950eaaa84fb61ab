use crate::text::str_contains;
use crate::text::spec_contains;
use vstd::prelude::*;

verus! {

/// The path fragment that appears in the manifest directory while a package is verified
/// before publication.
pub open spec fn package_marker() -> Seq<char> {
    "target/package/"@
}

/// The marker of a workspace manifest.
pub open spec fn workspace_marker() -> Seq<char> {
    "[workspace]"@
}

/// A build runs as a publication check (docs.rs build or package verification) when the
/// `DOCS_RS` variable is set or the manifest directory lies under `target/package/`.
pub fn is_publish_verify(docs_rs_set: bool, manifest_dir: Option<&str>) -> (r: bool)
    ensures
        r == (docs_rs_set || (match manifest_dir {
            Some(dir) => spec_contains(dir@, package_marker()),
            None => false,
        })),
{
    if docs_rs_set {
        return true;
    }
    match manifest_dir {
        Some(dir) => str_contains(dir, "target/package/"),
        None => false,
    }
}

/// The manifest at this position exists, was read, and declares a workspace.
pub open spec fn is_workspace_manifest(manifest: Option<String>) -> bool {
    match manifest {
        Some(text) => spec_contains(text@, workspace_marker()),
        None => false,
    }
}

/// Picks the workspace root among the crate directory and its ancestors.
/// `manifests[k]` is the text of the `Cargo.toml` of the `k`-th directory going up from
/// the crate directory (`k = 0`), or `None` where there is none or it cannot be read.
/// The answer is the first directory whose manifest declares a workspace, and `None`
/// when no manifest does (the build script then stops with a panic).
pub fn workspace_dir_index(manifests: &Vec<Option<String>>) -> (r: Option<usize>)
    ensures
        match r {
            Some(k) => k < manifests@.len() && is_workspace_manifest(manifests@[k as int])
                && forall|j: int| 0 <= j < k ==> !#[trigger] is_workspace_manifest(manifests@[j]),
            None => forall|j: int|
                0 <= j < manifests@.len() ==> !#[trigger] is_workspace_manifest(manifests@[j]),
        },
{
    let mut i: usize = 0;
    while i < manifests.len()
        invariant
            i <= manifests@.len(),
            forall|k: int| 0 <= k < i ==> !#[trigger] is_workspace_manifest(manifests@[k]),
        decreases manifests@.len() - i,
    {
        let found = match &manifests[i] {
            Some(text) => str_contains(text.as_str(), "[workspace]"),
            None => false,
        };
        if found {
            return Some(i);
        }
        i += 1;
    }
    None
}

/// The character contents of a list of strings.
pub open spec fn path_views(s: Seq<String>) -> Seq<Seq<char>> {
    s.map_values(|x: String| x@)
}

/// A directory in which `Sparkle.framework` is looked for.
#[derive(Debug, Clone, PartialEq, Eq)]
pub enum SearchPath {
    /// The directory named by the `SPARKLE_FRAMEWORK_DIR` variable.
    EnvDir(String),
    /// The workspace root.
    Workspace,
}

/// The character contents of a search path (`None` for the workspace root).
pub open spec fn search_path_view(p: SearchPath) -> Option<Seq<char>> {
    match p {
        SearchPath::EnvDir(d) => Some(d@),
        SearchPath::Workspace => None,
    }
}

/// Where the framework is looked for, in order: the directory named by the
/// `SPARKLE_FRAMEWORK_DIR` variable when it is set and not empty, then the workspace root
/// (written `None`).
pub open spec fn spec_search_paths(env_dir: Option<Seq<char>>) -> Seq<Option<Seq<char>>> {
    match env_dir {
        Some(d) => if d.len() > 0 {
            seq![Some(d), None]
        } else {
            seq![None]
        },
        None => seq![None],
    }
}

/// The directories to search for `Sparkle.framework`, in order.
pub fn framework_search_paths(env_dir: Option<String>) -> (r: Vec<SearchPath>)
    ensures
        r@.map_values(|p: SearchPath| search_path_view(p)) == spec_search_paths(
            match env_dir {
                Some(d) => Some(d@),
                None => None,
            },
        ),
{
    let ghost env_view = match &env_dir {
        Some(d) => Some(d@),
        None => None,
    };
    let mut paths: Vec<SearchPath> = Vec::new();
    match env_dir {
        Some(d) => {
            if d.as_str().unicode_len() > 0 {
                paths.push(SearchPath::EnvDir(d));
            }
        },
        None => {},
    }
    paths.push(SearchPath::Workspace);
    assert(paths@.map_values(|p: SearchPath| search_path_view(p)) =~= spec_search_paths(env_view));
    paths
}

/// The first search directory that holds the framework: `holds_framework[k]` tells
/// whether `Sparkle.framework` exists in the `k`-th search directory. `None` when no
/// directory holds it.
pub fn select_framework_dir(holds_framework: &Vec<bool>) -> (r: Option<usize>)
    ensures
        match r {
            Some(k) => k < holds_framework@.len() && holds_framework@[k as int] && forall|j: int|
                0 <= j < k ==> !#[trigger] holds_framework@[j],
            None => forall|j: int| 0 <= j < holds_framework@.len() ==> !#[trigger] holds_framework@[j],
        },
{
    let mut i: usize = 0;
    while i < holds_framework.len()
        invariant
            i <= holds_framework@.len(),
            forall|j: int| 0 <= j < i ==> !#[trigger] holds_framework@[j],
        decreases holds_framework@.len() - i,
    {
        if holds_framework[i] {
            return Some(i);
        }
        i += 1;
    }
    None
}

/// The linker argument that adds the framework directory to the runtime search path.
pub open spec fn spec_rpath_directive(dir: Seq<char>) -> Seq<char> {
    "cargo::rustc-link-arg=-Wl,-rpath,"@ + dir
}

/// The build-script directive that embeds `framework_dir` in the runtime search path.
pub fn rpath_directive(framework_dir: &str) -> (r: String)
    ensures
        r@ == spec_rpath_directive(framework_dir@),
{
    String::from_str("cargo::rustc-link-arg=-Wl,-rpath,").concat(framework_dir)
}

/// The build-script directives that make the framework found at compile, link and run time.
pub open spec fn spec_setup_directives(dir: Seq<char>) -> Seq<Seq<char>> {
    seq![
        "cargo::rustc-env=SPARKLE_FRAMEWORK_DIR="@ + dir,
        "cargo::rustc-link-search=framework="@ + dir,
        "cargo::rustc-link-lib=framework=Sparkle"@,
        "cargo::rustc-link-lib=framework=AppKit"@,
        "cargo::rustc-link-lib=framework=Foundation"@,
        spec_rpath_directive(dir),
        "cargo::rerun-if-env-changed=SPARKLE_FRAMEWORK_DIR"@,
    ]
}

/// The directives a build script prints to link against the framework in `framework_dir`.
pub fn setup_directives(framework_dir: &str) -> (r: Vec<String>)
    ensures
        path_views(r@) == spec_setup_directives(framework_dir@),
{
    let mut v: Vec<String> = Vec::new();
    v.push(String::from_str("cargo::rustc-env=SPARKLE_FRAMEWORK_DIR=").concat(framework_dir));
    v.push(String::from_str("cargo::rustc-link-search=framework=").concat(framework_dir));
    v.push(String::from_str("cargo::rustc-link-lib=framework=Sparkle"));
    v.push(String::from_str("cargo::rustc-link-lib=framework=AppKit"));
    v.push(String::from_str("cargo::rustc-link-lib=framework=Foundation"));
    v.push(rpath_directive(framework_dir));
    v.push(String::from_str("cargo::rerun-if-env-changed=SPARKLE_FRAMEWORK_DIR"));
    assert(path_views(v@) =~= spec_setup_directives(framework_dir@));
    v
}

/// Publication checks are recognised by the directory layout alone: with `DOCS_RS` unset,
/// a manifest directory is a publication check exactly when it contains the text
/// `target/package/`, whatever comes before or after it (any crate name and version).
pub proof fn law_publish_verify_layout(root: Seq<char>, rest: Seq<char>, dir: Seq<char>)
    ensures
        spec_contains(root + "target/package/"@ + rest, package_marker()),
        !spec_contains(dir, "target/package/"@) ==> !spec_contains(dir, package_marker()),
{
    let m = "target/package/"@;
    let s = root + m + rest;
    assert(s.subrange(root.len() as int, root.len() + m.len() as int) =~= m);
    assert(package_marker() == m);
}

/// The framework directory named by the environment is searched first exactly when it is
/// non-empty, whatever its text; the workspace root is always searched, and last.
pub proof fn law_search_paths(d: Seq<char>)
    ensures
        d.len() > 0 ==> spec_search_paths(Some(d)) == seq![Some(d), None::<Seq<char>>],
        d.len() == 0 ==> spec_search_paths(Some(d)) == seq![None::<Seq<char>>],
        spec_search_paths(None) == seq![None::<Seq<char>>],
        spec_search_paths(Some(d)).contains(Some(d)) <==> d.len() > 0,
        spec_search_paths(Some(d)).last() == None::<Seq<char>>,
{
    if d.len() > 0 {
        assert(spec_search_paths(Some(d))[0] == Some(d));
    } else {
        assert(!spec_search_paths(Some(d)).contains(Some(d)));
    }
}

/// The rpath directive is the fixed linker-argument prefix followed by the directory and
/// nothing else: substituting a directory appends it to the directive for the empty one.
pub proof fn law_rpath_directive(d: Seq<char>)
    ensures
        spec_rpath_directive(Seq::<char>::empty()) == "cargo::rustc-link-arg=-Wl,-rpath,"@,
        spec_rpath_directive(d) == spec_rpath_directive(Seq::<char>::empty()) + d,
        spec_rpath_directive(d).len() == "cargo::rustc-link-arg=-Wl,-rpath,"@.len() + d.len(),
        spec_rpath_directive(d).subrange(
            spec_rpath_directive(d).len() - d.len(),
            spec_rpath_directive(d).len() as int,
        ) == d,
{
    let p = "cargo::rustc-link-arg=-Wl,-rpath,"@;
    assert(p + Seq::<char>::empty() =~= p);
    assert((p + d).subrange(p.len() as int, (p + d).len() as int) =~= d);
}

/// The setup directives are always the same seven lines, whatever the directory: the
/// lines that name the directory are the directory-free line with the directory appended,
/// the others do not depend on it, and the Sparkle, AppKit and Foundation frameworks are
/// always linked.
pub proof fn law_setup_directives(d: Seq<char>)
    ensures
        spec_setup_directives(d).len() == 7,
        spec_setup_directives(d)[0] == spec_setup_directives(Seq::<char>::empty())[0] + d,
        spec_setup_directives(d)[1] == spec_setup_directives(Seq::<char>::empty())[1] + d,
        spec_setup_directives(d)[5] == spec_setup_directives(Seq::<char>::empty())[5] + d,
        spec_setup_directives(d)[2] == spec_setup_directives(Seq::<char>::empty())[2],
        spec_setup_directives(d)[3] == spec_setup_directives(Seq::<char>::empty())[3],
        spec_setup_directives(d)[4] == spec_setup_directives(Seq::<char>::empty())[4],
        spec_setup_directives(d)[6] == spec_setup_directives(Seq::<char>::empty())[6],
        spec_setup_directives(d)[2] == "cargo::rustc-link-lib=framework=Sparkle"@,
        spec_setup_directives(d)[3] == "cargo::rustc-link-lib=framework=AppKit"@,
        spec_setup_directives(d)[4] == "cargo::rustc-link-lib=framework=Foundation"@,
        spec_setup_directives(d)[5] == spec_rpath_directive(d),
        spec_setup_directives(Seq::<char>::empty()) == seq![
            "cargo::rustc-env=SPARKLE_FRAMEWORK_DIR="@,
            "cargo::rustc-link-search=framework="@,
            "cargo::rustc-link-lib=framework=Sparkle"@,
            "cargo::rustc-link-lib=framework=AppKit"@,
            "cargo::rustc-link-lib=framework=Foundation"@,
            "cargo::rustc-link-arg=-Wl,-rpath,"@,
            "cargo::rerun-if-env-changed=SPARKLE_FRAMEWORK_DIR"@,
        ],
{
    let e = Seq::<char>::empty();
    law_rpath_directive(d);
    assert("cargo::rustc-env=SPARKLE_FRAMEWORK_DIR="@ + e =~= "cargo::rustc-env=SPARKLE_FRAMEWORK_DIR="@);
    assert("cargo::rustc-link-search=framework="@ + e =~= "cargo::rustc-link-search=framework="@);
    assert(spec_setup_directives(e) =~= seq![
        "cargo::rustc-env=SPARKLE_FRAMEWORK_DIR="@,
        "cargo::rustc-link-search=framework="@,
        "cargo::rustc-link-lib=framework=Sparkle"@,
        "cargo::rustc-link-lib=framework=AppKit"@,
        "cargo::rustc-link-lib=framework=Foundation"@,
        "cargo::rustc-link-arg=-Wl,-rpath,"@,
        "cargo::rerun-if-env-changed=SPARKLE_FRAMEWORK_DIR"@,
    ]);
}

} // verus!
