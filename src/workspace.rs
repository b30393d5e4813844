//! Workspace resolution: the root path, the candidate roots that manifest
//! discovery runs over, and the linked projects assembled from its results.
use vstd::prelude::*;
use crate::text::{is_rooted, rooted, str_eq};

verus! {

/// A reference to a project manifest location that the server will load.
pub struct LinkedProject {
    pub manifest: String,
}

/// A manifest probe that failed under one candidate root.
#[derive(Clone, Copy, Debug, PartialEq, Eq, Structural)]
pub enum DiscoveryError {
    Unreadable,
    Malformed,
}

/// What discovery returned for one candidate root.
pub type RootDiscovery = Result<Vec<String>, DiscoveryError>;

/// The root path chosen from a converted root location and the working directory.
pub open spec fn root_choice(converted: Option<String>, cwd: Seq<char>) -> Seq<char> {
    match converted {
        Some(p) => if is_rooted(p@) { p@ } else { cwd },
        None => cwd,
    }
}

/// The folder paths that converted to absolute paths, in their order.
pub open spec fn kept_roots(conv: Seq<Option<String>>) -> Seq<Seq<char>>
    decreases conv.len(),
{
    if conv.len() == 0 {
        Seq::empty()
    } else {
        let rest = kept_roots(conv.drop_last());
        match conv.last() {
            Some(p) => if is_rooted(p@) { rest.push(p@) } else { rest },
            None => rest,
        }
    }
}

/// The candidate roots for discovery: the kept folders, or else the root path alone.
pub open spec fn candidates(conv: Seq<Option<String>>, root: Seq<char>) -> Seq<Seq<char>> {
    if kept_roots(conv).len() == 0 {
        seq![root]
    } else {
        kept_roots(conv)
    }
}

/// The manifests found under every root whose discovery succeeded, root by root.
pub open spec fn discovered(per_root: Seq<RootDiscovery>) -> Seq<Seq<char>>
    decreases per_root.len(),
{
    if per_root.len() == 0 {
        Seq::empty()
    } else {
        let rest = discovered(per_root.drop_last());
        match per_root.last() {
            Ok(found) => rest + found@.map_values(|m: String| m@),
            Err(_) => rest,
        }
    }
}

/// The manifest locations of a list of linked projects.
pub open spec fn manifests(projects: Seq<LinkedProject>) -> Seq<Seq<char>> {
    projects.map_values(|p: LinkedProject| p.manifest@)
}

/// Whether a file name is one that describes a project: a Cargo manifest or
/// a `rust-project.json` description.
pub fn is_manifest_name(name: &str) -> (r: bool)
    ensures
        r == (name@ == "Cargo.toml"@ || name@ == "rust-project.json"@),
{
    str_eq(name, "Cargo.toml") || str_eq(name, "rust-project.json")
}

/// Relies on lsp_types::Url (the url crate): parses a `file:` URI and turns
/// it into a local path. The outcome depends on the platform's path rules,
/// so nothing is promised of it.
#[verifier::external_body]
fn uri_to_path(uri: &str) -> (r: Option<String>) {
    let url = lsp_types::Url::parse(uri).ok()?;
    let path = url.to_file_path().ok()?;
    path.into_os_string().into_string().ok()
}

/// The root path: the converted root location when it is absolute, else the
/// working directory.
pub fn select_root(converted: Option<String>, cwd: String) -> (r: String)
    ensures
        r@ == root_choice(converted, cwd@),
{
    match converted {
        Some(p) => if rooted(p.as_str()) { p } else { cwd },
        None => cwd,
    }
}

/// Resolves the root path from the client's optional root location.
/// Without a root location the working directory is the root.
pub fn resolve_root(root_uri: &Option<String>, cwd: String) -> (r: String)
    ensures
        root_uri is None ==> r@ == cwd@,
        r@ == cwd@ || is_rooted(r@),
{
    match root_uri {
        Some(uri) => select_root(uri_to_path(uri.as_str()), cwd),
        None => cwd,
    }
}

/// The candidate roots from the converted workspace folders, in their order;
/// the root path alone when none of them converted.
pub fn candidate_roots(converted: Vec<Option<String>>, root: &String) -> (r: Vec<String>)
    ensures
        r@.map_values(|p: String| p@) == candidates(converted@, root@),
{
    let mut kept: Vec<String> = Vec::new();
    let mut i: usize = 0;
    while i < converted.len()
        invariant
            i <= converted@.len(),
            kept@.map_values(|p: String| p@) == kept_roots(converted@.subrange(0, i as int)),
        decreases converted@.len() - i,
    {
        let ghost before = kept@;
        assert(converted@.subrange(0, i + 1).drop_last() =~= converted@.subrange(0, i as int));
        match &converted[i] {
            Some(p) => {
                if rooted(p.as_str()) {
                    kept.push(p.clone());
                    assert(kept@.map_values(|p: String| p@) =~= before.map_values(
                        |p: String| p@,
                    ).push(p@));
                }
            },
            None => {},
        }
        i = i + 1;
    }
    assert(converted@.subrange(0, converted@.len() as int) =~= converted@);
    if kept.len() == 0 {
        let mut only: Vec<String> = Vec::new();
        only.push(root.clone());
        assert(only@.map_values(|p: String| p@) =~= seq![root@]);
        only
    } else {
        kept
    }
}

/// The number of workspace folders the client declared.
pub open spec fn folder_count(folders: Option<Vec<String>>) -> nat {
    match folders {
        Some(f) => f@.len(),
        None => 0,
    }
}

/// Converts each workspace folder location to a path and chooses the
/// candidate roots for discovery: the folders whose conversion gave an
/// absolute path, in their order, or else the root path alone.
pub fn workspace_roots(folders: &Option<Vec<String>>, root: &String) -> (r: Vec<String>)
    ensures
        exists|conv: Seq<Option<String>>|
            conv.len() == folder_count(*folders) && r@.map_values(|p: String| p@) == candidates(
                conv,
                root@,
            ),
        (match folders {
            Some(f) => f@.len() == 0,
            None => true,
        }) ==> r@.map_values(|p: String| p@) == seq![root@],
        r@.len() >= 1,
{
    let mut converted: Vec<Option<String>> = Vec::new();
    match folders {
        Some(list) => {
            let mut i: usize = 0;
            while i < list.len()
                invariant
                    i <= list@.len(),
                    converted@.len() == i,
                decreases list@.len() - i,
            {
                converted.push(uri_to_path(list[i].as_str()));
                i = i + 1;
            }
        },
        None => {},
    }
    assert((match folders {
        Some(f) => f@.len() == 0,
        None => true,
    }) ==> kept_roots(converted@) =~= Seq::empty()) by {
        match folders {
            Some(f) => if f@.len() == 0 {
                assert(converted@.len() == 0);
            },
            None => assert(converted@.len() == 0),
        }
    }
    let ghost conv = converted@;
    assert(conv.len() == folder_count(*folders));
    let r = candidate_roots(converted, root);
    assert(r@.map_values(|p: String| p@).len() == r@.len());
    assert(conv.len() == folder_count(*folders) && r@.map_values(|p: String| p@) == candidates(
        conv,
        root@,
    ));
    r
}

/// Wraps every manifest that discovery found as a linked project, in the order
/// of the candidate roots and then of discovery; roots whose discovery failed
/// are skipped.
pub fn collect_linked_projects(per_root: &Vec<RootDiscovery>) -> (r: Vec<LinkedProject>)
    ensures
        manifests(r@) == discovered(per_root@),
{
    let mut out: Vec<LinkedProject> = Vec::new();
    let mut i: usize = 0;
    while i < per_root.len()
        invariant
            i <= per_root@.len(),
            manifests(out@) == discovered(per_root@.subrange(0, i as int)),
        decreases per_root@.len() - i,
    {
        assert(per_root@.subrange(0, i + 1).drop_last() =~= per_root@.subrange(0, i as int));
        match &per_root[i] {
            Ok(found) => {
                let mut j: usize = 0;
                let ghost start = out@;
                while j < found.len()
                    invariant
                        j <= found@.len(),
                        manifests(out@) =~= manifests(start) + found@.subrange(
                            0,
                            j as int,
                        ).map_values(|m: String| m@),
                    decreases found@.len() - j,
                {
                    let ghost prev = out@;
                    out.push(LinkedProject { manifest: found[j].clone() });
                    assert(manifests(out@) =~= manifests(prev).push(found@[j as int]@));
                    assert(found@.subrange(0, j + 1).map_values(|m: String| m@) =~= found@.subrange(
                        0,
                        j as int,
                    ).map_values(|m: String| m@).push(found@[j as int]@));
                    assert(manifests(out@) =~= manifests(start) + found@.subrange(
                        0,
                        j + 1,
                    ).map_values(|m: String| m@));
                    j = j + 1;
                }
                assert(found@.subrange(0, found@.len() as int) =~= found@);
            },
            Err(_) => {},
        }
        i = i + 1;
    }
    assert(per_root@.subrange(0, per_root@.len() as int) =~= per_root@);
    out
}

} // verus!
