//! The resolved configuration of a server session, built from the decoded
//! initialize request in two steps around manifest discovery.
use vstd::prelude::*;
use crate::options::{default_options, overlay, texts, OptionEntry, Options, OptionsView};
use crate::text::is_rooted;
use crate::workspace::{
    candidates, collect_linked_projects, discovered, kept_roots, manifests, resolve_root,
    folder_count, workspace_roots, LinkedProject, RootDiscovery,
};

verus! {

/// The client capabilities that the configuration reads; `None` where the
/// client declared nothing.
#[derive(Clone, Copy, Debug, PartialEq, Eq, Structural)]
pub struct ClientCaps {
    pub definition_link_support: Option<bool>,
    pub hierarchical_document_symbols: Option<bool>,
    pub code_action_literals: Option<bool>,
    pub work_done_progress: Option<bool>,
}

/// The capability flags of the configuration.
#[derive(Clone, Copy, Debug, PartialEq, Eq, Structural)]
pub struct CapabilityFlags {
    pub location_link: bool,
    pub hierarchical_symbols: bool,
    pub code_action_literals: bool,
    pub work_done_progress: bool,
}

/// A capability counts as offered only where the client declared it.
pub open spec fn flags_of(c: ClientCaps) -> CapabilityFlags {
    CapabilityFlags {
        location_link: c.definition_link_support == Some(true),
        hierarchical_symbols: c.hierarchical_document_symbols == Some(true),
        code_action_literals: c.code_action_literals == Some(true),
        work_done_progress: c.work_done_progress == Some(true),
    }
}

/// What the configuration reads of the decoded initialize request.
pub struct InitializeInput {
    pub root_uri: Option<String>,
    pub workspace_folders: Option<Vec<String>>,
    pub initialization_options: Option<Vec<OptionEntry>>,
    pub capabilities: ClientCaps,
}

/// The configuration that the steady-state loop runs with.
pub struct ResolvedConfig {
    pub root_path: String,
    pub options: Options,
    pub caps: CapabilityFlags,
    pub linked_projects: Vec<LinkedProject>,
}

/// A configuration whose linked projects may still wait for discovery over
/// `discover_in`; that list is empty where the options declared the projects.
pub struct ConfigPlan {
    pub config: ResolvedConfig,
    pub discover_in: Vec<String>,
}

/// The option set after the client's payload, if it sent one.
pub open spec fn options_after(payload: Option<Vec<OptionEntry>>) -> OptionsView {
    match payload {
        Some(entries) => overlay(default_options(), entries@),
        None => default_options(),
    }
}

/// Derives the capability flags from the client's declared capabilities.
pub fn capability_flags(c: &ClientCaps) -> (r: CapabilityFlags)
    ensures
        r == flags_of(*c),
{
    CapabilityFlags {
        location_link: c.definition_link_support == Some(true),
        hierarchical_symbols: c.hierarchical_document_symbols == Some(true),
        code_action_literals: c.code_action_literals == Some(true),
        work_done_progress: c.work_done_progress == Some(true),
    }
}

fn declared_projects(paths: &Vec<String>) -> (r: Vec<LinkedProject>)
    ensures
        manifests(r@) == texts(paths@),
{
    let mut out: Vec<LinkedProject> = Vec::new();
    let mut i: usize = 0;
    while i < paths.len()
        invariant
            i <= paths@.len(),
            manifests(out@) =~= texts(paths@.subrange(0, i as int)),
        decreases paths@.len() - i,
    {
        let ghost prev = out@;
        out.push(LinkedProject { manifest: paths[i].clone() });
        assert(manifests(out@) =~= manifests(prev).push(paths@[i as int]@));
        assert(texts(paths@.subrange(0, i + 1)) =~= texts(paths@.subrange(0, i as int)).push(
            paths@[i as int]@,
        ));
        i = i + 1;
    }
    assert(paths@.subrange(0, paths@.len() as int) =~= paths@);
    out
}

/// Builds the configuration from the initialize request and the working
/// directory: the root path, the option overlay and the capability flags are
/// final; the linked projects are those the options declare, or else the
/// candidate roots that discovery must run over are returned beside it.
pub fn plan_config(input: InitializeInput, cwd: String) -> (r: ConfigPlan)
    ensures
        input.root_uri is None ==> r.config.root_path@ == cwd@,
        r.config.root_path@ == cwd@ || is_rooted(r.config.root_path@),
        r.config.options@ == options_after(input.initialization_options),
        r.config.caps == flags_of(input.capabilities),
        r.config.options@.linked_projects.len() > 0 ==> {
            &&& r.discover_in@.len() == 0
            &&& manifests(r.config.linked_projects@) == r.config.options@.linked_projects
        },
        r.config.options@.linked_projects.len() == 0 ==> {
            &&& r.config.linked_projects@.len() == 0
            &&& r.discover_in@.len() >= 1
            &&& exists|conv: Seq<Option<String>>|
                conv.len() == folder_count(input.workspace_folders)
                    && r.discover_in@.map_values(|p: String| p@) == candidates(
                    conv,
                    r.config.root_path@,
                )
            &&& (match input.workspace_folders {
                Some(f) => f@.len() == 0,
                None => true,
            }) ==> r.discover_in@.map_values(|p: String| p@) == seq![r.config.root_path@]
        },
{
    let root_path = resolve_root(&input.root_uri, cwd);
    let mut options = Options::new();
    match &input.initialization_options {
        Some(entries) => options.update(entries),
        None => {},
    }
    let caps = capability_flags(&input.capabilities);
    if options.linked_projects.len() > 0 {
        let linked_projects = declared_projects(&options.linked_projects);
        let config = ResolvedConfig { root_path, options, caps, linked_projects };
        ConfigPlan { config, discover_in: Vec::new() }
    } else {
        let discover_in = workspace_roots(&input.workspace_folders, &root_path);
        let config = ResolvedConfig { root_path, options, caps, linked_projects: Vec::new() };
        ConfigPlan { config, discover_in }
    }
}

/// Completes a plan with what discovery returned for each of its candidate
/// roots, in their order. A plan whose projects were declared keeps them.
pub fn finish_config(plan: ConfigPlan, per_root: &Vec<RootDiscovery>) -> (r: ResolvedConfig)
    ensures
        r.root_path == plan.config.root_path,
        r.options@ == plan.config.options@,
        r.caps == plan.config.caps,
        plan.discover_in@.len() == 0 ==> manifests(r.linked_projects@) == manifests(
            plan.config.linked_projects@,
        ),
        plan.discover_in@.len() > 0 ==> manifests(r.linked_projects@) == discovered(per_root@),
{
    if plan.discover_in.len() == 0 {
        plan.config
    } else {
        let linked_projects = collect_linked_projects(per_root);
        ResolvedConfig {
            root_path: plan.config.root_path,
            options: plan.config.options,
            caps: plan.config.caps,
            linked_projects,
        }
    }
}

/// The path that a converted workspace folder contributes, if any.
pub open spec fn converted_root(o: Option<String>) -> Option<Seq<char>> {
    match o {
        Some(p) => if is_rooted(p@) { Some(p@) } else { None },
        None => None,
    }
}

/// Where the client declares no projects and some workspace folder converted,
/// discovery runs over exactly the converted folders, in the folders' order.
pub proof fn lemma_discovery_over_converted_folders(conv: Seq<Option<String>>, root: Seq<char>)
    requires
        conv.filter_map(|o: Option<String>| converted_root(o)).len() > 0,
    ensures
        candidates(conv, root) == conv.filter_map(|o: Option<String>| converted_root(o)),
{
    lemma_kept_roots_are_converted(conv);
}

proof fn lemma_kept_roots_are_converted(conv: Seq<Option<String>>)
    ensures
        kept_roots(conv) == conv.filter_map(|o: Option<String>| converted_root(o)),
    decreases conv.len(),
{
    if conv.len() > 0 {
        lemma_kept_roots_are_converted(conv.drop_last());
        let rest = conv.drop_last().filter_map(|o: Option<String>| converted_root(o));
        match conv.last() {
            Some(p) => {
                assert(rest.push(p@) =~= rest + seq![p@]);
            },
            None => {},
        }
    }
}

/// Whether two discovery outcomes for one root name the same manifests.
pub open spec fn same_outcome(a: RootDiscovery, b: RootDiscovery) -> bool {
    match (a, b) {
        (Ok(x), Ok(y)) => texts(x@) == texts(y@),
        (Err(_), Err(_)) => true,
        _ => false,
    }
}

/// Running discovery again over an unchanged filesystem, where every root
/// yields the same outcome, gives the same ordered list of linked projects.
pub proof fn lemma_discovery_repeatable(a: Seq<RootDiscovery>, b: Seq<RootDiscovery>)
    requires
        a.len() == b.len(),
        forall|i: int| 0 <= i < a.len() ==> same_outcome(#[trigger] a[i], b[i]),
    ensures
        discovered(a) == discovered(b),
    decreases a.len(),
{
    if a.len() > 0 {
        assert forall|i: int| 0 <= i < a.drop_last().len() implies same_outcome(
            #[trigger] a.drop_last()[i],
            b.drop_last()[i],
        ) by {
            assert(same_outcome(a[i], b[i]));
        }
        lemma_discovery_repeatable(a.drop_last(), b.drop_last());
        assert(same_outcome(a[a.len() - 1], b[b.len() - 1]));
    }
}

} // verus!
