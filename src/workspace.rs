//! The workspace's members: which packages belong to it, which of them are
//! processed, and how the workspace is queried.
use vstd::prelude::*;

use crate::keys::{contains_string, strings_view};

verus! {

/// A package of the workspace.
pub struct WorkspaceMember {
    /// The package's identifier in the workspace metadata.
    pub id: String,
    /// The package's name, unique within the workspace.
    pub name: String,
    /// Where the package's manifest lies.
    pub manifest_path: String,
}

pub ghost struct MemberView {
    pub id: Seq<char>,
    pub name: Seq<char>,
    pub manifest_path: Seq<char>,
}

impl View for WorkspaceMember {
    type V = MemberView;

    open spec fn view(&self) -> MemberView {
        MemberView { id: self.id@, name: self.name@, manifest_path: self.manifest_path@ }
    }
}

impl WorkspaceMember {
    /// A copy of the member.
    pub fn copy(&self) -> (r: WorkspaceMember)
        ensures
            r@ == self@,
    {
        WorkspaceMember {
            id: self.id.clone(),
            name: self.name.clone(),
            manifest_path: self.manifest_path.clone(),
        }
    }
}

pub open spec fn members_view(ms: Seq<WorkspaceMember>) -> Seq<MemberView> {
    ms.map_values(|m: WorkspaceMember| m@)
}

/// The packages whose identifier is one of the workspace's member identifiers.
pub open spec fn workspace_packages(packages: Seq<MemberView>, member_ids: Seq<Seq<char>>) -> Seq<MemberView> {
    packages.filter(|p: MemberView| member_ids.contains(p.id))
}

/// The members whose name is not excluded, in their order.
pub open spec fn selected_members(members: Seq<MemberView>, exclude: Seq<Seq<char>>) -> Seq<MemberView> {
    members.filter(|m: MemberView| !exclude.contains(m.name))
}

proof fn lemma_filter_step(ms: Seq<WorkspaceMember>, i: int, pred: spec_fn(MemberView) -> bool)
    requires
        0 <= i < ms.len(),
    ensures
        members_view(ms.subrange(0, i + 1)).filter(pred) == if pred(ms[i]@) {
            members_view(ms.subrange(0, i)).filter(pred).push(ms[i]@)
        } else {
            members_view(ms.subrange(0, i)).filter(pred)
        },
{
    let next = members_view(ms.subrange(0, i + 1));
    assert(next.drop_last() =~= members_view(ms.subrange(0, i)));
    assert(next.last() == ms[i]@);
    reveal(Seq::filter);
}

/// The packages of the metadata that are members of the workspace, in the
/// metadata's order.
pub fn find_ws_members(packages: &Vec<WorkspaceMember>, member_ids: &Vec<String>) -> (r: Vec<WorkspaceMember>)
    ensures
        members_view(r@) == workspace_packages(members_view(packages@), strings_view(member_ids@)),
{
    let ghost pred = |p: MemberView| strings_view(member_ids@).contains(p.id);
    let mut out: Vec<WorkspaceMember> = Vec::new();
    let mut i: usize = 0;
    while i < packages.len()
        invariant
            0 <= i <= packages.len(),
            pred == (|p: MemberView| strings_view(member_ids@).contains(p.id)),
            members_view(out@) == members_view(packages@.subrange(0, i as int)).filter(pred),
        decreases packages.len() - i,
    {
        proof { lemma_filter_step(packages@, i as int, pred); }
        if contains_string(member_ids, &packages[i].id) {
            out.push(packages[i].copy());
        }
        assert(members_view(out@) =~= members_view(packages@.subrange(0, i + 1)).filter(pred));
        i = i + 1;
    }
    assert(packages@.subrange(0, packages@.len() as int) =~= packages@);
    out
}

/// The members whose name is not in `exclude`, in their order.
pub fn select_members(members: &Vec<WorkspaceMember>, exclude: &Vec<String>) -> (r: Vec<WorkspaceMember>)
    ensures
        members_view(r@) == selected_members(members_view(members@), strings_view(exclude@)),
{
    let ghost pred = |m: MemberView| !strings_view(exclude@).contains(m.name);
    let mut out: Vec<WorkspaceMember> = Vec::new();
    let mut i: usize = 0;
    while i < members.len()
        invariant
            0 <= i <= members.len(),
            pred == (|m: MemberView| !strings_view(exclude@).contains(m.name)),
            members_view(out@) == members_view(members@.subrange(0, i as int)).filter(pred),
        decreases members.len() - i,
    {
        proof { lemma_filter_step(members@, i as int, pred); }
        if !contains_string(exclude, &members[i].name) {
            out.push(members[i].copy());
        }
        assert(members_view(out@) =~= members_view(members@.subrange(0, i + 1)).filter(pred));
        i = i + 1;
    }
    assert(members@.subrange(0, members@.len() as int) =~= members@);
    out
}

/// How much of the workspace a metadata query resolves.
#[derive(PartialEq, Eq, Structural)]
pub enum ResolveMode {
    /// The whole dependency graph, offline, with every feature enabled.
    Full,
    /// The packages that the manifests declare, without their dependencies.
    ManifestOnly,
}

/// The mode in which to query again after a query in `failed` failed:
/// a full query falls back once to a manifest-only one, whose failure is
/// final.
pub fn fallback_mode(failed: ResolveMode) -> (r: Option<ResolveMode>)
    ensures
        failed == ResolveMode::Full ==> r == Some(ResolveMode::ManifestOnly),
        failed == ResolveMode::ManifestOnly ==> r.is_none(),
{
    match failed {
        ResolveMode::Full => Some(ResolveMode::ManifestOnly),
        ResolveMode::ManifestOnly => None,
    }
}

/// `--locked` when the lock file must already be up to date, then `--offline`.
pub open spec fn query_options(locked: bool) -> Seq<Seq<char>> {
    if locked {
        seq!["--locked"@, "--offline"@]
    } else {
        seq!["--offline"@]
    }
}

/// The extra command-line options of the metadata query: `--locked` when the
/// lock file must already be up to date, then `--offline`.
pub fn metadata_options(locked: bool) -> (r: Vec<String>)
    ensures
        strings_view(r@) == query_options(locked),
{
    let mut other: Vec<String> = Vec::new();
    if locked {
        other.push(String::from_str("--locked"));
    }
    other.push(String::from_str("--offline"));
    proof {
        reveal_strlit("--locked");
        reveal_strlit("--offline");
        assert(strings_view(other@) =~= query_options(locked));
    }
    other
}

} // verus!
