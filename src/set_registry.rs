//! The `set-registry` command: its arguments and the decisions of a run.
use vstd::prelude::*;

use crate::keys::{key_selected, strings_view};
use crate::manifest::{entries_view, DepEntry, DepEntryView, DepValueView};
use crate::mutator::{
    any_update, change_of, entries_after, entry_after, update_member, MemberUpdate,
};
use crate::workspace::{
    find_ws_members, members_view, metadata_options, query_options, select_members,
    selected_members, workspace_packages, MemberView, WorkspaceMember,
};

verus! {

/// Change the registry of dependencies in the workspace's manifests.
pub struct SetRegistryArgs {
    /// Registry to update the dependencies to.
    pub registry: String,
    /// Path to the manifest to start from.
    pub manifest_path: Option<String>,
    /// Declared keys of the dependencies whose registry changes.
    pub pkgids: Vec<String>,
    /// Report the changes without making them.
    pub dry_run: bool,
    /// Names of workspace members to leave alone.
    pub exclude: Vec<String>,
    /// Require the lock file to be up to date.
    pub locked: bool,
}

/// What a run does once the workspace is known.
pub struct RunPlan {
    /// The members whose manifests are rewritten, in order.
    pub members: Vec<WorkspaceMember>,
    /// The extra options of both workspace queries.
    pub query_options: Vec<String>,
    /// Whether the run ends by warning that nothing was written.
    pub warn_dry_run: bool,
}

impl SetRegistryArgs {
    /// Plans a run over the workspace whose metadata lists `packages` and the
    /// member identifiers `member_ids`: every member not excluded by name is
    /// processed, in the metadata's order.
    pub fn exec(&self, packages: &Vec<WorkspaceMember>, member_ids: &Vec<String>) -> (r: RunPlan)
        ensures
            members_view(r.members@) == selected_members(
                workspace_packages(members_view(packages@), strings_view(member_ids@)),
                strings_view(self.exclude@),
            ),
            strings_view(r.query_options@) == query_options(self.locked),
            r.warn_dry_run == self.dry_run,
    {
        let members = find_ws_members(packages, member_ids);
        let selected = select_members(&members, &self.exclude);
        RunPlan { members: selected, query_options: metadata_options(self.locked), warn_dry_run: self.dry_run }
    }

    /// Rewrites the entries of one selected member's manifest.
    pub fn update_member(&self, entries: &Vec<DepEntry>) -> (r: MemberUpdate)
        ensures
            entries_view(r.entries@) == entries_after(strings_view(self.pkgids@), self.registry@, entries_view(entries@)),
            r.changes@.len() == entries@.len(),
            forall|i: int| 0 <= i < entries@.len() ==> (#[trigger] r.changes@[i])@ == change_of(strings_view(self.pkgids@), self.registry@, entries@[i]@),
            r.changed == any_update(strings_view(self.pkgids@), self.registry@, entries_view(entries@)),
            r.write == (r.changed && !self.dry_run),
            self.dry_run ==> !r.write,
    {
        update_member(&self.pkgids, &self.registry, entries, self.dry_run)
    }
}

/// The command line's subcommands.
pub enum Command {
    SetRegistry(SetRegistryArgs),
}

impl Command {
    /// Plans the run of the subcommand.
    pub fn exec(&self, packages: &Vec<WorkspaceMember>, member_ids: &Vec<String>) -> (r: RunPlan)
        ensures
            match self {
                Command::SetRegistry(args) => {
                    &&& members_view(r.members@) == selected_members(
                        workspace_packages(members_view(packages@), strings_view(member_ids@)),
                        strings_view(args.exclude@),
                    )
                    &&& strings_view(r.query_options@) == query_options(args.locked)
                    &&& r.warn_dry_run == args.dry_run
                },
            },
    {
        match self {
            Command::SetRegistry(args) => args.exec(packages, member_ids),
        }
    }
}

/// A member of the workspace is processed iff its name is not excluded, and
/// an entry of its manifest is changed iff its key, trimmed, equals a
/// requested one, and it is table-like and does not already name the registry.
pub proof fn lemma_selection(
    members: Seq<MemberView>,
    exclude: Seq<Seq<char>>,
    pkgids: Seq<Seq<char>>,
    registry: Seq<char>,
    m: MemberView,
    e: DepEntryView,
)
    requires
        members.contains(m),
    ensures
        selected_members(members, exclude).contains(m) <==> !exclude.contains(m.name),
        entry_after(pkgids, registry, e) != e <==> (key_selected(pkgids, e.key) && match e.value {
            DepValueView::Bare => false,
            DepValueView::TableLike { registry: old } => old != Some(registry),
        }),
{
    broadcast use vstd::seq_lib::group_filter_ensures;

    let pred = |x: MemberView| !exclude.contains(x.name);
    let k = choose|k: int| 0 <= k < members.len() && members[k] == m;
    if pred(m) {
        members.lemma_filter_contains(pred, k);
    }
    if selected_members(members, exclude).contains(m) {
        let sel = members.filter(pred);
        let j = choose|j: int| 0 <= j < sel.len() && sel[j] == m;
        members.lemma_filter_pred(pred, j);
    }
}

} // verus!
