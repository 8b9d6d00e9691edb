//! Deciding, entry by entry, what the registry rewrite does to a manifest.
use vstd::prelude::*;

use crate::keys::{key_is_selected, key_selected, strings_view};
use crate::manifest::{entries_view, DepEntry, DepEntryView, DepValue, DepValueView};

verus! {

/// What happened to the `registry` field of one entry.
pub enum RegistryChange {
    /// The entry was not selected, is not table-like, or already held the
    /// requested registry.
    Unchanged,
    /// The entry had no string `registry` field; one was added.
    Added,
    /// The entry named another registry, `old`; it was overwritten.
    Replaced { old: String },
}

pub ghost enum RegistryChangeView {
    Unchanged,
    Added,
    Replaced { old: Seq<char> },
}

impl View for RegistryChange {
    type V = RegistryChangeView;

    open spec fn view(&self) -> RegistryChangeView {
        match self {
            RegistryChange::Unchanged => RegistryChangeView::Unchanged,
            RegistryChange::Added => RegistryChangeView::Added,
            RegistryChange::Replaced { old } => RegistryChangeView::Replaced { old: old@ },
        }
    }
}

/// The outcome of rewriting one member's manifest.
pub struct MemberUpdate {
    /// The entries after the rewrite, in their original order.
    pub entries: Vec<DepEntry>,
    /// For each entry, what happened to its `registry` field.
    pub changes: Vec<RegistryChange>,
    /// Whether any entry changed.
    pub changed: bool,
    /// Whether the manifest is to be written back.
    pub write: bool,
}

/// Whether the rewrite changes entry `e`: it is selected, table-like, and does
/// not already name `registry`.
pub open spec fn entry_updates(pkgids: Seq<Seq<char>>, registry: Seq<char>, e: DepEntryView) -> bool {
    key_selected(pkgids, e.key) && match e.value {
        DepValueView::Bare => false,
        DepValueView::TableLike { registry: old } => old != Some(registry),
    }
}

/// Entry `e` after the rewrite.
pub open spec fn entry_after(pkgids: Seq<Seq<char>>, registry: Seq<char>, e: DepEntryView) -> DepEntryView {
    if entry_updates(pkgids, registry, e) {
        DepEntryView { key: e.key, value: DepValueView::TableLike { registry: Some(registry) } }
    } else {
        e
    }
}

/// What the rewrite reports for entry `e`.
pub open spec fn change_of(pkgids: Seq<Seq<char>>, registry: Seq<char>, e: DepEntryView) -> RegistryChangeView {
    if !entry_updates(pkgids, registry, e) {
        RegistryChangeView::Unchanged
    } else {
        match e.value {
            DepValueView::TableLike { registry: Some(old) } => RegistryChangeView::Replaced { old },
            _ => RegistryChangeView::Added,
        }
    }
}

/// All entries after the rewrite.
pub open spec fn entries_after(pkgids: Seq<Seq<char>>, registry: Seq<char>, es: Seq<DepEntryView>) -> Seq<DepEntryView> {
    es.map_values(|e: DepEntryView| entry_after(pkgids, registry, e))
}

/// Whether the rewrite changes any of the entries.
pub open spec fn any_update(pkgids: Seq<Seq<char>>, registry: Seq<char>, es: Seq<DepEntryView>) -> bool {
    exists|i: int| 0 <= i < es.len() && #[trigger] entry_updates(pkgids, registry, es[i])
}

/// Decides what the rewrite does to one entry.
pub fn update_entry(pkgids: &Vec<String>, new_registry: &String, entry: &DepEntry) -> (r: (DepEntry, RegistryChange))
    ensures
        r.0@ == entry_after(strings_view(pkgids@), new_registry@, entry@),
        r.1@ == change_of(strings_view(pkgids@), new_registry@, entry@),
{
    if !key_is_selected(pkgids, entry.key.as_str()) {
        return (entry.copy(), RegistryChange::Unchanged);
    }
    let change = match &entry.value {
        DepValue::Bare => RegistryChange::Unchanged,
        DepValue::TableLike { registry: Some(old) } => {
            if *old == *new_registry {
                RegistryChange::Unchanged
            } else {
                RegistryChange::Replaced { old: old.clone() }
            }
        },
        DepValue::TableLike { registry: None } => RegistryChange::Added,
    };
    match change {
        RegistryChange::Unchanged => (entry.copy(), change),
        _ => (
            DepEntry {
                key: entry.key.clone(),
                value: DepValue::TableLike { registry: Some(new_registry.clone()) },
            },
            change,
        ),
    }
}

/// Rewrites the `registry` field of every entry whose key, trimmed, equals
/// one of `pkgids`, and decides whether the manifest is written back.
pub fn update_member(pkgids: &Vec<String>, new_registry: &String, entries: &Vec<DepEntry>, dry_run: bool) -> (r: MemberUpdate)
    ensures
        entries_view(r.entries@) == entries_after(strings_view(pkgids@), new_registry@, entries_view(entries@)),
        r.changes@.len() == entries@.len(),
        forall|i: int| 0 <= i < entries@.len() ==> (#[trigger] r.changes@[i])@ == change_of(strings_view(pkgids@), new_registry@, entries@[i]@),
        r.changed == any_update(strings_view(pkgids@), new_registry@, entries_view(entries@)),
        r.write == (r.changed && !dry_run),
{
    let ghost ks = strings_view(pkgids@);
    let mut out: Vec<DepEntry> = Vec::new();
    let mut changes: Vec<RegistryChange> = Vec::new();
    let mut changed = false;
    let mut i: usize = 0;
    while i < entries.len()
        invariant
            0 <= i <= entries.len(),
            ks == strings_view(pkgids@),
            out@.len() == i,
            changes@.len() == i,
            forall|j: int| 0 <= j < i ==> (#[trigger] out@[j])@ == entry_after(ks, new_registry@, entries@[j]@),
            forall|j: int| 0 <= j < i ==> (#[trigger] changes@[j])@ == change_of(ks, new_registry@, entries@[j]@),
            changed == exists|j: int| 0 <= j < i && #[trigger] entry_updates(ks, new_registry@, entries@[j]@),
        decreases entries.len() - i,
    {
        let (e, c) = update_entry(pkgids, new_registry, &entries[i]);
        let updates = match c {
            RegistryChange::Unchanged => false,
            _ => true,
        };
        assert(updates == entry_updates(ks, new_registry@, entries@[i as int]@));
        changed = changed || updates;
        out.push(e);
        changes.push(c);
        i = i + 1;
    }
    proof {
        assert(entries_view(out@) =~= entries_after(ks, new_registry@, entries_view(entries@)));
        if changed {
            let j = choose|j: int| 0 <= j < i && #[trigger] entry_updates(ks, new_registry@, entries@[j]@);
            assert(entry_updates(ks, new_registry@, entries_view(entries@)[j]));
        }
        if any_update(ks, new_registry@, entries_view(entries@)) {
            let j = choose|j: int| 0 <= j < entries_view(entries@).len() && #[trigger] entry_updates(ks, new_registry@, entries_view(entries@)[j]);
            assert(entry_updates(ks, new_registry@, entries@[j]@));
        }
    }
    let write = changed && !dry_run;
    MemberUpdate { entries: out, changes, changed, write }
}

/// Rewriting a second time with the same arguments leaves the entries as the
/// first rewrite left them, and changes nothing, so nothing is written.
pub proof fn lemma_update_idempotent(pkgids: Seq<Seq<char>>, registry: Seq<char>, es: Seq<DepEntryView>)
    ensures
        entries_after(pkgids, registry, entries_after(pkgids, registry, es)) == entries_after(pkgids, registry, es),
        !any_update(pkgids, registry, entries_after(pkgids, registry, es)),
{
    let once = entries_after(pkgids, registry, es);
    assert(entries_after(pkgids, registry, once) =~= once);
    assert forall|i: int| 0 <= i < once.len() implies !#[trigger] entry_updates(pkgids, registry, once[i]) by {}
}

/// A selected table-like entry without a `registry` field names `registry`
/// after one rewrite, and a second rewrite with the same registry changes
/// nothing.
pub proof fn lemma_registry_convergence(pkgids: Seq<Seq<char>>, registry: Seq<char>, e: DepEntryView)
    requires
        key_selected(pkgids, e.key),
        e.value == (DepValueView::TableLike { registry: None }),
    ensures
        entry_after(pkgids, registry, e) == (DepEntryView {
            key: e.key,
            value: DepValueView::TableLike { registry: Some(registry) },
        }),
        change_of(pkgids, registry, e) == RegistryChangeView::Added,
        !entry_updates(pkgids, registry, entry_after(pkgids, registry, e)),
        entry_after(pkgids, registry, entry_after(pkgids, registry, e)) == entry_after(pkgids, registry, e),
{
}

/// An entry that is not table-like is never changed, even when its key is
/// selected: it is not turned into a table.
pub proof fn lemma_bare_entry_kept(pkgids: Seq<Seq<char>>, registry: Seq<char>, e: DepEntryView)
    requires
        e.value == DepValueView::Bare,
    ensures
        entry_after(pkgids, registry, e) == e,
        change_of(pkgids, registry, e) == RegistryChangeView::Unchanged,
{
}

/// With no requested identifiers, no entry is changed, so no manifest is
/// written.
pub proof fn lemma_no_keys_no_change(registry: Seq<char>, es: Seq<DepEntryView>)
    ensures
        entries_after(Seq::empty(), registry, es) == es,
        !any_update(Seq::empty(), registry, es),
{
    assert(entries_after(Seq::empty(), registry, es) =~= es);
}

} // verus!
