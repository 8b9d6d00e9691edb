use set_registry::keys::{contains_string, key_is_selected, trim_all};
use set_registry::manifest::{DepEntry, DepValue};
use set_registry::mutator::{update_member, RegistryChange};
use set_registry::set_registry::{Command, SetRegistryArgs};
use set_registry::workspace::{
    fallback_mode, find_ws_members, metadata_options, select_members, ResolveMode, WorkspaceMember,
};

fn s(x: &str) -> String {
    x.to_string()
}

fn bare(key: &str) -> DepEntry {
    DepEntry { key: s(key), value: DepValue::Bare }
}

fn table(key: &str, registry: Option<&str>) -> DepEntry {
    DepEntry { key: s(key), value: DepValue::TableLike { registry: registry.map(s) } }
}

fn registry_of(e: &DepEntry) -> Option<Option<String>> {
    match &e.value {
        DepValue::Bare => None,
        DepValue::TableLike { registry } => Some(registry.clone()),
    }
}

fn member(id: &str, name: &str) -> WorkspaceMember {
    WorkspaceMember { id: s(id), name: s(name), manifest_path: format!("/ws/{}/Cargo.toml", name) }
}

fn args(registry: &str, pkgids: &[&str], dry_run: bool, exclude: &[&str], locked: bool) -> SetRegistryArgs {
    SetRegistryArgs {
        registry: s(registry),
        manifest_path: None,
        pkgids: pkgids.iter().map(|p| s(p)).collect(),
        dry_run,
        exclude: exclude.iter().map(|p| s(p)).collect(),
        locked,
    }
}

#[test]
fn rewrites_selected_table_entry_and_leaves_bare_one() {
    let entries = vec![bare("dep-a"), table("dep-b", Some("old"))];
    let a = args("new", &["dep-b"], false, &[], false);
    let first = a.update_member(&entries);
    assert_eq!(first.entries.len(), 2);
    assert_eq!(first.entries[0].key, "dep-a");
    assert_eq!(registry_of(&first.entries[0]), None);
    assert_eq!(first.entries[1].key, "dep-b");
    assert_eq!(registry_of(&first.entries[1]), Some(Some(s("new"))));
    assert!(matches!(first.changes[0], RegistryChange::Unchanged));
    assert!(matches!(&first.changes[1], RegistryChange::Replaced { old } if old == "old"));
    assert!(first.changed);
    assert!(first.write);

    let second = a.update_member(&first.entries);
    assert!(!second.changed);
    assert!(!second.write);
    assert_eq!(registry_of(&second.entries[1]), Some(Some(s("new"))));
    assert!(matches!(second.changes[1], RegistryChange::Unchanged));
}

#[test]
fn empty_key_list_changes_nothing() {
    let entries = vec![bare("dep-a"), table("dep-b", Some("old")), table("dep-c", None)];
    let r = update_member(&vec![], &s("new"), &entries, false);
    assert!(!r.changed);
    assert!(!r.write);
    assert_eq!(registry_of(&r.entries[1]), Some(Some(s("old"))));
    assert_eq!(registry_of(&r.entries[2]), Some(None));
    assert!(r.changes.iter().all(|c| matches!(c, RegistryChange::Unchanged)));
}

#[test]
fn missing_registry_is_added_then_converges() {
    let entries = vec![table("dep-c", None)];
    let r = update_member(&vec![s("dep-c")], &s("mine"), &entries, false);
    assert!(matches!(r.changes[0], RegistryChange::Added));
    assert_eq!(registry_of(&r.entries[0]), Some(Some(s("mine"))));
    assert!(r.write);
    let again = update_member(&vec![s("dep-c")], &s("mine"), &r.entries, false);
    assert!(!again.changed);
    assert!(!again.write);
}

#[test]
fn bare_entry_is_never_promoted() {
    let entries = vec![bare("dep-a")];
    let r = update_member(&vec![s("dep-a")], &s("new"), &entries, false);
    assert!(!r.changed);
    assert_eq!(registry_of(&r.entries[0]), None);
    assert!(matches!(r.changes[0], RegistryChange::Unchanged));
}

#[test]
fn dry_run_never_writes() {
    let entries = vec![table("dep-b", Some("old")), table("dep-c", None)];
    let a = args("new", &["dep-b", "dep-c"], true, &[], false);
    let r = a.update_member(&entries);
    assert!(r.changed);
    assert!(!r.write);
}

#[test]
fn keys_match_trimmed_and_exactly() {
    let ids = vec![s("  dep-b\t"), s("serde")];
    assert!(key_is_selected(&ids, "dep-b"));
    assert!(key_is_selected(&ids, " serde "));
    assert!(!key_is_selected(&ids, "dep"));
    assert!(!key_is_selected(&ids, "dep-b2"));
    assert!(!key_is_selected(&ids, "SERDE"));
    assert!(!key_is_selected(&vec![], "serde"));
}

#[test]
fn trimming_removes_surrounding_whitespace() {
    let t = trim_all(&vec![s("  a b \n"), s("c")]);
    assert_eq!(t, vec![s("a b"), s("c")]);
}

#[test]
fn contains_string_compares_exactly() {
    let v = vec![s("a"), s("bc")];
    assert!(contains_string(&v, &s("bc")));
    assert!(!contains_string(&v, &s("b")));
    assert!(!contains_string(&vec![], &s("a")));
}

#[test]
fn only_members_of_the_workspace_are_found() {
    let packages = vec![member("1", "app"), member("2", "dep-from-registry"), member("3", "core")];
    let found = find_ws_members(&packages, &vec![s("3"), s("1")]);
    let names: Vec<String> = found.iter().map(|m| m.name.clone()).collect();
    assert_eq!(names, vec![s("app"), s("core")]);
    assert_eq!(found[1].manifest_path, "/ws/core/Cargo.toml");
}

#[test]
fn excluded_members_are_skipped_in_order() {
    let members = vec![member("1", "a"), member("2", "b"), member("3", "c")];
    let kept = select_members(&members, &vec![s("b")]);
    let names: Vec<String> = kept.iter().map(|m| m.name.clone()).collect();
    assert_eq!(names, vec![s("a"), s("c")]);
    let all = select_members(&members, &vec![]);
    assert_eq!(all.len(), 3);
}

#[test]
fn plan_selects_members_and_options() {
    let packages = vec![member("1", "a"), member("2", "b"), member("9", "outside")];
    let a = args("new", &["dep-b"], true, &["a"], true);
    let plan = a.exec(&packages, &vec![s("1"), s("2")]);
    let names: Vec<String> = plan.members.iter().map(|m| m.name.clone()).collect();
    assert_eq!(names, vec![s("b")]);
    assert_eq!(plan.query_options, vec![s("--locked"), s("--offline")]);
    assert!(plan.warn_dry_run);

    let cmd = Command::SetRegistry(args("new", &[], false, &[], false));
    let plan = cmd.exec(&packages, &vec![s("1"), s("2")]);
    assert_eq!(plan.members.len(), 2);
    assert_eq!(plan.query_options, vec![s("--offline")]);
    assert!(!plan.warn_dry_run);
}

#[test]
fn query_options_follow_locked_flag() {
    assert_eq!(metadata_options(true), vec![s("--locked"), s("--offline")]);
    assert_eq!(metadata_options(false), vec![s("--offline")]);
}

#[test]
fn full_query_falls_back_once() {
    assert!(matches!(fallback_mode(ResolveMode::Full), Some(ResolveMode::ManifestOnly)));
    assert!(fallback_mode(ResolveMode::ManifestOnly).is_none());
}

#[test]
fn excluded_member_entries_stay_even_when_selected() {
    let members = vec![member("1", "a"), member("2", "b")];
    let a = args("new", &["dep-b"], false, &["b"], false);
    let plan = a.exec(&members, &vec![s("1"), s("2")]);
    assert_eq!(plan.members.len(), 1);
    assert_eq!(plan.members[0].name, "a");
    let r = a.update_member(&vec![table("dep-b", None), table("dep-c", Some("x"))]);
    assert!(matches!(r.changes[0], RegistryChange::Added));
    assert!(matches!(r.changes[1], RegistryChange::Unchanged));
}
