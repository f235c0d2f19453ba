use xccute_contract::{XccuteCommandPolicyMetadata, XccuteCommandSensitivity};

fn roles(m: &XccuteCommandPolicyMetadata) -> Vec<&str> {
    m.path_roles().iter().map(|r| r.as_str()).collect()
}

#[test]
fn new_metadata_is_normal_dry_run_without_sudo_scope_or_roles() {
    let m = XccuteCommandPolicyMetadata::new();
    assert_eq!(m.sensitivity(), XccuteCommandSensitivity::Normal);
    assert!(!m.is_sensitive());
    assert!(!m.requires_sudo());
    assert_eq!(m.iam_scope(), None);
    assert!(m.path_roles().is_empty());
    assert!(m.dry_run_default());
    assert_eq!(m, XccuteCommandPolicyMetadata::default());
    assert_eq!(XccuteCommandSensitivity::default(), XccuteCommandSensitivity::Normal);
}

#[test]
fn builders_set_each_field() {
    let m = XccuteCommandPolicyMetadata::new()
        .sensitive()
        .with_requires_sudo(true)
        .with_iam_scope("admin")
        .with_path_role("source")
        .with_dry_run_default(false);
    assert!(m.is_sensitive());
    assert!(m.requires_sudo());
    assert_eq!(m.iam_scope(), Some("admin"));
    assert_eq!(roles(&m), vec!["source"]);
    assert!(!m.dry_run_default());
}

#[test]
fn with_sensitive_false_never_clears_the_mark() {
    let m = XccuteCommandPolicyMetadata::new().with_sensitive(false);
    assert!(!m.is_sensitive());
    let m = m.with_sensitive(true).with_sensitive(false);
    assert!(m.is_sensitive());
    assert_eq!(
        XccuteCommandPolicyMetadata::new().sensitive(),
        XccuteCommandPolicyMetadata::new().with_sensitive(true)
    );
}

#[test]
fn optional_iam_scope_sets_or_clears() {
    let m = XccuteCommandPolicyMetadata::new().with_optional_iam_scope(Some("read"));
    assert_eq!(m.iam_scope(), Some("read"));
    assert_eq!(m, XccuteCommandPolicyMetadata::new().with_iam_scope("read"));
    let m = m.with_optional_iam_scope(None);
    assert_eq!(m.iam_scope(), None);
}

#[test]
fn path_roles_keep_first_occurrence_order_without_duplicates() {
    let m = XccuteCommandPolicyMetadata::new()
        .with_path_role("source")
        .with_path_role("dest")
        .with_path_role("source")
        .with_path_role("dest");
    assert_eq!(roles(&m), vec!["source", "dest"]);
}

#[test]
fn merge_combines_each_field() {
    let a = XccuteCommandPolicyMetadata::new()
        .with_iam_scope("a-scope")
        .with_path_role("source")
        .with_path_role("shared");
    let b = XccuteCommandPolicyMetadata::new()
        .sensitive()
        .with_requires_sudo(true)
        .with_path_role("shared")
        .with_path_role("dest")
        .with_dry_run_default(false);
    let m = a.clone().merge(b.clone());
    assert!(m.is_sensitive());
    assert!(m.requires_sudo());
    assert_eq!(m.iam_scope(), Some("a-scope"));
    assert_eq!(roles(&m), vec!["source", "shared", "dest"]);
    assert!(!m.dry_run_default());

    let n = b.merge(a);
    assert_eq!(n.iam_scope(), Some("a-scope"));
    assert_eq!(roles(&n), vec!["shared", "dest", "source"]);
}

#[test]
fn merge_takes_the_scope_of_the_second_when_it_has_one() {
    let a = XccuteCommandPolicyMetadata::new().with_iam_scope("first");
    let b = XccuteCommandPolicyMetadata::new().with_iam_scope("second");
    assert_eq!(a.merge(b).iam_scope(), Some("second"));
}

#[test]
fn merge_with_default_is_identity_on_both_sides() {
    let m = XccuteCommandPolicyMetadata::new()
        .sensitive()
        .with_iam_scope("s")
        .with_path_role("x")
        .with_path_role("y")
        .with_dry_run_default(false);
    assert_eq!(m.clone().merge(XccuteCommandPolicyMetadata::new()), m);
    assert_eq!(XccuteCommandPolicyMetadata::new().merge(m.clone()), m);
}

#[test]
fn merge_is_associative_and_idempotent() {
    let a = XccuteCommandPolicyMetadata::new().with_path_role("x").with_iam_scope("a");
    let b = XccuteCommandPolicyMetadata::new().with_path_role("y").with_path_role("x").sensitive();
    let c = XccuteCommandPolicyMetadata::new()
        .with_path_role("z")
        .with_path_role("y")
        .with_requires_sudo(true);
    let left = a.clone().merge(b.clone()).merge(c.clone());
    let right = a.clone().merge(b.clone().merge(c.clone()));
    assert_eq!(left, right);
    assert_eq!(roles(&left), vec!["x", "y", "z"]);
    assert_eq!(b.clone().merge(b.clone()), b);
}

#[test]
fn adding_a_role_is_merging_a_single_role() {
    let m = XccuteCommandPolicyMetadata::new().with_path_role("a").with_dry_run_default(false);
    assert_eq!(
        m.clone().with_path_role("b"),
        m.clone().merge(XccuteCommandPolicyMetadata::new().with_path_role("b"))
    );
    assert_eq!(
        m.clone().with_path_role("a").with_path_role("a"),
        m.clone().with_path_role("a")
    );
}
