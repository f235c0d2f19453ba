//! Laws of policy metadata: how merging and the builders relate.
use vstd::prelude::*;

use crate::metadata::{
    default_metadata, merge_metadata, metadata_wf, with_dry_run_default_metadata,
    with_iam_scope_metadata, with_path_role_metadata, with_requires_sudo_metadata,
    with_sensitive_metadata, PolicyMetadataModel, XccuteCommandSensitivity,
};
use crate::roles::{
    lemma_with_role_contains, lemma_with_roles_assoc, lemma_with_roles_contains,
    lemma_with_roles_from_empty, lemma_with_roles_prefix, lemma_with_roles_present, with_role,
    with_roles,
};

verus! {

/// Merging in the default metadata changes nothing.
pub proof fn law_merge_default_right(m: PolicyMetadataModel)
    ensures
        merge_metadata(m, default_metadata()) == m,
{
    assert(merge_metadata(m, default_metadata()) =~= m);
}

/// Merging any metadata into the default metadata gives that metadata.
pub proof fn law_merge_default_left(m: PolicyMetadataModel)
    requires
        metadata_wf(m),
    ensures
        merge_metadata(default_metadata(), m) == m,
{
    lemma_with_roles_from_empty(m.path_roles);
    assert(merge_metadata(default_metadata(), m) =~= m);
}

/// Merging is associative: the order in which merges are grouped does not
/// matter, only the order of the operands.
pub proof fn law_merge_associative(a: PolicyMetadataModel, b: PolicyMetadataModel, c: PolicyMetadataModel)
    ensures
        merge_metadata(merge_metadata(a, b), c) == merge_metadata(a, merge_metadata(b, c)),
{
    lemma_with_roles_assoc(a.path_roles, b.path_roles, c.path_roles);
    assert(merge_metadata(merge_metadata(a, b), c) =~= merge_metadata(a, merge_metadata(b, c)));
}

/// Merging metadata with itself changes nothing.
pub proof fn law_merge_idempotent(m: PolicyMetadataModel)
    ensures
        merge_metadata(m, m) == m,
{
    assert forall|i: int| 0 <= i < m.path_roles.len() implies m.path_roles.contains(
        #[trigger] m.path_roles[i],
    ) by {}
    lemma_with_roles_present(m.path_roles, m.path_roles);
    assert(merge_metadata(m, m) =~= m);
}

/// A merge keeps the path roles of the first operand, in order and in front,
/// lists a role exactly when one of the operands does, and lists none twice.
pub proof fn law_merge_path_roles(a: PolicyMetadataModel, b: PolicyMetadataModel, role: Seq<char>)
    requires
        metadata_wf(a),
    ensures
        merge_metadata(a, b).path_roles.subrange(0, a.path_roles.len() as int) == a.path_roles,
        merge_metadata(a, b).path_roles.contains(role) <==> (a.path_roles.contains(role)
            || b.path_roles.contains(role)),
        metadata_wf(merge_metadata(a, b)),
{
    lemma_with_roles_prefix(a.path_roles, b.path_roles);
    lemma_with_roles_contains(a.path_roles, b.path_roles, role);
    crate::roles::lemma_with_roles_no_duplicates(a.path_roles, b.path_roles);
}

/// Sensitivity, sudo and a disabled dry-run default are never lost by a merge:
/// the result is sensitive, needs sudo, or is not a dry run by default exactly
/// when one of the operands is or does.
pub proof fn law_merge_flags(a: PolicyMetadataModel, b: PolicyMetadataModel)
    ensures
        (merge_metadata(a, b).sensitivity == XccuteCommandSensitivity::Sensitive) <==> (a.sensitivity
            == XccuteCommandSensitivity::Sensitive || b.sensitivity
            == XccuteCommandSensitivity::Sensitive),
        merge_metadata(a, b).requires_sudo <==> (a.requires_sudo || b.requires_sudo),
        !merge_metadata(a, b).dry_run_default <==> (!a.dry_run_default || !b.dry_run_default),
        b.iam_scope is Some ==> merge_metadata(a, b).iam_scope == b.iam_scope,
        b.iam_scope is None ==> merge_metadata(a, b).iam_scope == a.iam_scope,
{
}

/// Adding a path role twice is the same as adding it once.
pub proof fn law_with_path_role_idempotent(m: PolicyMetadataModel, role: Seq<char>)
    ensures
        with_path_role_metadata(with_path_role_metadata(m, role), role) == with_path_role_metadata(
            m,
            role,
        ),
{
    lemma_with_role_contains(m.path_roles, role, role);
    assert(with_path_role_metadata(with_path_role_metadata(m, role), role)
        =~= with_path_role_metadata(m, role));
}

/// Adding a path role is merging in the default metadata with that one role.
pub proof fn law_with_path_role_is_merge(m: PolicyMetadataModel, role: Seq<char>)
    ensures
        with_path_role_metadata(m, role) == merge_metadata(
            m,
            with_path_role_metadata(default_metadata(), role),
        ),
{
    let single = with_role(Seq::<Seq<char>>::empty(), role);
    assert(!Seq::<Seq<char>>::empty().contains(role));
    assert(single =~= seq![role]);
    assert(single.last() == role);
    assert(single.drop_last() =~= Seq::<Seq<char>>::empty());
    assert(with_roles(m.path_roles, single.drop_last()) == m.path_roles);
    assert(with_roles(m.path_roles, single) == with_role(m.path_roles, role));
    assert(with_path_role_metadata(m, role) =~= merge_metadata(
        m,
        with_path_role_metadata(default_metadata(), role),
    ));
}

/// Marking metadata sensitive is merging in the default metadata marked
/// sensitive; marking it with `false` changes nothing.
pub proof fn law_with_sensitive_is_merge(m: PolicyMetadataModel, sensitive: bool)
    ensures
        with_sensitive_metadata(m, sensitive) == merge_metadata(
            m,
            with_sensitive_metadata(default_metadata(), sensitive),
        ),
        with_sensitive_metadata(m, false) == m,
{
    assert(with_sensitive_metadata(m, sensitive) =~= merge_metadata(
        m,
        with_sensitive_metadata(default_metadata(), sensitive),
    ));
}

/// Marking metadata sensitive changes only its sensitivity: the result is
/// sensitive when asked to be and keeps its sensitivity otherwise, and its
/// sudo flag, IAM scope, path roles and dry-run default are those it had.
pub proof fn law_with_sensitive_changes_only_sensitivity(m: PolicyMetadataModel, sensitive: bool)
    ensures
        sensitive ==> with_sensitive_metadata(m, sensitive).sensitivity
            == XccuteCommandSensitivity::Sensitive,
        !sensitive ==> with_sensitive_metadata(m, sensitive).sensitivity == m.sensitivity,
        with_sensitive_metadata(m, sensitive).requires_sudo == m.requires_sudo,
        with_sensitive_metadata(m, sensitive).iam_scope == m.iam_scope,
        with_sensitive_metadata(m, sensitive).path_roles == m.path_roles,
        with_sensitive_metadata(m, sensitive).dry_run_default == m.dry_run_default,
{
}

/// Adding a path role changes only the path roles: every role listed before
/// stays in its place, the new role is listed afterwards, no other role
/// appears, at most one entry is added, and the sensitivity, sudo flag, IAM
/// scope and dry-run default are those the metadata had.
pub proof fn law_with_path_role_changes_only_roles(
    m: PolicyMetadataModel,
    role: Seq<char>,
    other: Seq<char>,
)
    ensures
        with_path_role_metadata(m, role).sensitivity == m.sensitivity,
        with_path_role_metadata(m, role).requires_sudo == m.requires_sudo,
        with_path_role_metadata(m, role).iam_scope == m.iam_scope,
        with_path_role_metadata(m, role).dry_run_default == m.dry_run_default,
        m.path_roles.len() <= with_path_role_metadata(m, role).path_roles.len() <= m.path_roles.len()
            + 1,
        with_path_role_metadata(m, role).path_roles.subrange(0, m.path_roles.len() as int)
            == m.path_roles,
        with_path_role_metadata(m, role).path_roles.contains(role),
        with_path_role_metadata(m, role).path_roles.contains(other) <==> (m.path_roles.contains(
            other,
        ) || other == role),
        metadata_wf(m) ==> metadata_wf(with_path_role_metadata(m, role)),
{
    lemma_with_role_contains(m.path_roles, role, role);
    lemma_with_role_contains(m.path_roles, role, other);
    if metadata_wf(m) {
        crate::roles::lemma_with_role_no_duplicates(m.path_roles, role);
    }
    assert(with_path_role_metadata(m, role).path_roles.subrange(0, m.path_roles.len() as int)
        =~= m.path_roles);
}

/// Each setter sets its own field to the value given and leaves every other
/// field as it was.
pub proof fn law_setters_change_only_their_field(
    m: PolicyMetadataModel,
    flag: bool,
    scope: Option<Seq<char>>,
)
    ensures
        with_requires_sudo_metadata(m, flag).requires_sudo == flag,
        with_requires_sudo_metadata(m, flag).sensitivity == m.sensitivity,
        with_requires_sudo_metadata(m, flag).iam_scope == m.iam_scope,
        with_requires_sudo_metadata(m, flag).path_roles == m.path_roles,
        with_requires_sudo_metadata(m, flag).dry_run_default == m.dry_run_default,
        with_iam_scope_metadata(m, scope).iam_scope == scope,
        with_iam_scope_metadata(m, scope).sensitivity == m.sensitivity,
        with_iam_scope_metadata(m, scope).requires_sudo == m.requires_sudo,
        with_iam_scope_metadata(m, scope).path_roles == m.path_roles,
        with_iam_scope_metadata(m, scope).dry_run_default == m.dry_run_default,
        with_dry_run_default_metadata(m, flag).dry_run_default == flag,
        with_dry_run_default_metadata(m, flag).sensitivity == m.sensitivity,
        with_dry_run_default_metadata(m, flag).requires_sudo == m.requires_sudo,
        with_dry_run_default_metadata(m, flag).iam_scope == m.iam_scope,
        with_dry_run_default_metadata(m, flag).path_roles == m.path_roles,
{
}

/// The default metadata is normal, needs no sudo, has no IAM scope and no
/// path roles, and is a dry run by default.
pub proof fn law_default_metadata_fields()
    ensures
        default_metadata().sensitivity == XccuteCommandSensitivity::Normal,
        !default_metadata().requires_sudo,
        default_metadata().iam_scope is None,
        default_metadata().path_roles.len() == 0,
        default_metadata().dry_run_default,
        metadata_wf(default_metadata()),
{
}

} // verus!
