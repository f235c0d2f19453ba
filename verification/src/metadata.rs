//! Sidecar policy metadata attached beside a command arrangement.
//!
//! This is policy metadata only: it does not execute, wrap, or authorize a
//! command by itself.
use vstd::prelude::*;

use crate::roles::{lemma_with_role_no_duplicates, lemma_with_roles_no_duplicates, push_role, push_roles, with_role, with_roles};
use crate::text::{opt_as_str, opt_str_text, opt_text, opt_to_owned, text_seq};

verus! {

/// Sensitivity marker attached beside an argv-safe arrangement.
#[derive(Debug, Clone, Copy, PartialEq, Eq, Structural)]
pub enum XccuteCommandSensitivity {
    Normal,
    Sensitive,
}

impl Default for XccuteCommandSensitivity {
    fn default() -> (r: Self)
        ensures
            r == XccuteCommandSensitivity::Normal,
    {
        XccuteCommandSensitivity::Normal
    }
}

/// What a `XccuteCommandPolicyMetadata` holds, as plain values.
#[verifier::ext_equal]
pub struct PolicyMetadataModel {
    pub sensitivity: XccuteCommandSensitivity,
    pub requires_sudo: bool,
    pub iam_scope: Option<Seq<char>>,
    pub path_roles: Seq<Seq<char>>,
    pub dry_run_default: bool,
}

/// Every metadata value lists each path role once.
pub open spec fn metadata_wf(m: PolicyMetadataModel) -> bool {
    m.path_roles.no_duplicates()
}

/// The metadata that `new` and `default` give: normal sensitivity, no sudo,
/// no IAM scope, no path roles, dry run by default.
pub open spec fn default_metadata() -> PolicyMetadataModel {
    PolicyMetadataModel {
        sensitivity: XccuteCommandSensitivity::Normal,
        requires_sudo: false,
        iam_scope: None,
        path_roles: Seq::empty(),
        dry_run_default: true,
    }
}

/// `m` marked sensitive when `sensitive` holds, else `m` unchanged.
pub open spec fn with_sensitive_metadata(m: PolicyMetadataModel, sensitive: bool) -> PolicyMetadataModel {
    if sensitive {
        PolicyMetadataModel { sensitivity: XccuteCommandSensitivity::Sensitive, ..m }
    } else {
        m
    }
}

/// `m` with `role` added to its path roles, unless it is there already.
pub open spec fn with_path_role_metadata(m: PolicyMetadataModel, role: Seq<char>) -> PolicyMetadataModel {
    PolicyMetadataModel { path_roles: with_role(m.path_roles, role), ..m }
}

/// `m` with its sudo flag set to `requires_sudo`.
pub open spec fn with_requires_sudo_metadata(m: PolicyMetadataModel, requires_sudo: bool) -> PolicyMetadataModel {
    PolicyMetadataModel { requires_sudo, ..m }
}

/// `m` with its IAM scope set to `iam_scope` (cleared by `None`).
pub open spec fn with_iam_scope_metadata(m: PolicyMetadataModel, iam_scope: Option<Seq<char>>) -> PolicyMetadataModel {
    PolicyMetadataModel { iam_scope, ..m }
}

/// `m` with its dry-run default set to `dry_run_default`.
pub open spec fn with_dry_run_default_metadata(m: PolicyMetadataModel, dry_run_default: bool) -> PolicyMetadataModel {
    PolicyMetadataModel { dry_run_default, ..m }
}

/// `a` merged with `b`: sensitive if either is, sudo if either needs it, the
/// IAM scope of `b` where it has one (else that of `a`), the path roles of `a`
/// followed by those of `b` that `a` lacks, and dry run by default only if
/// both are.
pub open spec fn merge_metadata(a: PolicyMetadataModel, b: PolicyMetadataModel) -> PolicyMetadataModel {
    PolicyMetadataModel {
        sensitivity: if b.sensitivity == XccuteCommandSensitivity::Sensitive {
            XccuteCommandSensitivity::Sensitive
        } else {
            a.sensitivity
        },
        requires_sudo: a.requires_sudo || b.requires_sudo,
        iam_scope: if b.iam_scope is Some {
            b.iam_scope
        } else {
            a.iam_scope
        },
        path_roles: with_roles(a.path_roles, b.path_roles),
        dry_run_default: a.dry_run_default && b.dry_run_default,
    }
}

/// Sidecar policy metadata generated beside composite command arrangements.
///
/// It tells a planning layer which checks are required before a privileged
/// arrangement can be considered.
#[derive(Debug, PartialEq, Eq)]
pub struct XccuteCommandPolicyMetadata {
    sensitivity: XccuteCommandSensitivity,
    requires_sudo: bool,
    iam_scope: Option<String>,
    path_roles: Vec<String>,
    dry_run_default: bool,
}

impl View for XccuteCommandPolicyMetadata {
    type V = PolicyMetadataModel;

    closed spec fn view(&self) -> PolicyMetadataModel {
        PolicyMetadataModel {
            sensitivity: self.sensitivity,
            requires_sudo: self.requires_sudo,
            iam_scope: opt_text(self.iam_scope),
            path_roles: text_seq(self.path_roles@),
            dry_run_default: self.dry_run_default,
        }
    }
}

impl Clone for XccuteCommandPolicyMetadata {
    fn clone(&self) -> (r: Self)
        ensures
            r@ == self@,
    {
        proof {
            use_type_invariant(self);
        }
        let path_roles = self.path_roles.clone();
        assert(text_seq(path_roles@) =~= text_seq(self.path_roles@)) by {
            assert forall|i: int| 0 <= i < path_roles@.len() implies path_roles@[i] == self.path_roles@[i] by {
                assert(cloned::<String>(self.path_roles[i], path_roles[i]));
            }
        }
        let r = XccuteCommandPolicyMetadata {
            sensitivity: self.sensitivity,
            requires_sudo: self.requires_sudo,
            iam_scope: self.iam_scope.clone(),
            path_roles,
            dry_run_default: self.dry_run_default,
        };
        assert(r@ =~= self@);
        r
    }
}

impl Default for XccuteCommandPolicyMetadata {
    fn default() -> (r: Self)
        ensures
            r@ == default_metadata(),
    {
        let r = XccuteCommandPolicyMetadata {
            sensitivity: XccuteCommandSensitivity::Normal,
            requires_sudo: false,
            iam_scope: None,
            path_roles: Vec::new(),
            dry_run_default: true,
        };
        assert(r@ =~= default_metadata());
        r
    }
}

impl XccuteCommandPolicyMetadata {
    #[verifier::type_invariant]
    spec fn roles_unique(self) -> bool {
        text_seq(self.path_roles@).no_duplicates()
    }

    /// The same as `default`.
    pub fn new() -> (r: Self)
        ensures
            r@ == default_metadata(),
    {
        Self::default()
    }

    /// Marks the metadata sensitive.
    pub fn sensitive(self) -> (r: Self)
        ensures
            r@ == with_sensitive_metadata(self@, true),
            r@.sensitivity == XccuteCommandSensitivity::Sensitive,
            r@.requires_sudo == self@.requires_sudo,
            r@.iam_scope == self@.iam_scope,
            r@.path_roles == self@.path_roles,
            r@.dry_run_default == self@.dry_run_default,
            metadata_wf(r@),
    {
        self.with_sensitive(true)
    }

    /// Marks the metadata sensitive when `sensitive` holds; `false` leaves it
    /// as it was (it never clears the mark).
    pub fn with_sensitive(self, sensitive: bool) -> (r: Self)
        ensures
            r@ == with_sensitive_metadata(self@, sensitive),
            r@.sensitivity == (if sensitive {
                XccuteCommandSensitivity::Sensitive
            } else {
                self@.sensitivity
            }),
            r@.requires_sudo == self@.requires_sudo,
            r@.iam_scope == self@.iam_scope,
            r@.path_roles == self@.path_roles,
            r@.dry_run_default == self@.dry_run_default,
            metadata_wf(r@),
    {
        proof {
            use_type_invariant(&self);
        }
        let mut r = self;
        if sensitive {
            r.sensitivity = XccuteCommandSensitivity::Sensitive;
        }
        assert(r@ =~= with_sensitive_metadata(self@, sensitive));
        r
    }

    /// Sets whether the command requires sudo.
    pub fn with_requires_sudo(self, requires_sudo: bool) -> (r: Self)
        ensures
            r@ == with_requires_sudo_metadata(self@, requires_sudo),
            r@ == (PolicyMetadataModel { requires_sudo, ..self@ }),
            metadata_wf(r@),
    {
        proof {
            use_type_invariant(&self);
        }
        let mut r = self;
        r.requires_sudo = requires_sudo;
        assert(r@ =~= (PolicyMetadataModel { requires_sudo, ..self@ }));
        r
    }

    /// Sets the IAM scope.
    pub fn with_iam_scope(self, iam_scope: &str) -> (r: Self)
        ensures
            r@ == with_iam_scope_metadata(self@, Some(iam_scope@)),
            r@ == (PolicyMetadataModel { iam_scope: Some(iam_scope@), ..self@ }),
            metadata_wf(r@),
    {
        self.with_optional_iam_scope(Some(iam_scope))
    }

    /// Sets the IAM scope, or clears it with `None`.
    pub fn with_optional_iam_scope(self, iam_scope: Option<&str>) -> (r: Self)
        ensures
            r@ == with_iam_scope_metadata(self@, opt_str_text(iam_scope)),
            r@ == (PolicyMetadataModel { iam_scope: opt_str_text(iam_scope), ..self@ }),
            metadata_wf(r@),
    {
        proof {
            use_type_invariant(&self);
        }
        let mut r = self;
        r.iam_scope = opt_to_owned(iam_scope);
        assert(r@ =~= (PolicyMetadataModel { iam_scope: opt_str_text(iam_scope), ..self@ }));
        r
    }

    /// Adds a path role at the end, unless it is listed already.
    pub fn with_path_role(self, path_role: &str) -> (r: Self)
        ensures
            r@ == with_path_role_metadata(self@, path_role@),
            r@.sensitivity == self@.sensitivity,
            r@.requires_sudo == self@.requires_sudo,
            r@.iam_scope == self@.iam_scope,
            r@.dry_run_default == self@.dry_run_default,
            self@.path_roles.contains(path_role@) ==> r@.path_roles == self@.path_roles,
            !self@.path_roles.contains(path_role@) ==> r@.path_roles == self@.path_roles.push(
                path_role@,
            ),
            metadata_wf(r@),
    {
        proof {
            use_type_invariant(&self);
        }
        let XccuteCommandPolicyMetadata {
            sensitivity,
            requires_sudo,
            iam_scope,
            path_roles,
            dry_run_default,
        } = self;
        let path_roles = push_role(path_roles, path_role.to_owned());
        proof {
            lemma_with_role_no_duplicates(self@.path_roles, path_role@);
        }
        let r = XccuteCommandPolicyMetadata {
            sensitivity,
            requires_sudo,
            iam_scope,
            path_roles,
            dry_run_default,
        };
        assert(r@ =~= with_path_role_metadata(self@, path_role@));
        r
    }

    /// Sets whether the command runs as a dry run by default.
    pub fn with_dry_run_default(self, dry_run_default: bool) -> (r: Self)
        ensures
            r@ == with_dry_run_default_metadata(self@, dry_run_default),
            r@ == (PolicyMetadataModel { dry_run_default, ..self@ }),
            metadata_wf(r@),
    {
        proof {
            use_type_invariant(&self);
        }
        let mut r = self;
        r.dry_run_default = dry_run_default;
        assert(r@ =~= (PolicyMetadataModel { dry_run_default, ..self@ }));
        r
    }

    /// Merges `other` into this metadata (see `merge_metadata`).
    pub fn merge(self, other: Self) -> (r: Self)
        ensures
            r@ == merge_metadata(self@, other@),
            metadata_wf(r@),
    {
        proof {
            use_type_invariant(&self);
            use_type_invariant(&other);
        }
        let XccuteCommandPolicyMetadata {
            sensitivity,
            requires_sudo,
            iam_scope,
            path_roles,
            dry_run_default,
        } = self;
        let sensitivity = match other.sensitivity {
            XccuteCommandSensitivity::Sensitive => XccuteCommandSensitivity::Sensitive,
            XccuteCommandSensitivity::Normal => sensitivity,
        };
        let iam_scope = match other.iam_scope {
            Some(scope) => Some(scope),
            None => iam_scope,
        };
        let path_roles = push_roles(path_roles, &other.path_roles);
        proof {
            lemma_with_roles_no_duplicates(self@.path_roles, other@.path_roles);
        }
        let r = XccuteCommandPolicyMetadata {
            sensitivity,
            requires_sudo: requires_sudo || other.requires_sudo,
            iam_scope,
            path_roles,
            dry_run_default: dry_run_default && other.dry_run_default,
        };
        assert(r@ =~= merge_metadata(self@, other@));
        r
    }

    pub fn sensitivity(&self) -> (r: XccuteCommandSensitivity)
        ensures
            r == self@.sensitivity,
    {
        self.sensitivity
    }

    pub fn is_sensitive(&self) -> (r: bool)
        ensures
            r == (self@.sensitivity == XccuteCommandSensitivity::Sensitive),
    {
        match self.sensitivity {
            XccuteCommandSensitivity::Sensitive => true,
            XccuteCommandSensitivity::Normal => false,
        }
    }

    pub fn requires_sudo(&self) -> (r: bool)
        ensures
            r == self@.requires_sudo,
    {
        self.requires_sudo
    }

    pub fn iam_scope(&self) -> (r: Option<&str>)
        ensures
            opt_str_text(r) == self@.iam_scope,
    {
        opt_as_str(&self.iam_scope)
    }

    pub fn path_roles(&self) -> (r: &[String])
        ensures
            text_seq(r@) == self@.path_roles,
            r@.len() == self@.path_roles.len(),
    {
        self.path_roles.as_slice()
    }

    pub fn dry_run_default(&self) -> (r: bool)
        ensures
            r == self@.dry_run_default,
    {
        self.dry_run_default
    }
}

/// Sidecar trait for commands that expose planning metadata.
///
/// It stays separate from the composite command traits, so privileged
/// planning can ask for both without making the display path
/// security-critical.
pub trait XccutePolicyMetadata {
    fn xccute_policy(&self) -> XccuteCommandPolicyMetadata;
}

} // verus!
