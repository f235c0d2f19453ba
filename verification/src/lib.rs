//! The vocabulary a generated argv command implements: previews of
//! `program + argv`, validation errors, policy metadata and approvals.
//!
//! A command here is data, never a string handed to a shell. Validation runs
//! before anything is previewed or approved, and an approval policy hands
//! back a receipt that pairs the preview with the approval.
mod approval;
mod command;
pub mod error_laws;
pub mod command_laws;
mod metadata;
pub mod metadata_laws;
mod preview;
pub mod preview_laws;
mod roles;
mod text;
mod validation;

pub use approval::{
    policy_error_text, receipt_for_answer, with_reason_approval, ApprovalModel, CommandApproval,
    CommandApprovalError, CommandApprovalReceipt, CommandPolicyError, CommandPolicyResult,
    CommandPreviewPolicy, PolicyErrorModel, ReceiptModel,
};
pub use command::{
    approval_outcome, preview_after_validation, previews_command, status_accepted,
    validated_outcome, validation_returned, CompositeArgvPart, CompositeShellCommand,
    CompositeShellRoot, RootableCompositeSurface, RootableSubCommand,
    ValidatedCompositeShellCommand, XccuteArrangedCommand,
};
pub use metadata::{
    default_metadata, merge_metadata, metadata_wf, with_dry_run_default_metadata,
    with_iam_scope_metadata, with_path_role_metadata, with_requires_sudo_metadata,
    with_sensitive_metadata, PolicyMetadataModel, XccuteCommandPolicyMetadata,
    XccuteCommandSensitivity, XccutePolicyMetadata,
};
pub use preview::{
    args_text, display_line, display_of, preview_of, CommandPreview, PreviewModel,
    XccuteCommandArrangement,
};
pub use roles::{with_role, with_roles};
pub use text::{opt_str_text, opt_text, text_seq};
pub use validation::{
    kind_text, tag_text, validation_error_text, with_field_error, with_rule_error,
    CommandExecutionError, CommandValidationError, CommandValidationErrorKind, CommandValidationResult, ValidatedCommand, ValidationErrorModel,
};
