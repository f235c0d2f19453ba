//! Approvals of a validated preview by a policy or an operator, the receipt
//! that pairs them, and the errors on the way there.
use vstd::prelude::*;

use crate::preview::{CommandPreview, PreviewModel};
use crate::text::{opt_as_str, opt_str_text, opt_text};
use crate::validation::{validation_error_text, CommandValidationError};

verus! {

/// What a `CommandApproval` holds, as plain values.
pub struct ApprovalModel {
    pub policy: Seq<char>,
    pub actor: Seq<char>,
    pub reason: Option<Seq<char>>,
}

/// `a` with the reason `reason` recorded.
pub open spec fn with_reason_approval(a: ApprovalModel, reason: Seq<char>) -> ApprovalModel {
    ApprovalModel { reason: Some(reason), ..a }
}

/// A positive policy/operator approval attached to a command preview. It
/// records who or what policy allowed the preview to proceed.
#[derive(Debug, PartialEq, Eq)]
pub struct CommandApproval {
    policy: String,
    actor: String,
    reason: Option<String>,
}

impl View for CommandApproval {
    type V = ApprovalModel;

    closed spec fn view(&self) -> ApprovalModel {
        ApprovalModel { policy: self.policy@, actor: self.actor@, reason: opt_text(self.reason) }
    }
}

impl Clone for CommandApproval {
    fn clone(&self) -> (r: Self)
        ensures
            r@ == self@,
    {
        CommandApproval {
            policy: self.policy.clone(),
            actor: self.actor.clone(),
            reason: self.reason.clone(),
        }
    }
}

impl CommandApproval {
    /// An approval by `actor` under `policy`, with no reason given.
    pub fn new(policy: &str, actor: &str) -> (r: Self)
        ensures
            r@ == (ApprovalModel { policy: policy@, actor: actor@, reason: None }),
    {
        CommandApproval { policy: policy.to_owned(), actor: actor.to_owned(), reason: None }
    }

    /// Records the reason for the approval.
    pub fn with_reason(self, reason: &str) -> (r: Self)
        ensures
            r@ == with_reason_approval(self@, reason@),
            r@ == (ApprovalModel { reason: Some(reason@), ..self@ }),
    {
        let mut r = self;
        r.reason = Some(reason.to_owned());
        r
    }

    pub fn policy(&self) -> (r: &str)
        ensures
            r@ == self@.policy,
    {
        self.policy.as_str()
    }

    pub fn actor(&self) -> (r: &str)
        ensures
            r@ == self@.actor,
    {
        self.actor.as_str()
    }

    pub fn reason(&self) -> (r: Option<&str>)
        ensures
            opt_str_text(r) == self@.reason,
    {
        opt_as_str(&self.reason)
    }
}

/// What a `CommandApprovalReceipt` holds, as plain values.
pub struct ReceiptModel {
    pub preview: PreviewModel,
    pub approval: ApprovalModel,
}

/// A preview that has passed validation and an approval policy.
#[derive(Debug, PartialEq, Eq)]
pub struct CommandApprovalReceipt {
    preview: CommandPreview,
    approval: CommandApproval,
}

impl View for CommandApprovalReceipt {
    type V = ReceiptModel;

    closed spec fn view(&self) -> ReceiptModel {
        ReceiptModel { preview: self.preview@, approval: self.approval@ }
    }
}

impl Clone for CommandApprovalReceipt {
    fn clone(&self) -> (r: Self)
        ensures
            r@ == self@,
    {
        CommandApprovalReceipt { preview: self.preview.clone(), approval: self.approval.clone() }
    }
}

impl CommandApprovalReceipt {
    pub fn new(preview: CommandPreview, approval: CommandApproval) -> (r: Self)
        ensures
            r@ == (ReceiptModel { preview: preview@, approval: approval@ }),
    {
        CommandApprovalReceipt { preview, approval }
    }

    pub fn preview(&self) -> (r: &CommandPreview)
        ensures
            r@ == self@.preview,
    {
        &self.preview
    }

    pub fn approval(&self) -> (r: &CommandApproval)
        ensures
            r@ == self@.approval,
    {
        &self.approval
    }

    pub fn into_parts(self) -> (r: (CommandPreview, CommandApproval))
        ensures
            r.0@ == self@.preview,
            r.1@ == self@.approval,
    {
        (self.preview, self.approval)
    }
}

/// What a `CommandPolicyError` holds, as plain values.
pub struct PolicyErrorModel {
    pub policy: Seq<char>,
    pub message: Seq<char>,
}

/// `"policy `<policy>` rejected command: <message>"`.
pub open spec fn policy_error_text(e: PolicyErrorModel) -> Seq<char> {
    "policy `"@ + e.policy + "` rejected command: "@ + e.message
}

/// Error returned when a preview is rejected by a policy/operator gate.
#[derive(Debug, PartialEq, Eq)]
pub struct CommandPolicyError {
    policy: String,
    message: String,
}

impl View for CommandPolicyError {
    type V = PolicyErrorModel;

    closed spec fn view(&self) -> PolicyErrorModel {
        PolicyErrorModel { policy: self.policy@, message: self.message@ }
    }
}

impl Clone for CommandPolicyError {
    fn clone(&self) -> (r: Self)
        ensures
            r@ == self@,
    {
        CommandPolicyError { policy: self.policy.clone(), message: self.message.clone() }
    }
}

impl CommandPolicyError {
    pub fn new(policy: &str, message: &str) -> (r: Self)
        ensures
            r@ == (PolicyErrorModel { policy: policy@, message: message@ }),
    {
        CommandPolicyError { policy: policy.to_owned(), message: message.to_owned() }
    }

    pub fn policy(&self) -> (r: &str)
        ensures
            r@ == self@.policy,
    {
        self.policy.as_str()
    }

    pub fn message(&self) -> (r: &str)
        ensures
            r@ == self@.message,
    {
        self.message.as_str()
    }

    /// The human-readable text of the error (see `policy_error_text`).
    pub fn display_text(&self) -> (r: String)
        ensures
            r@ == policy_error_text(self@),
    {
        let mut out = String::new();
        out.append("policy `");
        out.append(self.policy.as_str());
        out.append("` rejected command: ");
        out.append(self.message.as_str());
        out
    }
}

/// Result returned by a policy/operator gate.
pub type CommandPolicyResult = Result<CommandApproval, CommandPolicyError>;

/// Policy hook that approves or rejects a validated command preview. It
/// receives the no-side-effect preview, not a shell string.
pub trait CommandPreviewPolicy {
    fn approve(&self, preview: &CommandPreview) -> CommandPolicyResult;
}

/// Error returned while trying to produce an approved preview receipt.
#[derive(Debug)]
pub enum CommandApprovalError {
    Validation(CommandValidationError),
    Policy(CommandPolicyError),
}

impl CommandApprovalError {
    /// The human-readable text of the error it holds.
    pub fn display_text(&self) -> (r: String)
        ensures
            match self {
                CommandApprovalError::Validation(e) => r@ == validation_error_text(e@),
                CommandApprovalError::Policy(e) => r@ == policy_error_text(e@),
            },
    {
        match self {
            CommandApprovalError::Validation(error) => error.display_text(),
            CommandApprovalError::Policy(error) => error.display_text(),
        }
    }
}

impl From<CommandValidationError> for CommandApprovalError {
    fn from(error: CommandValidationError) -> (r: Self) {
        CommandApprovalError::Validation(error)
    }
}

impl vstd::std_specs::convert::FromSpecImpl<CommandValidationError> for CommandApprovalError {
    open spec fn obeys_from_spec() -> bool {
        true
    }

    open spec fn from_spec(v: CommandValidationError) -> Self {
        CommandApprovalError::Validation(v)
    }
}

impl From<CommandPolicyError> for CommandApprovalError {
    fn from(error: CommandPolicyError) -> (r: Self) {
        CommandApprovalError::Policy(error)
    }
}

impl vstd::std_specs::convert::FromSpecImpl<CommandPolicyError> for CommandApprovalError {
    open spec fn obeys_from_spec() -> bool {
        true
    }

    open spec fn from_spec(v: CommandPolicyError) -> Self {
        CommandApprovalError::Policy(v)
    }
}

/// The outcome of asking a policy about `preview`, given its answer: the
/// receipt of `preview` with the approval, or the rejection as a policy
/// error.
pub fn receipt_for_answer(preview: CommandPreview, answer: CommandPolicyResult) -> (r: Result<
    CommandApprovalReceipt,
    CommandApprovalError,
>)
    ensures
        match answer {
            Ok(approval) => r matches Ok(receipt) && receipt@ == (ReceiptModel {
                preview: preview@,
                approval: approval@,
            }),
            Err(rejection) => r matches Err(CommandApprovalError::Policy(e)) && e == rejection,
        },
{
    match answer {
        Ok(approval) => Ok(CommandApprovalReceipt::new(preview, approval)),
        Err(rejection) => Err(CommandApprovalError::Policy(rejection)),
    }
}

} // verus!
