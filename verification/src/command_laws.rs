//! Laws of the validated path: for a command whose `program()` and
//! `validate()` give the same answer each time, and a policy that gives the
//! same answer for the same preview, the validated preview is the command's
//! preview, and the approval outcome follows validation, then the policy.
use vstd::prelude::*;

use crate::approval::{
    CommandApproval, CommandApprovalError, CommandApprovalReceipt, CommandPolicyError,
    CommandPolicyResult, CommandPreviewPolicy, ReceiptModel,
};
use crate::command::{
    approval_outcome, validated_outcome, validation_returned, CompositeShellCommand,
};
use crate::preview::CommandPreview;
use crate::validation::{CommandValidationError, CommandValidationResult, ValidatedCommand};

verus! {

/// `program()` of `command` always returns the same text.
pub open spec fn program_is_stable<C: CompositeShellCommand>(command: &C) -> bool {
    forall|a: &str, b: &str|
        #![trigger call_ensures(C::program, (command,), a), call_ensures(C::program, (command,), b)]
        call_ensures(C::program, (command,), a) && call_ensures(C::program, (command,), b) ==> a@
            == b@
}

/// `validate()` of `command` always returns `validation`.
pub open spec fn validation_is<C: ValidatedCommand>(command: &C, validation: CommandValidationResult) -> bool {
    forall|v: CommandValidationResult| #[trigger]
        validation_returned(command, v) ==> v == validation
}

/// `policy` answers `answer` for every preview with the view of `preview`.
pub open spec fn policy_answers<P: CommandPreviewPolicy>(
    policy: &P,
    preview: CommandPreview,
    answer: CommandPolicyResult,
) -> bool {
    forall|q: CommandPreview, a: CommandPolicyResult| #[trigger]
        call_ensures(P::approve, (policy, &q), a) && q@ == preview@ ==> a == answer
}

/// The validated preview of a command is its preview when validation passes,
/// and the validation error otherwise.
pub proof fn law_validated_preview_is_preview<C: CompositeShellCommand + ValidatedCommand>(
    command: &C,
    validation: CommandValidationResult,
    outcome: Result<CommandPreview, CommandValidationError>,
    preview: CommandPreview,
)
    requires
        program_is_stable(command),
        validation_is(command, validation),
        validation_returned(command, validation),
        validated_outcome(command, outcome),
        call_ensures(C::preview, (command,), preview),
    ensures
        match validation {
            Ok(()) => outcome matches Ok(p) && p@ == preview@,
            Err(e) => outcome == Err::<CommandPreview, CommandValidationError>(e),
        },
{
    match outcome {
        Ok(p) => {
            assert(validation_returned(command, Ok(())));
            let u: () = validation->Ok_0;
            assert(u == ());
        },
        Err(e) => {
            assert(validation_returned(command, Err(e)));
        },
    }
}

/// Approval follows validation, then the policy: a validation error comes
/// back as it is; otherwise the policy's answer about the command's preview
/// decides, an approval giving the receipt of that preview with it and a
/// rejection coming back as a policy error.
pub proof fn law_approved_preview_outcome<C: CompositeShellCommand + ValidatedCommand, P: CommandPreviewPolicy>(
    command: &C,
    policy: &P,
    validation: CommandValidationResult,
    preview: CommandPreview,
    answer: CommandPolicyResult,
    outcome: Result<CommandApprovalReceipt, CommandApprovalError>,
)
    requires
        program_is_stable(command),
        validation_is(command, validation),
        validation_returned(command, validation),
        call_ensures(C::preview, (command,), preview),
        policy_answers(policy, preview, answer),
        approval_outcome(command, policy, outcome),
    ensures
        match validation {
            Err(e) => outcome matches Err(CommandApprovalError::Validation(e2)) && e2 == e,
            Ok(()) => match answer {
                Ok(a) => outcome matches Ok(receipt) && receipt@ == (ReceiptModel {
                    preview: preview@,
                    approval: a@,
                }),
                Err(rejection) => outcome matches Err(CommandApprovalError::Policy(e2)) && e2
                    == rejection,
            },
        },
{
    match outcome {
        Ok(receipt) => {
            assert(validation_returned(command, Ok(())));
            let (p, a) = choose|p: CommandPreview, a: CommandApproval|
                #![trigger call_ensures(P::approve, (policy, &p), Ok::<CommandApproval, CommandPolicyError>(a))]
                crate::command::previews_command(command, p@) && call_ensures(
                    P::approve,
                    (policy, &p),
                    Ok::<CommandApproval, CommandPolicyError>(a),
                ) && receipt@ == (ReceiptModel { preview: p@, approval: a@ });
            assert(p@ == preview@);
            assert(Ok::<CommandApproval, CommandPolicyError>(a) == answer);
            let u: () = validation->Ok_0;
            assert(u == ());
        },
        Err(CommandApprovalError::Validation(e)) => {
            assert(validation_returned(command, Err(e)));
        },
        Err(CommandApprovalError::Policy(e)) => {
            assert(validation_returned(command, Ok(())));
            let p = choose|p: CommandPreview|
                #![trigger call_ensures(P::approve, (policy, &p), Err::<CommandApproval, CommandPolicyError>(e))]
                crate::command::previews_command(command, p@) && call_ensures(
                    P::approve,
                    (policy, &p),
                    Err::<CommandApproval, CommandPolicyError>(e),
                );
            assert(p@ == preview@);
            assert(Err::<CommandApproval, CommandPolicyError>(e) == answer);
            let u: () = validation->Ok_0;
            assert(u == ());
        },
    }
}

} // verus!
