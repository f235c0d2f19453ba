//! Laws of validation errors, approvals and policy errors: what each builder
//! changes, and how the texts are made of their parts.
use vstd::prelude::*;

use crate::approval::{policy_error_text, with_reason_approval, ApprovalModel, PolicyErrorModel};
use crate::validation::{
    kind_text, validation_error_text, with_field_error, with_rule_error, ValidationErrorModel,
};

verus! {

/// Naming a field or a rule sets only that part of the error.
pub proof fn law_error_builders_change_only_their_part(e: ValidationErrorModel, name: Seq<char>)
    ensures
        with_field_error(e, name).field == Some(name),
        with_field_error(e, name).kind == e.kind,
        with_field_error(e, name).message == e.message,
        with_field_error(e, name).rule == e.rule,
        with_rule_error(e, name).rule == Some(name),
        with_rule_error(e, name).kind == e.kind,
        with_rule_error(e, name).message == e.message,
        with_rule_error(e, name).field == e.field,
{
}

/// The text of an error starts with its kind and message; naming the field
/// of an error with neither field nor rule appends `" [field=<name>]"`, and
/// naming the rule of an error with no rule appends `" [rule=<name>]"`.
pub proof fn law_error_text_parts(e: ValidationErrorModel, name: Seq<char>)
    ensures
        ({
            let head = kind_text(e.kind) + " validation failed: "@ + e.message;
            &&& head.len() <= validation_error_text(e).len()
            &&& validation_error_text(e).subrange(0, head.len() as int) == head
        }),
        e.field is None && e.rule is None ==> validation_error_text(with_field_error(e, name))
            == validation_error_text(e) + " [field="@ + name + "]"@,
        e.rule is None ==> validation_error_text(with_rule_error(e, name)) == validation_error_text(
            e,
        ) + " [rule="@ + name + "]"@,
{
    let head = kind_text(e.kind) + " validation failed: "@ + e.message;
    assert(validation_error_text(e).subrange(0, head.len() as int) =~= head);
    reveal_strlit(" [");
    reveal_strlit("field");
    reveal_strlit("rule");
    reveal_strlit("=");
    reveal_strlit(" [field=");
    reveal_strlit(" [rule=");
    assert(" [field="@ =~= " ["@ + "field"@ + "="@);
    assert(" [rule="@ =~= " ["@ + "rule"@ + "="@);
    if e.field is None && e.rule is None {
        assert(validation_error_text(with_field_error(e, name)) =~= validation_error_text(e)
            + " [field="@ + name + "]"@);
    }
    if e.rule is None {
        assert(validation_error_text(with_rule_error(e, name)) =~= validation_error_text(e)
            + " [rule="@ + name + "]"@);
    }
}

/// Recording a reason sets only the reason of an approval.
pub proof fn law_with_reason_changes_only_reason(a: ApprovalModel, reason: Seq<char>)
    ensures
        with_reason_approval(a, reason).reason == Some(reason),
        with_reason_approval(a, reason).policy == a.policy,
        with_reason_approval(a, reason).actor == a.actor,
{
}

/// The text of a policy error ends with its message, and holds the policy's
/// name between backquotes.
pub proof fn law_policy_error_text_parts(e: PolicyErrorModel)
    ensures
        e.message.len() <= policy_error_text(e).len(),
        policy_error_text(e).subrange(
            policy_error_text(e).len() - e.message.len(),
            policy_error_text(e).len() as int,
        ) == e.message,
        policy_error_text(e).subrange(0, ("policy `"@ + e.policy + "`"@).len() as int) == "policy `"@
            + e.policy + "`"@,
{
    let t = policy_error_text(e);
    assert(t.subrange(t.len() - e.message.len(), t.len() as int) =~= e.message);
    assert(t.subrange(0, ("policy `"@ + e.policy + "`"@).len() as int) =~= "policy `"@ + e.policy
        + "`"@) by {
        assert(t =~= ("policy `"@ + e.policy + "`"@) + " rejected command: "@ + e.message) by {
            reveal_strlit("` rejected command: ");
            reveal_strlit("`");
            reveal_strlit(" rejected command: ");
        }
    }
}

} // verus!
