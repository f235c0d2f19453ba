use xccute_contract::{
    receipt_for_answer, CommandApproval, CommandApprovalError, CommandApprovalReceipt,
    CommandExecutionError, CommandPolicyError, CommandPreview, CommandValidationError,
    CommandValidationErrorKind,
};

#[test]
fn kinds_display_their_names() {
    assert_eq!(CommandValidationErrorKind::StructuralRule.as_str(), "structural");
    assert_eq!(CommandValidationErrorKind::RuntimePreflight.as_str(), "runtime_preflight");
    assert_eq!(CommandValidationErrorKind::Custom.as_str(), "custom");
}

#[test]
fn validation_error_text_omits_absent_field_and_rule() {
    let e = CommandValidationError::structural("bad");
    assert_eq!(e.field(), None);
    assert_eq!(e.rule(), None);
    assert_eq!(e.display_text(), "structural validation failed: bad");
    let e = CommandValidationError::custom("hook").with_rule("validate_with");
    assert_eq!(e.display_text(), "custom validation failed: hook [rule=validate_with]");
    let e = CommandValidationError::new(CommandValidationErrorKind::RuntimePreflight, "m")
        .with_field("f");
    assert_eq!(e.kind(), &CommandValidationErrorKind::RuntimePreflight);
    assert_eq!(e.display_text(), "runtime_preflight validation failed: m [field=f]");
}

#[test]
fn policy_error_text_names_policy_and_message() {
    let e = CommandPolicyError::new("prod_guard", "no deploys on friday");
    assert_eq!(e.policy(), "prod_guard");
    assert_eq!(e.message(), "no deploys on friday");
    assert_eq!(
        e.display_text(),
        "policy `prod_guard` rejected command: no deploys on friday"
    );
}

#[test]
fn approval_without_reason_and_receipt_parts() {
    let approval = CommandApproval::new("auto", "ci");
    assert_eq!(approval.reason(), None);
    let preview = CommandPreview::new(String::from("make"), vec![String::from("test")]);
    let receipt = CommandApprovalReceipt::new(preview.clone(), approval.clone());
    assert_eq!(receipt.preview(), &preview);
    assert_eq!(receipt.approval(), &approval);
    let (p, a) = receipt.into_parts();
    assert_eq!(p, preview);
    assert_eq!(a, approval);
}

#[test]
fn receipt_for_answer_wraps_approval_or_rejection() {
    let preview = CommandPreview::new(String::from("make"), Vec::new());
    let approval = CommandApproval::new("auto", "ci").with_reason("green");
    let receipt = receipt_for_answer(preview.clone(), Ok(approval.clone())).unwrap();
    assert_eq!(receipt.preview(), &preview);
    assert_eq!(receipt.approval(), &approval);

    let rejection = CommandPolicyError::new("auto", "red");
    match receipt_for_answer(preview, Err(rejection.clone())) {
        Err(CommandApprovalError::Policy(e)) => assert_eq!(e, rejection),
        _ => panic!("expected the rejection"),
    }
}

#[test]
fn approval_errors_convert_and_display() {
    let v = CommandValidationError::structural("x").with_field("f");
    let e = CommandApprovalError::from(v.clone());
    assert_eq!(e.display_text(), v.display_text());
    assert!(matches!(e, CommandApprovalError::Validation(ref inner) if *inner == v));

    let p = CommandPolicyError::new("p", "m");
    let e = CommandApprovalError::from(p.clone());
    assert_eq!(e.display_text(), "policy `p` rejected command: m");
    assert!(matches!(e, CommandApprovalError::Policy(ref inner) if *inner == p));
}

#[test]
fn execution_errors_convert_and_display() {
    let v = CommandValidationError::custom("no");
    let e = CommandExecutionError::from(v.clone());
    assert_eq!(e.display_text(), "custom validation failed: no");

    let io = std::io::Error::new(std::io::ErrorKind::NotFound, "missing binary");
    let e = CommandExecutionError::from(io);
    assert!(matches!(e, CommandExecutionError::Io(_)));
    assert_eq!(e.display_text(), "missing binary");
}
