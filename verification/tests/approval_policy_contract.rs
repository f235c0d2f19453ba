use xccute_contract::{
    CommandApproval, CommandApprovalError, CommandPolicyError, CommandPolicyResult,
    CommandPreview, CommandPreviewPolicy, CommandValidationError, CommandValidationResult,
    CompositeShellCommand, ValidatedCommand, ValidatedCompositeShellCommand,
};

/// The characters of each argument, as the library's contracts see them.
fn texts(args: &Vec<String>) -> vstd::seq::Seq<vstd::seq::Seq<char>> {
    vstd::view::DeepView::deep_view(args)
}

#[derive(Default)]
struct PreviewCommand {
    args: Vec<String>,
}

impl CompositeShellCommand for PreviewCommand {
    fn arg_texts(&self) -> vstd::seq::Seq<vstd::seq::Seq<char>> {
        texts(&self.args)
    }

    fn program(&self) -> &str {
        "git"
    }

    fn push_args(&self, out: &mut Vec<String>) {
        out.extend(self.args.iter().cloned());
    }
}

impl ValidatedCommand for PreviewCommand {}

struct InvalidPreviewCommand;

impl CompositeShellCommand for InvalidPreviewCommand {
    fn arg_texts(&self) -> vstd::seq::Seq<vstd::seq::Seq<char>> {
        texts(&vec![String::from("delete"), String::from("target")])
    }

    fn program(&self) -> &str {
        "danger"
    }

    fn push_args(&self, out: &mut Vec<String>) {
        out.push(String::from("delete"));
        out.push(String::from("target"));
    }
}

impl ValidatedCommand for InvalidPreviewCommand {
    fn validate(&self) -> CommandValidationResult {
        Err(CommandValidationError::structural("delete requires explicit force")
            .with_field("delete")
            .with_rule("invalid_without"))
    }
}

struct ApprovingPolicy;

impl CommandPreviewPolicy for ApprovingPolicy {
    fn approve(&self, preview: &CommandPreview) -> CommandPolicyResult {
        assert_eq!(preview.program(), "git");
        Ok(CommandApproval::new("operator_ack", "james").with_reason("reviewed dry-run preview"))
    }
}

struct RejectingPolicy;

impl CommandPreviewPolicy for RejectingPolicy {
    fn approve(&self, preview: &CommandPreview) -> CommandPolicyResult {
        Err(CommandPolicyError::new(
            "operator_ack",
            &format!("refusing preview `{}`", preview.display()),
        ))
    }
}

#[test]
fn approved_preview_runs_validation_and_policy_before_receipt() {
    let cmd = PreviewCommand {
        args: vec![String::from("status"), String::from("--short")],
    };

    let receipt = cmd
        .approved_preview(&ApprovingPolicy)
        .expect("valid command should receive approval receipt");

    assert_eq!(receipt.preview().display(), "git status --short");
    assert_eq!(receipt.approval().policy(), "operator_ack");
    assert_eq!(receipt.approval().actor(), "james");
    assert_eq!(receipt.approval().reason(), Some("reviewed dry-run preview"));

    assert_eq!(receipt.preview().program(), "git");
    assert_eq!(
        receipt.preview().argv().iter().map(|a| a.as_str()).collect::<Vec<_>>(),
        vec!["status", "--short"]
    );
}

#[test]
fn approved_preview_returns_validation_error_before_policy_runs() {
    let error = InvalidPreviewCommand
        .approved_preview(&ApprovingPolicy)
        .expect_err("invalid command should fail before policy approval");

    match error {
        CommandApprovalError::Validation(error) => {
            assert_eq!(error.field(), Some("delete"));
            assert_eq!(error.rule(), Some("invalid_without"));
        }
        CommandApprovalError::Policy(_) => panic!("validation should run before policy approval"),
    }
}

#[test]
fn approved_preview_returns_policy_error_for_rejected_preview() {
    let cmd = PreviewCommand {
        args: vec![String::from("status"), String::from("--short")],
    };

    let error = cmd
        .approved_preview(&RejectingPolicy)
        .expect_err("policy should reject the otherwise valid preview");

    match error {
        CommandApprovalError::Policy(error) => {
            assert_eq!(error.policy(), "operator_ack");
            assert!(error.message().contains("git status --short"));
        }
        CommandApprovalError::Validation(_) => panic!("valid command should reach policy approval"),
    }
}
