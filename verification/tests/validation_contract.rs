use xccute_contract::{
    CommandExecutionError, CommandValidationError, CommandValidationErrorKind,
    CommandValidationResult, CompositeShellCommand, ValidatedCommand,
    ValidatedCompositeShellCommand,
};

/// The characters of each argument, as the library's contracts see them.
fn texts(args: &Vec<String>) -> vstd::seq::Seq<vstd::seq::Seq<char>> {
    vstd::view::DeepView::deep_view(args)
}

#[derive(Default)]
struct DummyCommand {
    args: Vec<String>,
}

impl CompositeShellCommand for DummyCommand {
    fn arg_texts(&self) -> vstd::seq::Seq<vstd::seq::Seq<char>> {
        texts(&self.args)
    }

    fn program(&self) -> &str {
        "dummy"
    }

    fn push_args(&self, out: &mut Vec<String>) {
        out.extend(self.args.iter().cloned());
    }
}

impl ValidatedCommand for DummyCommand {}

struct FailingCommand;

impl CompositeShellCommand for FailingCommand {
    fn arg_texts(&self) -> vstd::seq::Seq<vstd::seq::Seq<char>> {
        texts(&vec![String::from("delete"), String::from("target")])
    }

    fn program(&self) -> &str {
        "danger"
    }

    fn push_args(&self, out: &mut Vec<String>) {
        out.push(String::from("delete"));
        out.push(String::from("target"));
    }
}

impl ValidatedCommand for FailingCommand {
    fn validate(&self) -> CommandValidationResult {
        Err(CommandValidationError::structural("delete is invalid without force")
            .with_field("delete")
            .with_rule("invalid_without"))
    }
}

#[test]
fn validation_error_carries_kind_field_rule_and_message() {
    let error = CommandValidationError::runtime_preflight("source path does not exist")
        .with_field("source")
        .with_rule("path_exists");

    assert_eq!(error.kind(), &CommandValidationErrorKind::RuntimePreflight);
    assert_eq!(error.message(), "source path does not exist");
    assert_eq!(error.field(), Some("source"));
    assert_eq!(error.rule(), Some("path_exists"));
    assert_eq!(
        error.display_text(),
        "runtime_preflight validation failed: source path does not exist [field=source] [rule=path_exists]"
    );
}

#[test]
fn default_validated_command_is_noop_and_preserves_argv_safe_command_path() {
    let cmd = DummyCommand {
        args: vec![String::from("status"), String::from("--short")],
    };

    assert!(cmd.validate().is_ok());
    assert!(cmd.validated_preview().is_ok());
    assert_eq!(cmd.argv(), vec![String::from("status"), String::from("--short")]);
    assert_eq!(cmd.build_display(), "dummy status --short");
}

#[test]
fn validated_composite_command_blocks_invalid_command_before_execution() {
    let error = FailingCommand
        .validated_preview()
        .expect_err("structural validation should fail");

    assert_eq!(error.kind(), &CommandValidationErrorKind::StructuralRule);
    assert_eq!(error.field(), Some("delete"));
    assert_eq!(error.rule(), Some("invalid_without"));
}

#[test]
fn validation_errors_can_flow_into_validated_execution_error() {
    let error = CommandExecutionError::from(
        CommandValidationError::custom("custom hook rejected command").with_rule("validate_with"),
    );

    match error {
        CommandExecutionError::Validation(validation) => {
            assert_eq!(validation.kind(), &CommandValidationErrorKind::Custom);
            assert_eq!(validation.rule(), Some("validate_with"));
        }
        CommandExecutionError::Io(_) => panic!("expected validation error"),
    }
}
