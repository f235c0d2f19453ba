use xccute_contract::{
    CommandPreview, CommandValidationError, CommandValidationErrorKind, CommandValidationResult,
    CompositeShellCommand, ValidatedCommand, ValidatedCompositeShellCommand,
};

/// The characters of each argument, as the library's contracts see them.
fn texts(args: &Vec<String>) -> vstd::seq::Seq<vstd::seq::Seq<char>> {
    vstd::view::DeepView::deep_view(args)
}

#[derive(Default)]
struct PreviewCommand {
    args: Vec<String>,
}

impl CompositeShellCommand for PreviewCommand {
    fn arg_texts(&self) -> vstd::seq::Seq<vstd::seq::Seq<char>> {
        texts(&self.args)
    }

    fn program(&self) -> &str {
        "git"
    }

    fn push_args(&self, out: &mut Vec<String>) {
        out.extend(self.args.iter().cloned());
    }
}

impl ValidatedCommand for PreviewCommand {}

struct InvalidPreviewCommand;

impl CompositeShellCommand for InvalidPreviewCommand {
    fn arg_texts(&self) -> vstd::seq::Seq<vstd::seq::Seq<char>> {
        texts(&vec![String::from("delete"), String::from("target")])
    }

    fn program(&self) -> &str {
        "danger"
    }

    fn push_args(&self, out: &mut Vec<String>) {
        out.push(String::from("delete"));
        out.push(String::from("target"));
    }
}

impl ValidatedCommand for InvalidPreviewCommand {
    fn validate(&self) -> CommandValidationResult {
        Err(CommandValidationError::structural("delete requires explicit force")
            .with_field("delete")
            .with_rule("invalid_without"))
    }
}

#[test]
fn command_preview_preserves_trusted_program_argv_and_debug_display() {
    let preview = CommandPreview::new(
        String::from("git"),
        vec![String::from("status"), String::from("--short")],
    );

    assert_eq!(preview.program(), "git");
    assert_eq!(
        preview.argv(),
        &[String::from("status"), String::from("--short")]
    );
    assert_eq!(preview.display(), "git status --short");
}

#[test]
fn composite_command_can_build_no_side_effect_preview() {
    let cmd = PreviewCommand {
        args: vec![String::from("remote"), String::from("-v")],
    };

    let preview = cmd.preview();

    assert_eq!(preview.program(), "git");
    assert_eq!(
        preview.argv(),
        &[String::from("remote"), String::from("-v")]
    );
    assert_eq!(preview.display(), "git remote -v");
}

#[test]
fn validated_preview_runs_validation_before_materializing_receipt() {
    let error = InvalidPreviewCommand
        .validated_preview()
        .expect_err("invalid command should not preview as acknowledged");

    assert_eq!(error.kind(), &CommandValidationErrorKind::StructuralRule);
    assert_eq!(error.field(), Some("delete"));
    assert_eq!(error.rule(), Some("invalid_without"));
}
