use xccute_contract::{
    display_line, preview_after_validation, status_accepted, CommandPreview,
    CommandValidationError, CompositeShellCommand, XccuteArrangedCommand,
    XccuteCommandArrangement,
};

/// The characters of each argument, as the library's contracts see them.
fn texts(args: &Vec<String>) -> vstd::seq::Seq<vstd::seq::Seq<char>> {
    vstd::view::DeepView::deep_view(args)
}

struct Bare;

impl CompositeShellCommand for Bare {
    fn arg_texts(&self) -> vstd::seq::Seq<vstd::seq::Seq<char>> {
        texts(&Vec::new())
    }

    fn program(&self) -> &str {
        "ls"
    }

    fn push_args(&self, _out: &mut Vec<String>) {}
}

struct Picky;

impl CompositeShellCommand for Picky {
    fn arg_texts(&self) -> vstd::seq::Seq<vstd::seq::Seq<char>> {
        texts(&vec![String::from("-q")])
    }

    fn program(&self) -> &str {
        "grep"
    }

    fn push_args(&self, out: &mut Vec<String>) {
        out.push(String::from("-q"));
    }

    fn keeps_default_ok_codes(&self) -> bool {
        false
    }

    fn ok_codes(&self) -> &'static [i32] {
        &[0, 1]
    }
}

#[test]
fn preview_without_arguments_displays_the_program_alone() {
    let preview = CommandPreview::new(String::from("ls"), Vec::new());
    assert_eq!(preview.display(), "ls");
    assert!(preview.argv().is_empty());
    assert_eq!(Bare.build_display(), "ls");
    assert_eq!(Bare.preview(), preview);
}

#[test]
fn display_keeps_arguments_verbatim_and_space_separated() {
    let preview = CommandPreview::new(
        String::from("echo"),
        vec![String::from("a b"), String::new(), String::from("c")],
    );
    assert_eq!(preview.display(), "echo a b  c");
    assert_eq!(preview.argv().len(), 3);
    assert_eq!(
        display_line("echo", &[String::from("x"), String::from("y")]),
        "echo x y"
    );
}

#[test]
fn into_parts_gives_back_what_was_given() {
    let preview = CommandPreview::new(String::from("git"), vec![String::from("log")]);
    let copy = preview.clone();
    assert_eq!(copy, preview);
    let (program, argv, display) = preview.into_parts();
    assert_eq!(program, "git");
    assert_eq!(argv, vec![String::from("log")]);
    assert_eq!(display, "git log");
}

#[test]
fn arrangement_wraps_the_preview() {
    let arrangement =
        XccuteCommandArrangement::new(String::from("git"), vec![String::from("push")]);
    assert_eq!(arrangement.program(), "git");
    assert_eq!(arrangement.argv(), &[String::from("push")]);
    assert_eq!(arrangement.display(), "git push");
    assert_eq!(arrangement.clone(), arrangement);
    let preview = arrangement.preview().clone();
    assert_eq!(XccuteCommandArrangement::from_preview(preview.clone()), arrangement);
    assert_eq!(arrangement.into_preview(), preview);
    assert_eq!(Picky.arrange().display(), "grep -q");
}

#[test]
fn exit_status_acceptance() {
    assert!(Bare.accept_status(Some(0), true));
    assert!(!Bare.accept_status(Some(1), false));
    assert!(Bare.accept_status(None, true));
    assert!(!Bare.accept_status(None, false));
    assert_eq!(Bare.ok_codes(), &[0]);
    assert!(Picky.accept_status(Some(1), false));
    assert!(!Picky.accept_status(Some(2), false));
    assert!(status_accepted(&[3, 7], Some(7), false));
    assert!(!status_accepted(&[], Some(0), true));
    assert!(!status_accepted(&[0], None, false));
}

#[test]
fn preview_after_validation_keeps_the_error_or_previews() {
    let ok = preview_after_validation(Ok(()), "git", vec![String::from("fetch")]).unwrap();
    assert_eq!(ok.display(), "git fetch");
    let error = CommandValidationError::structural("nope").with_field("f");
    let err = preview_after_validation(Err(error.clone()), "git", Vec::new()).unwrap_err();
    assert_eq!(err, error);
}
