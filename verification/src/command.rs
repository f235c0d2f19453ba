//! The traits a generated argv command implements. A command is data, never a
//! string handed to a shell: a root program named once, and arguments pushed
//! onto an argv.
use vstd::prelude::*;

use crate::approval::{
    receipt_for_answer, CommandApproval, CommandPolicyError, ReceiptModel, CommandApprovalError, CommandApprovalReceipt, CommandPreviewPolicy,
};
use crate::preview::{display_line, display_of, preview_of, CommandPreview, PreviewModel, XccuteCommandArrangement};
use crate::text::text_seq;
use crate::validation::{CommandValidationError, CommandValidationResult, ValidatedCommand};

verus! {

/// Root executable namespace: `Git` names `git`, `Docker` names `docker`.
pub trait CompositeShellRoot {
    fn program() -> &'static str;
}

/// A typed argv-producing piece of a composite command: `GitCommit` pushes
/// `commit -m ...`, `GitRemote` pushes `remote`.
pub trait CompositeArgvPart {
    fn push_argv_part(&self, out: &mut Vec<String>);
}

/// Final executable composite command: the trusted target is
/// `program + argv`, never a shell string.
///
/// An implementation names the arguments it passes by `arg_texts`, and
/// promises that `push_args` appends exactly those. An implementation that
/// overrides `ok_codes` says so by `keeps_default_ok_codes`. Nothing checks an
/// implementation written outside Verus against these promises.
pub trait CompositeShellCommand {
    /// The arguments the command passes to its program.
    spec fn arg_texts(&self) -> Seq<Seq<char>>;

    /// Whether the command accepts the default exit codes (only `0`).
    open spec fn keeps_default_ok_codes(&self) -> bool {
        true
    }

    fn program(&self) -> &str;

    /// Appends the command's arguments to `out`.
    fn push_args(&self, out: &mut Vec<String>)
        ensures
            text_seq(final(out)@) == text_seq(old(out)@) + self.arg_texts(),
    ;

    /// The arguments, pushed onto a fresh argv.
    fn argv(&self) -> (r: Vec<String>)
        ensures
            text_seq(r@) == self.arg_texts(),
    {
        let mut out: Vec<String> = Vec::new();
        self.push_args(&mut out);
        assert(text_seq(Seq::<String>::empty()) + self.arg_texts() =~= self.arg_texts());
        out
    }

    /// A no-side-effect preview of the command, for dry-run receipts, operator
    /// inspection, logging and acknowledgment before execution is allowed:
    /// the preview of `program()` with `argv()` (see `CommandPreview::new`).
    fn preview(&self) -> (r: CommandPreview)
        ensures
            exists|program: &str|
                #[trigger] call_ensures(Self::program, (self,), program) && r@ == preview_of(
                    program@,
                    self.arg_texts(),
                ),
    {
        let program = self.program();
        let argv = self.argv();
        let r = CommandPreview::new(program.to_owned(), argv);
        assert(call_ensures(Self::program, (self,), program));
        r
    }

    /// Human/debug display only, not the trusted execution path: the display
    /// line of `program()` with `argv()` (see `display_line`).
    fn build_display(&self) -> (r: String)
        ensures
            exists|program: &str|
                #[trigger] call_ensures(Self::program, (self,), program) && r@ == display_of(
                    program@,
                    self.arg_texts(),
                ),
    {
        let argv = self.argv();
        let program = self.program();
        let r = display_line(program, argv.as_slice());
        assert(call_ensures(Self::program, (self,), program));
        r
    }

    /// The exit codes this command accepts.
    fn ok_codes(&self) -> (r: &'static [i32])
        ensures
            self.keeps_default_ok_codes() ==> r@ == seq![0i32],
    {
        let codes: &'static [i32] = &[0];
        assert(codes@ == seq![0i32]);
        codes
    }

    /// Whether an exit status is acceptable: its code is one of `ok_codes`,
    /// or, where the process gave no code, it reported success (see
    /// `status_accepted`). With the default exit codes, a code is acceptable
    /// exactly when it is `0`.
    fn accept_status(&self, code: Option<i32>, success: bool) -> (r: bool)
        default_ensures
            match code {
                Some(c) => exists|codes: &'static [i32]|
                    #[trigger] call_ensures(Self::ok_codes, (self,), codes) && r == codes@.contains(c),
                None => r == success,
            },
            self.keeps_default_ok_codes() ==> r == match code {
                Some(c) => c == 0,
                None => success,
            },
    {
        let codes = self.ok_codes();
        let r = status_accepted(codes, code, success);
        assert(call_ensures(Self::ok_codes, (self,), codes));
        proof {
            if self.keeps_default_ok_codes() && code is Some {
                assert(codes@ == seq![0i32]);
                if code->Some_0 == 0 {
                    assert(codes@[0] == 0i32);
                }
            }
        }
        r
    }
}

/// `p` is the preview of a program that `command.program()` returns with the
/// command's arguments.
pub open spec fn previews_command<C: CompositeShellCommand + ?Sized>(command: &C, p: PreviewModel) -> bool {
    exists|program: &str|
        #[trigger] call_ensures(C::program, (command,), program) && p == preview_of(
            program@,
            command.arg_texts(),
        )
}

/// `validation` is a result that `command.validate()` returns.
pub open spec fn validation_returned<C: ValidatedCommand + ?Sized>(
    command: &C,
    validation: CommandValidationResult,
) -> bool {
    call_ensures(C::validate, (command,), validation)
}

/// What `validated_preview` returns: the preview of the command once
/// `validate()` returned `Ok`, or the error `validate()` returned.
pub open spec fn validated_outcome<C: CompositeShellCommand + ValidatedCommand>(
    command: &C,
    r: Result<CommandPreview, CommandValidationError>,
) -> bool {
    match r {
        Ok(p) => validation_returned(command, Ok(())) && previews_command(command, p@),
        Err(e) => validation_returned(command, Err(e)),
    }
}

/// What `approved_preview` returns: the error `validate()` returned; or, once
/// it returned `Ok`, the receipt of a preview of the command with an approval
/// that `policy` gave for it, or the rejection that `policy` gave for it.
pub open spec fn approval_outcome<C: CompositeShellCommand + ValidatedCommand, P: CommandPreviewPolicy>(
    command: &C,
    policy: &P,
    r: Result<CommandApprovalReceipt, CommandApprovalError>,
) -> bool {
    match r {
        Ok(receipt) => validation_returned(command, Ok(())) && exists|
            p: CommandPreview,
            a: CommandApproval,
        |
            #![trigger call_ensures(P::approve, (policy, &p), Ok::<CommandApproval, CommandPolicyError>(a))]
            previews_command(command, p@) && call_ensures(
                P::approve,
                (policy, &p),
                Ok::<CommandApproval, CommandPolicyError>(a),
            ) && receipt@ == (ReceiptModel { preview: p@, approval: a@ }),
        Err(CommandApprovalError::Validation(e)) => validation_returned(command, Err(e)),
        Err(CommandApprovalError::Policy(e)) => validation_returned(command, Ok(())) && exists|
            p: CommandPreview,
        |
            #![trigger call_ensures(P::approve, (policy, &p), Err::<CommandApproval, CommandPolicyError>(e))]
            previews_command(command, p@) && call_ensures(
                P::approve,
                (policy, &p),
                Err::<CommandApproval, CommandPolicyError>(e),
            ),
    }
}

/// Whether an exit status is acceptable under `ok_codes`: its code is one of
/// them, or, with no code, the process reported success.
pub fn status_accepted(ok_codes: &[i32], code: Option<i32>, success: bool) -> (r: bool)
    ensures
        r == match code {
            Some(c) => ok_codes@.contains(c),
            None => success,
        },
{
    match code {
        Some(c) => codes_contain(ok_codes, c),
        None => success,
    }
}

/// Whether `c` is one of `codes`.
fn codes_contain(codes: &[i32], c: i32) -> (r: bool)
    ensures
        r == codes@.contains(c),
{
    let n = codes.len();
    let mut i: usize = 0;
    while i < n
        invariant
            n == codes@.len(),
            0 <= i <= n,
            forall|j: int| 0 <= j < i ==> codes@[j] != c,
        decreases n - i,
    {
        if codes[i] == c {
            assert(codes@[i as int] == c);
            return true;
        }
        i = i + 1;
    }
    false
}

/// Composite commands that expose an arrangement. Every composite command
/// has one; it adds no execution.
pub trait XccuteArrangedCommand: CompositeShellCommand {
    /// The arrangement of the command's preview.
    fn arrange(&self) -> (r: XccuteCommandArrangement)
        ensures
            exists|program: &str|
                #[trigger] call_ensures(Self::program, (self,), program) && r@ == preview_of(
                    program@,
                    self.arg_texts(),
                ),
    {
        XccuteCommandArrangement::from_preview(self.preview())
    }
}

impl<T: CompositeShellCommand> XccuteArrangedCommand for T {
}

/// The outcome of validating a command, given what its validation returned
/// and its program and arguments: the validation error itself, or, when it
/// passed, the preview of the program with the arguments.
pub fn preview_after_validation(
    validation: CommandValidationResult,
    program: &str,
    argv: Vec<String>,
) -> (r: Result<CommandPreview, CommandValidationError>)
    ensures
        match validation {
            Ok(()) => r matches Ok(p) && p@ == preview_of(program@, text_seq(argv@)),
            Err(e) => r == Err::<CommandPreview, CommandValidationError>(e),
        },
{
    match validation {
        Ok(()) => Ok(CommandPreview::new(program.to_owned(), argv)),
        Err(e) => Err(e),
    }
}

/// Commands that are both argv-safe and validatable: nothing is previewed or
/// approved before validation passes.
pub trait ValidatedCompositeShellCommand: CompositeShellCommand + ValidatedCommand + Sized {
    /// Runs `validate` first; then the preview of `program()` with `argv()`
    /// if it passed, its error otherwise (see `preview_after_validation`).
    fn validated_preview(&self) -> (r: Result<CommandPreview, CommandValidationError>)
        ensures
            validated_outcome(self, r),
    {
        let validation = self.validate();
        let argv = self.argv();
        let program = self.program();
        let r = preview_after_validation(validation, program, argv);
        proof {
            if r is Ok {
                // the only unit value
                let u: () = validation->Ok_0;
                assert(u == ());
                assert(call_ensures(Self::program, (self,), program));
            }
        }
        r
    }

    /// Validates, then asks `policy` about the preview: the validation error
    /// (the policy is then not asked), or the outcome of the policy's answer
    /// for the validated preview (see `receipt_for_answer`).
    fn approved_preview<P: CommandPreviewPolicy>(&self, policy: &P) -> (r: Result<
        CommandApprovalReceipt,
        CommandApprovalError,
    >)
        ensures
            approval_outcome(self, policy, r),
    {
        match self.validated_preview() {
            Err(e) => Err(CommandApprovalError::Validation(e)),
            Ok(preview) => {
                let answer = policy.approve(&preview);
                let ghost p = preview;
                let r = receipt_for_answer(preview, answer);
                proof {
                    assert(call_ensures(P::approve, (policy, &p), answer));
                }
                r
            },
        }
    }
}

impl<T: CompositeShellCommand + ValidatedCommand> ValidatedCompositeShellCommand for T {
}

/// Bridge from a final subcommand fragment into a rooted executable command.
pub trait RootableSubCommand<R: CompositeShellRoot> {
    type Rooted: CompositeShellCommand;

    fn rooted(self) -> Self::Rooted;
}

/// Bridge from a composite subcommand surface into a rooted surface.
pub trait RootableCompositeSurface<R: CompositeShellRoot> {
    type RootedSurface;

    fn rooted_surface(self) -> Self::RootedSurface;
}

} // verus!
