//! Validation errors raised by a command builder before anything runs, and
//! the error of the validated execution path.
use vstd::prelude::*;

use crate::text::{opt_as_str, opt_str_text, opt_text};

verus! {

/// High-level category of a validation failure.
#[derive(Debug, Clone, Copy, PartialEq, Eq, Structural)]
pub enum CommandValidationErrorKind {
    /// A field relationship failed before runtime environment checks
    /// (`invalid_without`, `only_pair_with`, `conflicts_with`, ...).
    StructuralRule,
    /// A runtime environment or preflight check failed (a path exists, a
    /// source is a directory, an executable exists, a permission holds).
    RuntimePreflight,
    /// A user-provided validation function failed.
    Custom,
}

/// The name under which a kind is displayed.
pub open spec fn kind_text(kind: CommandValidationErrorKind) -> Seq<char> {
    match kind {
        CommandValidationErrorKind::StructuralRule => "structural"@,
        CommandValidationErrorKind::RuntimePreflight => "runtime_preflight"@,
        CommandValidationErrorKind::Custom => "custom"@,
    }
}

impl CommandValidationErrorKind {
    /// The name under which the kind is displayed.
    pub fn as_str(&self) -> (r: &'static str)
        ensures
            r@ == kind_text(*self),
    {
        match self {
            CommandValidationErrorKind::StructuralRule => "structural",
            CommandValidationErrorKind::RuntimePreflight => "runtime_preflight",
            CommandValidationErrorKind::Custom => "custom",
        }
    }
}

/// What a `CommandValidationError` holds, as plain values.
pub struct ValidationErrorModel {
    pub kind: CommandValidationErrorKind,
    pub message: Seq<char>,
    pub field: Option<Seq<char>>,
    pub rule: Option<Seq<char>>,
}

/// `e` naming the field `field`.
pub open spec fn with_field_error(e: ValidationErrorModel, field: Seq<char>) -> ValidationErrorModel {
    ValidationErrorModel { field: Some(field), ..e }
}

/// `e` naming the rule `rule`.
pub open spec fn with_rule_error(e: ValidationErrorModel, rule: Seq<char>) -> ValidationErrorModel {
    ValidationErrorModel { rule: Some(rule), ..e }
}

/// `" [<label>=<value>]"` for a present value, nothing for an absent one.
pub open spec fn tag_text(label: Seq<char>, value: Option<Seq<char>>) -> Seq<char> {
    match value {
        Some(v) => " ["@ + label + "="@ + v + "]"@,
        None => Seq::empty(),
    }
}

/// `"<kind> validation failed: <message>"`, then `" [field=<field>]"` and
/// `" [rule=<rule>]"` for those that are present.
pub open spec fn validation_error_text(e: ValidationErrorModel) -> Seq<char> {
    kind_text(e.kind) + " validation failed: "@ + e.message + tag_text("field"@, e.field)
        + tag_text("rule"@, e.rule)
}

/// Error returned when a command builder is invalid before execution. It
/// names the field and the rule that failed.
#[derive(Debug, PartialEq, Eq)]
pub struct CommandValidationError {
    kind: CommandValidationErrorKind,
    message: String,
    field: Option<String>,
    rule: Option<String>,
}

impl View for CommandValidationError {
    type V = ValidationErrorModel;

    closed spec fn view(&self) -> ValidationErrorModel {
        ValidationErrorModel {
            kind: self.kind,
            message: self.message@,
            field: opt_text(self.field),
            rule: opt_text(self.rule),
        }
    }
}

/// Appends `" [<label>=<value>]"` when `value` is present.
fn push_tag(out: &mut String, label: &str, value: &Option<String>)
    ensures
        final(out)@ == old(out)@ + tag_text(label@, opt_text(*value)),
{
    match value {
        Some(v) => {
            out.append(" [");
            out.append(label);
            out.append("=");
            out.append(v.as_str());
            out.append("]");
        },
        None => {
            assert(old(out)@ + Seq::<char>::empty() =~= old(out)@);
        },
    }
}

impl Clone for CommandValidationError {
    fn clone(&self) -> (r: Self)
        ensures
            r@ == self@,
    {
        CommandValidationError {
            kind: self.kind,
            message: self.message.clone(),
            field: self.field.clone(),
            rule: self.rule.clone(),
        }
    }
}

impl CommandValidationError {
    /// An error of the given kind, with no field and no rule.
    pub fn new(kind: CommandValidationErrorKind, message: &str) -> (r: Self)
        ensures
            r@ == (ValidationErrorModel { kind, message: message@, field: None, rule: None }),
    {
        CommandValidationError { kind, message: message.to_owned(), field: None, rule: None }
    }

    /// A structural error.
    pub fn structural(message: &str) -> (r: Self)
        ensures
            r@ == (ValidationErrorModel {
                kind: CommandValidationErrorKind::StructuralRule,
                message: message@,
                field: None,
                rule: None,
            }),
    {
        Self::new(CommandValidationErrorKind::StructuralRule, message)
    }

    /// A runtime preflight error.
    pub fn runtime_preflight(message: &str) -> (r: Self)
        ensures
            r@ == (ValidationErrorModel {
                kind: CommandValidationErrorKind::RuntimePreflight,
                message: message@,
                field: None,
                rule: None,
            }),
    {
        Self::new(CommandValidationErrorKind::RuntimePreflight, message)
    }

    /// A custom validation error.
    pub fn custom(message: &str) -> (r: Self)
        ensures
            r@ == (ValidationErrorModel {
                kind: CommandValidationErrorKind::Custom,
                message: message@,
                field: None,
                rule: None,
            }),
    {
        Self::new(CommandValidationErrorKind::Custom, message)
    }

    /// Names the field that failed.
    pub fn with_field(self, field: &str) -> (r: Self)
        ensures
            r@ == with_field_error(self@, field@),
            r@ == (ValidationErrorModel { field: Some(field@), ..self@ }),
    {
        let mut r = self;
        r.field = Some(field.to_owned());
        r
    }

    /// Names the rule that failed.
    pub fn with_rule(self, rule: &str) -> (r: Self)
        ensures
            r@ == with_rule_error(self@, rule@),
            r@ == (ValidationErrorModel { rule: Some(rule@), ..self@ }),
    {
        let mut r = self;
        r.rule = Some(rule.to_owned());
        r
    }

    pub fn kind(&self) -> (r: &CommandValidationErrorKind)
        ensures
            *r == self@.kind,
    {
        &self.kind
    }

    pub fn message(&self) -> (r: &str)
        ensures
            r@ == self@.message,
    {
        self.message.as_str()
    }

    pub fn field(&self) -> (r: Option<&str>)
        ensures
            opt_str_text(r) == self@.field,
    {
        opt_as_str(&self.field)
    }

    pub fn rule(&self) -> (r: Option<&str>)
        ensures
            opt_str_text(r) == self@.rule,
    {
        opt_as_str(&self.rule)
    }

    /// The human-readable text of the error (see `validation_error_text`).
    pub fn display_text(&self) -> (r: String)
        ensures
            r@ == validation_error_text(self@),
    {
        let mut out = String::new();
        out.append(self.kind.as_str());
        out.append(" validation failed: ");
        out.append(self.message.as_str());
        push_tag(&mut out, "field", &self.field);
        push_tag(&mut out, "rule", &self.rule);
        out
    }
}

/// Validation result for generated command builders.
pub type CommandValidationResult = Result<(), CommandValidationError>;

/// Implemented by generated commands that can validate before execution.
///
/// The default implementation accepts every command, so a simple command can
/// opt in before it has any validation rule.
pub trait ValidatedCommand {
    fn validate(&self) -> (r: CommandValidationResult)
        default_ensures
            r is Ok,
    {
        Ok(())
    }
}

#[verifier::external_type_specification]
#[verifier::external_body]
pub struct ExIoError(std::io::Error);

/// Error returned by the validated execution path.
#[derive(Debug)]
pub enum CommandExecutionError {
    Validation(CommandValidationError),
    Io(std::io::Error),
}

/// The text that `std::io::Error` displays.
///
/// Nothing is stated of the text: it is whatever the standard library
/// formats for the error.
#[verifier::external_body]
fn io_error_text(error: &std::io::Error) -> String {
    format!("{}", error)
}

impl CommandExecutionError {
    /// The human-readable text of the error: that of the validation error, or
    /// that of the I/O error.
    pub fn display_text(&self) -> (r: String)
        ensures
            self matches CommandExecutionError::Validation(e) ==> r@ == validation_error_text(
                e@,
            ),
    {
        match self {
            CommandExecutionError::Validation(error) => error.display_text(),
            CommandExecutionError::Io(error) => io_error_text(error),
        }
    }
}

impl From<CommandValidationError> for CommandExecutionError {
    fn from(error: CommandValidationError) -> (r: Self) {
        CommandExecutionError::Validation(error)
    }
}

impl vstd::std_specs::convert::FromSpecImpl<CommandValidationError> for CommandExecutionError {
    open spec fn obeys_from_spec() -> bool {
        true
    }

    open spec fn from_spec(v: CommandValidationError) -> Self {
        CommandExecutionError::Validation(v)
    }
}

impl From<std::io::Error> for CommandExecutionError {
    fn from(error: std::io::Error) -> (r: Self) {
        CommandExecutionError::Io(error)
    }
}

impl vstd::std_specs::convert::FromSpecImpl<std::io::Error> for CommandExecutionError {
    open spec fn obeys_from_spec() -> bool {
        true
    }

    open spec fn from_spec(v: std::io::Error) -> Self {
        CommandExecutionError::Io(v)
    }
}

} // verus!
