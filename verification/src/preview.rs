//! No-side-effect previews of a command: the trusted `program + argv`, and a
//! display line derived from them for humans and logs.
use vstd::prelude::*;

use crate::text::{lemma_text_seq_push, text_seq};

verus! {

/// The arguments as they follow the program on a display line: each one
/// preceded by a single space.
pub open spec fn args_text(argv: Seq<Seq<char>>) -> Seq<char>
    decreases argv.len(),
{
    if argv.len() == 0 {
        Seq::empty()
    } else {
        args_text(argv.drop_last()) + " "@ + argv.last()
    }
}

/// The display line of a command: the program and then the arguments,
/// separated by single spaces.
pub open spec fn display_of(program: Seq<char>, argv: Seq<Seq<char>>) -> Seq<char> {
    program + args_text(argv)
}

/// The display line of `program` with `argv` (see `display_of`).
pub fn display_line(program: &str, argv: &[String]) -> (r: String)
    ensures
        r@ == display_of(program@, text_seq(argv@)),
{
    let mut out = program.to_owned();
    let n = argv.len();
    let mut i: usize = 0;
    assert(out@ =~= program@ + args_text(text_seq(argv@).take(0)));
    while i < n
        invariant
            n == argv@.len(),
            0 <= i <= n,
            out@ == program@ + args_text(text_seq(argv@).take(i as int)),
        decreases n - i,
    {
        out.append(" ");
        out.append(argv[i].as_str());
        let ghost next = text_seq(argv@).take(i + 1);
        assert(next.drop_last() =~= text_seq(argv@).take(i as int));
        assert(next.last() == argv@[i as int]@);
        assert(out@ =~= program@ + args_text(next));
        i = i + 1;
    }
    assert(text_seq(argv@).take(n as int) =~= text_seq(argv@));
    out
}

/// What a `CommandPreview` holds, as plain values.
pub struct PreviewModel {
    pub program: Seq<char>,
    pub argv: Seq<Seq<char>>,
    pub display: Seq<char>,
}

/// The preview of `program` with `argv`: both kept as given, and the display
/// line derived from them.
pub open spec fn preview_of(program: Seq<char>, argv: Seq<Seq<char>>) -> PreviewModel {
    PreviewModel { program, argv, display: display_of(program, argv) }
}

/// No-side-effect command preview.
///
/// A preview is the argv-safe contract materialized after builder lowering but
/// before process execution. `program` and `argv` are the trusted values;
/// `display` is only human/debug text.
#[derive(Debug, PartialEq, Eq)]
pub struct CommandPreview {
    program: String,
    argv: Vec<String>,
    display: String,
}

impl View for CommandPreview {
    type V = PreviewModel;

    closed spec fn view(&self) -> PreviewModel {
        PreviewModel { program: self.program@, argv: text_seq(self.argv@), display: self.display@ }
    }
}

/// A copy of a list of strings, with the same characters in each.
fn copy_strings(v: &Vec<String>) -> (r: Vec<String>)
    ensures
        text_seq(r@) == text_seq(v@),
{
    let mut out: Vec<String> = Vec::new();
    let n = v.len();
    let mut i: usize = 0;
    while i < n
        invariant
            n == v@.len(),
            0 <= i <= n,
            text_seq(out@) == text_seq(v@).take(i as int),
        decreases n - i,
    {
        let s = v[i].clone();
        proof {
            lemma_text_seq_push(out@, s);
        }
        out.push(s);
        assert(text_seq(v@).take(i + 1) =~= text_seq(v@).take(i as int).push(v@[i as int]@));
        i = i + 1;
    }
    assert(text_seq(v@).take(n as int) =~= text_seq(v@));
    out
}

impl Clone for CommandPreview {
    fn clone(&self) -> (r: Self)
        ensures
            r@ == self@,
    {
        proof {
            use_type_invariant(self);
        }
        CommandPreview {
            program: self.program.clone(),
            argv: copy_strings(&self.argv),
            display: self.display.clone(),
        }
    }
}

impl CommandPreview {
    #[verifier::type_invariant]
    spec fn display_derived(self) -> bool {
        self.display@ == display_of(self.program@, text_seq(self.argv@))
    }

    /// The preview of `program` with `argv` (see `preview_of`).
    pub fn new(program: String, argv: Vec<String>) -> (r: Self)
        ensures
            r@ == preview_of(program@, text_seq(argv@)),
            r@.program == program@,
            r@.argv == text_seq(argv@),
            r@.display == display_of(program@, text_seq(argv@)),
    {
        let display = display_line(program.as_str(), argv.as_slice());
        CommandPreview { program, argv, display }
    }

    pub fn program(&self) -> (r: &str)
        ensures
            r@ == self@.program,
    {
        self.program.as_str()
    }

    pub fn argv(&self) -> (r: &[String])
        ensures
            text_seq(r@) == self@.argv,
            r@.len() == self@.argv.len(),
    {
        self.argv.as_slice()
    }

    pub fn display(&self) -> (r: &str)
        ensures
            r@ == self@.display,
            r@ == display_of(self@.program, self@.argv),
    {
        proof {
            use_type_invariant(self);
        }
        self.display.as_str()
    }

    /// The program, the arguments and the display line, as owned values.
    pub fn into_parts(self) -> (r: (String, Vec<String>, String))
        ensures
            r.0@ == self@.program,
            text_seq(r.1@) == self@.argv,
            r.2@ == self@.display,
            r.2@ == display_of(self@.program, self@.argv),
    {
        proof {
            use_type_invariant(&self);
        }
        let CommandPreview { program, argv, display } = self;
        (program, argv, display)
    }
}

/// Explicit no-side-effect arrangement of a composed command: it wraps the
/// argv-safe preview rather than a display string, so root commands,
/// subcommands and fragments can be planned without reparsing shell text.
#[derive(Debug, PartialEq, Eq)]
pub struct XccuteCommandArrangement {
    preview: CommandPreview,
}

impl View for XccuteCommandArrangement {
    type V = PreviewModel;

    closed spec fn view(&self) -> PreviewModel {
        self.preview@
    }
}

impl Clone for XccuteCommandArrangement {
    fn clone(&self) -> (r: Self)
        ensures
            r@ == self@,
    {
        XccuteCommandArrangement { preview: self.preview.clone() }
    }
}

impl XccuteCommandArrangement {
    /// The arrangement of the preview of `program` with `argv`.
    pub fn new(program: String, argv: Vec<String>) -> (r: Self)
        ensures
            r@ == preview_of(program@, text_seq(argv@)),
            r@.program == program@,
            r@.argv == text_seq(argv@),
            r@.display == display_of(program@, text_seq(argv@)),
    {
        XccuteCommandArrangement { preview: CommandPreview::new(program, argv) }
    }

    pub fn from_preview(preview: CommandPreview) -> (r: Self)
        ensures
            r@ == preview@,
    {
        XccuteCommandArrangement { preview }
    }

    pub fn program(&self) -> (r: &str)
        ensures
            r@ == self@.program,
    {
        self.preview.program()
    }

    pub fn argv(&self) -> (r: &[String])
        ensures
            text_seq(r@) == self@.argv,
            r@.len() == self@.argv.len(),
    {
        self.preview.argv()
    }

    pub fn display(&self) -> (r: &str)
        ensures
            r@ == self@.display,
            r@ == display_of(self@.program, self@.argv),
    {
        self.preview.display()
    }

    pub fn preview(&self) -> (r: &CommandPreview)
        ensures
            r@ == self@,
    {
        &self.preview
    }

    pub fn into_preview(self) -> (r: CommandPreview)
        ensures
            r@ == self@,
    {
        self.preview
    }
}

} // verus!
