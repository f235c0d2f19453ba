//! Laws of the display line of a preview.
use vstd::prelude::*;

use crate::preview::{args_text, display_of, preview_of};

verus! {

/// The display line of a command with no arguments is its program.
pub proof fn law_display_without_args(program: Seq<char>)
    ensures
        display_of(program, Seq::empty()) == program,
{
    assert(display_of(program, Seq::empty()) =~= program);
}

/// The display line always starts with the program.
pub proof fn law_display_starts_with_program(program: Seq<char>, argv: Seq<Seq<char>>)
    ensures
        program.len() <= display_of(program, argv).len(),
        display_of(program, argv).subrange(0, program.len() as int) == program,
{
    assert(display_of(program, argv).subrange(0, program.len() as int) =~= program);
}

/// Each further argument extends the display line by a space and the
/// argument, verbatim.
pub proof fn law_display_push_arg(program: Seq<char>, argv: Seq<Seq<char>>, arg: Seq<char>)
    ensures
        display_of(program, argv.push(arg)) == display_of(program, argv) + " "@ + arg,
{
    assert(argv.push(arg).drop_last() =~= argv);
    assert(args_text(argv.push(arg)) == args_text(argv) + " "@ + arg);
    assert(display_of(program, argv.push(arg)) =~= display_of(program, argv) + " "@ + arg);
}

/// A preview keeps the program and every argument exactly as given, and its
/// display line starts with the program.
pub proof fn law_preview_keeps_program_and_argv(program: Seq<char>, argv: Seq<Seq<char>>)
    ensures
        preview_of(program, argv).program == program,
        preview_of(program, argv).argv == argv,
        preview_of(program, argv).argv.len() == argv.len(),
        forall|i: int| 0 <= i < argv.len() ==> #[trigger] preview_of(program, argv).argv[i] == argv[i],
        preview_of(program, argv).display.subrange(0, program.len() as int) == program,
{
    law_display_starts_with_program(program, argv);
}

/// The display line of a preview with no arguments is the program; one more
/// argument extends the line of the preview without it by a space and that
/// argument.
pub proof fn law_preview_display_by_argument(program: Seq<char>, argv: Seq<Seq<char>>, arg: Seq<char>)
    ensures
        preview_of(program, Seq::empty()).display == program,
        preview_of(program, argv.push(arg)).display == preview_of(program, argv).display + " "@
            + arg,
{
    law_display_without_args(program);
    law_display_push_arg(program, argv, arg);
}

} // verus!
