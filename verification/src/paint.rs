//! Colouring of error messages for the terminal.

use vstd::prelude::*;

verus! {

/// The escape sequence that turns on bold red text.
pub open spec fn red_bold_prefix() -> Seq<char> {
    "\x1B[1;31m"@
}

/// The escape sequence that resets all text styles.
pub open spec fn reset_suffix() -> Seq<char> {
    "\x1B[0m"@
}

/// `s` painted bold red: the prefix, the text, then the reset sequence.
pub open spec fn red_bold(s: Seq<char>) -> Seq<char> {
    red_bold_prefix() + s + reset_suffix()
}

/// Painting puts the seven characters `ESC [ 1 ; 3 1 m` before the text and
/// the four characters `ESC [ 0 m` after it, and leaves the text whole.
pub proof fn red_bold_wraps_text(s: Seq<char>)
    ensures
        red_bold(s) == seq!['\u{1b}', '[', '1', ';', '3', '1', 'm'] + s + seq!['\u{1b}', '[', '0', 'm'],
        red_bold(s).subrange(7, 7 + s.len() as int) == s,
        red_bold(s).len() == s.len() + 11,
{
    reveal_strlit("\x1B[1;31m");
    reveal_strlit("\x1B[0m");
    assert(red_bold_prefix() =~= seq!['\u{1b}', '[', '1', ';', '3', '1', 'm']);
    assert(reset_suffix() =~= seq!['\u{1b}', '[', '0', 'm']);
    assert(red_bold(s).subrange(7, 7 + s.len() as int) =~= s);
}

/// `ansi_term::Colour::Red.bold().paint(s).to_string()`. The style is not
/// plain, so ansi_term writes `ESC[`, the bold code `1`, `;`, the red
/// foreground code `31` and `m`, then the text, then its reset `ESC[0m`.
#[verifier::external_body]
pub(crate) fn paint_red_bold(s: &str) -> (res: String)
    ensures
        res@ == red_bold(s@),
{
    ansi_term::Colour::Red.bold().paint(s).to_string()
}

} // verus!
