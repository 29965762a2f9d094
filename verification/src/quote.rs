//! The quoted form of a string, as `{:?}` writes it: the text between double
//! quotes, each character escaped where it needs to be.

use vstd::prelude::*;
use vstd::string::*;

use crate::text::{cat3, debug_text, str_debug_text};

verus! {

/// The lower-case hexadecimal digit for `d` (below sixteen).
pub open spec fn hex_digit(d: nat) -> char {
    seq!['0', '1', '2', '3', '4', '5', '6', '7', '8', '9', 'a', 'b', 'c', 'd', 'e', 'f'][d as int]
}

/// `n` in lower-case hexadecimal, without leading zeros.
pub open spec fn hex_text(n: nat) -> Seq<char>
    decreases n,
{
    if n < 16 {
        seq![hex_digit(n)]
    } else {
        hex_text(n / 16).push(hex_digit(n % 16))
    }
}

/// The value of a hexadecimal digit.
pub open spec fn hex_value_of(c: char) -> nat {
    if '0' <= c <= '9' {
        (c as nat - '0' as nat) as nat
    } else {
        (c as nat - 'a' as nat + 10) as nat
    }
}

/// The number written by a sequence of hexadecimal digits.
pub open spec fn hex_value(digits: Seq<char>) -> nat
    decreases digits.len(),
{
    if digits.len() == 0 {
        0
    } else {
        hex_value(digits.drop_last()) * 16 + hex_value_of(digits.last())
    }
}

/// The `\u{..}` escape of a character: its code point in hexadecimal.
pub open spec fn unicode_escape(c: char) -> Seq<char> {
    seq!['\\', 'u', '{'] + hex_text(c as nat) + seq!['}']
}

/// Whether std's `{:?}` writes the character `c` as it is.
pub open spec fn kept_by_debug(c: char) -> bool {
    str_debug_text(seq![c]) == seq!['"', c, '"']
}

/// Whether a character is printable ASCII that `{:?}` keeps in a string.
pub open spec fn plain_char(c: char) -> bool {
    ' ' <= c <= '~' && c != '"' && c != '\\'
}

/// How `{:?}` writes one character of a string: the backslash escapes for
/// NUL, tab, carriage return, newline, backslash and double quote; printable
/// ASCII as it is; other ASCII as `\u{..}`; and any other character as it
/// is where std keeps it, else as `\u{..}`.
pub open spec fn escape_char(c: char) -> Seq<char> {
    if c == '\0' {
        seq!['\\', '0']
    } else if c == '\t' {
        seq!['\\', 't']
    } else if c == '\r' {
        seq!['\\', 'r']
    } else if c == '\n' {
        seq!['\\', 'n']
    } else if c == '\\' {
        seq!['\\', '\\']
    } else if c == '"' {
        seq!['\\', '"']
    } else if ' ' <= c <= '~' {
        seq![c]
    } else if (c as nat) < 128 {
        unicode_escape(c)
    } else if kept_by_debug(c) {
        seq![c]
    } else {
        unicode_escape(c)
    }
}

/// Every character of `s` escaped, one after the other.
pub open spec fn escape_all(s: Seq<char>) -> Seq<char>
    decreases s.len(),
{
    if s.len() == 0 {
        Seq::empty()
    } else {
        escape_all(s.drop_last()) + escape_char(s.last())
    }
}

/// The `{:?}` form of a string: the escaped text between double quotes.
pub open spec fn quoted_spec(s: Seq<char>) -> Seq<char> {
    seq!['"'] + escape_all(s) + seq!['"']
}

/// The digit for `d` as a one-character string.
fn hex_digit_str(d: u32) -> (res: &'static str)
    requires
        d < 16,
    ensures
        res@ == seq![hex_digit(d as nat)],
{
    proof {
        reveal_strlit("0"); reveal_strlit("1"); reveal_strlit("2"); reveal_strlit("3");
        reveal_strlit("4"); reveal_strlit("5"); reveal_strlit("6"); reveal_strlit("7");
        reveal_strlit("8"); reveal_strlit("9"); reveal_strlit("a"); reveal_strlit("b");
        reveal_strlit("c"); reveal_strlit("d"); reveal_strlit("e"); reveal_strlit("f");
    }
    if d == 0 { "0" } else if d == 1 { "1" } else if d == 2 { "2" } else if d == 3 { "3" }
    else if d == 4 { "4" } else if d == 5 { "5" } else if d == 6 { "6" } else if d == 7 { "7" }
    else if d == 8 { "8" } else if d == 9 { "9" } else if d == 10 { "a" } else if d == 11 { "b" }
    else if d == 12 { "c" } else if d == 13 { "d" } else if d == 14 { "e" } else { "f" }
}

/// Appends `n` in lower-case hexadecimal.
fn append_hex(out: &mut String, n: u32)
    ensures
        final(out)@ == old(out)@ + hex_text(n as nat),
    decreases n,
{
    if n >= 16 {
        append_hex(out, n / 16);
    }
    out.append(hex_digit_str(n % 16));
}

/// Appends the `\u{..}` escape of `c`.
fn append_unicode_escape(out: &mut String, c: char)
    ensures
        final(out)@ == old(out)@ + unicode_escape(c),
{
    proof { reveal_strlit("\\u{"); reveal_strlit("}"); }
    out.append("\\u{");
    append_hex(out, c as u32);
    out.append("}");
}

/// Appends the escape of the character `c`, given also as the string `one`.
fn append_escaped(out: &mut String, c: char, one: &str)
    requires
        one@ == seq![c],
    ensures
        final(out)@ == old(out)@ + escape_char(c),
{
    proof {
        reveal_strlit("\\0"); reveal_strlit("\\t"); reveal_strlit("\\r"); reveal_strlit("\\n");
        reveal_strlit("\\\\"); reveal_strlit("\\\""); reveal_strlit("\"");
    }
    if c == '\0' {
        out.append("\\0");
    } else if c == '\t' {
        out.append("\\t");
    } else if c == '\r' {
        out.append("\\r");
    } else if c == '\n' {
        out.append("\\n");
    } else if c == '\\' {
        out.append("\\\\");
    } else if c == '"' {
        out.append("\\\"");
    } else if ' ' <= c && c <= '~' {
        out.append(one);
    } else if (c as u32) < 128 {
        append_unicode_escape(out, c);
    } else {
        let shown = debug_text(one);
        let kept = cat3("\"", one, "\"");
        if shown == kept {
            assert(kept@ =~= seq!['"', c, '"']);
            out.append(one);
        } else {
            assert(kept@ =~= seq!['"', c, '"']);
            append_unicode_escape(out, c);
        }
    }
}

/// The `{:?}` form of `s`: `"`, each character escaped, then `"`.
pub fn quote(s: &str) -> (res: String)
    ensures
        res@ == quoted_spec(s@),
{
    proof { reveal_strlit("\""); }
    let n = s.unicode_len();
    let mut out = String::from_str("\"");
    assert(s@.take(0) =~= Seq::<char>::empty());
    for i in 0..n
        invariant
            n == s@.len(),
            out@ == seq!['"'] + escape_all(s@.take(i as int)),
    {
        let c = s.get_char(i);
        let one = s.substring_char(i, i + 1);
        assert(one@ =~= seq![c]);
        assert(s@.take(i + 1).drop_last() =~= s@.take(i as int));
        append_escaped(&mut out, c, one);
        assert(out@ =~= seq!['"'] + escape_all(s@.take(i + 1)));
    }
    assert(s@.take(n as int) =~= s@);
    out.append("\"");
    out
}

/// A string made only of printable ASCII other than `"` and `\` is written
/// between double quotes exactly as it is.
pub proof fn quote_keeps_plain_text(s: Seq<char>)
    requires
        forall|i: int| 0 <= i < s.len() ==> plain_char(#[trigger] s[i]),
    ensures
        quoted_spec(s) == seq!['"'] + s + seq!['"'],
{
    plain_text_escapes_to_itself(s);
}

/// Plain characters escape to themselves.
proof fn plain_text_escapes_to_itself(s: Seq<char>)
    requires
        forall|i: int| 0 <= i < s.len() ==> plain_char(#[trigger] s[i]),
    ensures
        escape_all(s) == s,
    decreases s.len(),
{
    if s.len() > 0 {
        let t = s.drop_last();
        assert forall|i: int| 0 <= i < t.len() implies plain_char(#[trigger] t[i]) by {
            assert(t[i] == s[i]);
        }
        plain_text_escapes_to_itself(t);
        assert(plain_char(s[s.len() - 1]));
        assert(t + seq![s.last()] =~= s);
    }
}

/// Quoting works character by character: the escaped text of `a + b` is the
/// escaped text of `a` followed by that of `b`.
pub proof fn escape_all_concat(a: Seq<char>, b: Seq<char>)
    ensures
        escape_all(a + b) == escape_all(a) + escape_all(b),
    decreases b.len(),
{
    if b.len() == 0 {
        assert(a + b =~= a);
    } else {
        escape_all_concat(a, b.drop_last());
        assert((a + b).drop_last() =~= a + b.drop_last());
        assert((a + b).last() == b.last());
    }
}

/// A quoted string starts and ends with `"`, and every character of the
/// string gives at least one character between them.
pub proof fn quote_frames_text(s: Seq<char>)
    ensures
        quoted_spec(s)[0] == '"',
        quoted_spec(s).last() == '"',
        quoted_spec(s).len() >= s.len() + 2,
    decreases s.len(),
{
    escape_all_lengthens(s);
}

/// Each character's escape is at least one character long.
proof fn escape_all_lengthens(s: Seq<char>)
    ensures
        escape_all(s).len() >= s.len(),
    decreases s.len(),
{
    if s.len() > 0 {
        escape_all_lengthens(s.drop_last());
    }
}

/// The escape of a character reads back as that character: it is the
/// character itself, a backslash before a letter naming it, or `\u{..}`
/// around hexadecimal digits whose value is the character's code point.
pub proof fn escape_names_the_char(c: char)
    ensures
        escape_char(c) == seq![c]
        || (c == '\0' && escape_char(c) == seq!['\\', '0'])
        || (c == '\t' && escape_char(c) == seq!['\\', 't'])
        || (c == '\r' && escape_char(c) == seq!['\\', 'r'])
        || (c == '\n' && escape_char(c) == seq!['\\', 'n'])
        || ((c == '\\' || c == '"') && escape_char(c) == seq!['\\', c])
        || (exists|digits: Seq<char>| escape_char(c) == seq!['\\', 'u', '{'] + digits + seq!['}']
            && hex_value(digits) == c as nat),
{
    hex_value_of_hex_text(c as nat);
    if escape_char(c) == unicode_escape(c) {
        assert(escape_char(c) == seq!['\\', 'u', '{'] + hex_text(c as nat) + seq!['}']);
    }
}

/// Reading back the hexadecimal text of `n` gives `n`.
pub proof fn hex_value_of_hex_text(n: nat)
    ensures
        hex_value(hex_text(n)) == n,
    decreases n,
{
    if n < 16 {
        assert(seq![hex_digit(n)].drop_last() =~= Seq::<char>::empty());
        hex_digit_value(n);
        assert(hex_value(seq![hex_digit(n)]) == hex_value(Seq::<char>::empty()) * 16 + hex_value_of(hex_digit(n)));
    } else {
        hex_value_of_hex_text(n / 16);
        assert((n / 16) * 16 + n % 16 == n) by (nonlinear_arith);
        let t = hex_text(n / 16).push(hex_digit(n % 16));
        assert(t.drop_last() =~= hex_text(n / 16));
        hex_digit_value(n % 16);
    }
}

/// Each digit reads back as its value.
proof fn hex_digit_value(d: nat)
    requires
        d < 16,
    ensures
        hex_value_of(hex_digit(d)) == d,
{
}

} // verus!
