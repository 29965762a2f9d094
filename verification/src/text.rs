//! String building blocks for error messages.

use vstd::prelude::*;
use vstd::string::*;

verus! {

/// `a`, `b` and `c`, one after the other.
pub fn cat3(a: &str, b: &str, c: &str) -> (res: String)
    ensures
        res@ == a@ + b@ + c@,
{
    let mut s = String::from_str(a);
    s.append(b);
    s.append(c);
    s
}

/// The parts joined with `sep` between each two neighbours.
pub open spec fn join_spec(parts: Seq<Seq<char>>, sep: Seq<char>) -> Seq<char>
    decreases parts.len(),
{
    if parts.len() == 0 {
        Seq::empty()
    } else if parts.len() == 1 {
        parts[0]
    } else {
        join_spec(parts.drop_last(), sep) + sep + parts.last()
    }
}

/// Joining no parts gives the empty text.
pub proof fn join_of_nothing(sep: Seq<char>)
    ensures
        join_spec(Seq::empty(), sep) == Seq::<char>::empty(),
{
}

/// Joining a single part gives that part, with no separator.
pub proof fn join_of_one(p: Seq<char>, sep: Seq<char>)
    ensures
        join_spec(seq![p], sep) == p,
{
}

/// Adding a part to a non-empty list adds the separator and then the whole
/// part at the end of the joined text.
pub proof fn join_of_one_more(parts: Seq<Seq<char>>, p: Seq<char>, sep: Seq<char>)
    requires
        parts.len() >= 1,
    ensures
        join_spec(parts.push(p), sep) == join_spec(parts, sep) + sep + p,
{
    assert(parts.push(p).drop_last() =~= parts);
}

/// The total length of a list of texts.
pub open spec fn total_len(parts: Seq<Seq<char>>) -> nat
    decreases parts.len(),
{
    if parts.len() == 0 {
        0
    } else {
        total_len(parts.drop_last()) + parts.last().len()
    }
}

/// The joined text is as long as all the parts together and one separator
/// between each two neighbours.
pub proof fn join_length(parts: Seq<Seq<char>>, sep: Seq<char>)
    requires
        parts.len() >= 1,
    ensures
        join_spec(parts, sep).len() == total_len(parts) + (parts.len() - 1) * sep.len(),
    decreases parts.len(),
{
    if parts.len() == 1 {
        assert(total_len(parts.drop_last()) == 0);
        assert(((parts.len() - 1) * sep.len()) as int == 0) by (nonlinear_arith)
            requires parts.len() == 1;
    } else {
        join_length(parts.drop_last(), sep);
        let k: int = parts.len() - 2;
        assert((k + 1) * sep.len() == k * sep.len() + sep.len()) by (nonlinear_arith);
        assert(parts.drop_last().len() - 1 == k);
        assert(parts.len() - 1 == k + 1);
    }
}

/// The texts of a list of strings.
pub open spec fn texts(parts: Seq<String>) -> Seq<Seq<char>> {
    parts.map_values(|s: String| s@)
}

/// The texts of a list are the texts of its strings, in order, one for each.
pub proof fn texts_of_each(parts: Seq<String>)
    ensures
        texts(parts).len() == parts.len(),
        forall|i: int| 0 <= i < parts.len() ==> #[trigger] texts(parts)[i] == parts[i]@,
{
}

/// Joins `parts` with `sep` between each two neighbours, as `[String]::join` does.
pub fn join(parts: &Vec<String>, sep: &str) -> (res: String)
    ensures
        res@ == join_spec(texts(parts@), sep@),
{
    let mut res = String::new();
    let ghost all = texts(parts@);
    let n = parts.len();
    for i in 0..n
        invariant
            n == parts@.len(),
            all == texts(parts@),
            res@ == join_spec(all.take(i as int), sep@),
    {
        assert(all.take((i + 1) as int).drop_last() =~= all.take(i as int));
        if i != 0 {
            res.append(sep);
        }
        res.append(parts[i].as_str());
    }
    assert(all.take(n as int) =~= all);
    res
}

/// What `{:?}` writes for a string: the text quoted, with the characters that
/// need it escaped.
pub uninterp spec fn str_debug_text(s: Seq<char>) -> Seq<char>;

/// The `Debug` form of a string, as std's `format!("{:?}", s)` writes it.
/// The contract names the result and says nothing more of it.
#[verifier::external_body]
pub(crate) fn debug_text(s: &str) -> (res: String)
    ensures
        res@ == str_debug_text(s@),
{
    format!("{:?}", s)
}

} // verus!
