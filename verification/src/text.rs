//! Text building blocks shared by every generator: case conversion, string
//! joining, decimal rendering and parenthesization.

use vstd::prelude::*;

use itertools::Itertools;

verus! {

/// What `to_camel_case` returns for a given character sequence; the result
/// depends on the characters alone.
pub uninterp spec fn camel_of(s: Seq<char>) -> Seq<char>;

/// Relies on inflector's `to_camel_case`: a pure case-style transform of its
/// argument, used to derive codec function and record field identifiers.
#[verifier::external_body]
pub(crate) fn to_camel_case_str(s: &str) -> (r: String)
    ensures
        r@ == camel_of(s@),
{
    inflector::cases::camelcase::to_camel_case(s)
}

/// The views of a sequence of strings.
pub open spec fn string_views(v: Seq<String>) -> Seq<Seq<char>> {
    Seq::new(v.len(), |i: int| v[i]@)
}

/// Parts interleaved with a separator: empty for no parts, the sole part for
/// one, and parts separated by `sep` otherwise.
pub open spec fn join_text(parts: Seq<Seq<char>>, sep: Seq<char>) -> Seq<char>
    decreases parts.len(),
{
    if parts.len() == 0 {
        Seq::empty()
    } else if parts.len() == 1 {
        parts[0]
    } else {
        parts[0] + sep + join_text(parts.skip(1), sep)
    }
}

/// Relies on itertools' `join`: all elements combined into one string with
/// `sep` inserted between consecutive elements.
#[verifier::external_body]
pub(crate) fn join_strings(parts: &Vec<String>, sep: &str) -> (r: String)
    ensures
        r@ == join_text(string_views(parts@), sep@),
{
    parts.iter().join(sep)
}

/// Whether the text contains a space character.
pub open spec fn has_space(s: Seq<char>) -> bool {
    exists|i: int| 0 <= i < s.len() && s[i] == ' '
}

/// The text wrapped in parentheses if it contains a space, else unchanged:
/// keeps a multi-word rendering atomic in prefix syntax.
pub open spec fn atomize(s: Seq<char>) -> Seq<char> {
    if has_space(s) {
        "("@ + s + ")"@
    } else {
        s
    }
}

/// The decimal rendering of a natural number.
pub open spec fn digit_char(d: nat) -> char {
    ((('0' as u8) + (d as u8)) as char)
}

/// The decimal rendering of a natural number, most significant digit first.
pub open spec fn nat_text(n: nat) -> Seq<char>
    decreases n,
{
    if n < 10 {
        seq![digit_char(n)]
    } else {
        nat_text(n / 10) + seq![digit_char(n % 10)]
    }
}

/// One decimal digit as a string slice.
fn digit_str(d: usize) -> (r: &'static str)
    requires
        d < 10,
    ensures
        r@ == seq![digit_char(d as nat)],
{
    proof {
        reveal_strlit("0");
        reveal_strlit("1");
        reveal_strlit("2");
        reveal_strlit("3");
        reveal_strlit("4");
        reveal_strlit("5");
        reveal_strlit("6");
        reveal_strlit("7");
        reveal_strlit("8");
        reveal_strlit("9");
    }
    let r = match d {
        0 => "0",
        1 => "1",
        2 => "2",
        3 => "3",
        4 => "4",
        5 => "5",
        6 => "6",
        7 => "7",
        8 => "8",
        _ => "9",
    };
    proof {
        assert(r@ =~= seq![digit_char(d as nat)]);
    }
    r
}

/// The decimal rendering of an index.
pub fn usize_text(n: usize) -> (r: String)
    ensures
        r@ == nat_text(n as nat),
    decreases n,
{
    if n < 10 {
        String::from_str(digit_str(n))
    } else {
        let mut s = usize_text(n / 10);
        s.append(digit_str(n % 10));
        s
    }
}

/// The positional argument names `x0 x1 ...` used by tuple codecs.
pub open spec fn xparts(n: nat) -> Seq<Seq<char>> {
    Seq::new(n, |i: int| "x"@ + nat_text(i as nat))
}

/// Build the positional argument names `x0 .. x(n-1)`.
pub fn make_xparts(n: usize) -> (r: Vec<String>)
    ensures
        string_views(r@) =~= xparts(n as nat),
{
    let mut parts: Vec<String> = Vec::new();
    for i in 0..n
        invariant
            parts.len() == i,
            forall|k: int| 0 <= k < i ==> parts[k]@ == "x"@ + nat_text(k as nat),
    {
        let mut s = String::from_str("x");
        s.append(usize_text(i).as_str());
        parts.push(s);
    }
    proof {
        assert(string_views(parts@) =~= xparts(n as nat));
    }
    parts
}

} // verus!
