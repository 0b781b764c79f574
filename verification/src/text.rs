//! Decimal numbers and line lists in messages.
use vstd::prelude::*;
use vstd::string::StringExecFns;

verus! {

/// The decimal digit `d` (0 ≤ d < 10).
pub open spec fn digit_char(d: nat) -> char {
    (48 + d) as char
}

/// The decimal representation of `n`, without sign or leading zeros.
pub open spec fn decimal(n: nat) -> Seq<char>
    decreases n,
{
    if n < 10 {
        seq![digit_char(n)]
    } else {
        decimal(n / 10).push(digit_char(n % 10))
    }
}

/// `<u64 as ToString>::to_string`: the decimal representation of `n`.
#[verifier::external_body]
pub(crate) fn decimal_text(n: u64) -> (s: String)
    ensures
        s@ == decimal(n as nat),
{
    n.to_string()
}

/// The lines of `lines`, each after the first preceded by a line feed.
pub open spec fn join_lines(lines: Seq<Seq<char>>) -> Seq<char>
    decreases lines.len(),
{
    if lines.len() == 0 {
        Seq::empty()
    } else if lines.len() == 1 {
        lines[0]
    } else {
        join_lines(lines.drop_last()) + "\n"@ + lines.last()
    }
}

/// The views of a list of strings.
pub open spec fn string_views(v: Seq<String>) -> Seq<Seq<char>> {
    v.map_values(|s: String| s@)
}

/// The first `n` strings of `lines`, joined by line feeds.
pub fn join_first_lines(lines: &Vec<String>, n: usize) -> (s: String)
    requires
        n <= lines@.len(),
    ensures
        s@ == join_lines(string_views(lines@).take(n as int)),
{
    let mut s = String::new();
    let mut i: usize = 0;
    while i < n
        invariant
            0 <= i <= n <= lines@.len(),
            s@ == join_lines(string_views(lines@).take(i as int)),
        decreases n - i,
    {
        let ghost views = string_views(lines@);
        assert(views.take(i + 1).drop_last() =~= views.take(i as int));
        if i > 0 {
            s.append("\n");
        } else {
            assert(views.take(0) =~= Seq::<Seq<char>>::empty());
            assert(s@ =~= Seq::<char>::empty());
        }
        s.append(lines[i].as_str());
        proof {
            if i == 0 {
                assert(s@ =~= views[0]);
            }
        }
        i += 1;
    }
    s
}

} // verus!
