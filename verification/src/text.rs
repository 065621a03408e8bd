//! Joining strings for readable error messages.
use vstd::prelude::*;

use vstd::string::StringExecFns;

verus! {

/// `parts` joined with `sep` between consecutive parts.
pub open spec fn join_chars(parts: Seq<Seq<char>>, sep: Seq<char>) -> Seq<char>
    decreases parts.len(),
{
    if parts.len() == 0 {
        Seq::empty()
    } else if parts.len() == 1 {
        parts[0]
    } else {
        join_chars(parts.drop_last(), sep) + sep + parts.last()
    }
}

/// Join strings with a separator.
pub fn join_strings(parts: &Vec<String>, sep: &str) -> (r: String)
    ensures
        r@ == join_chars(parts@.map_values(|s: String| s@), sep@),
{
    let ghost mapped = parts@.map_values(|s: String| s@);
    let n = parts.len();
    let mut acc = String::new();
    let mut i: usize = 0;
    while i < n
        invariant
            n == parts@.len(),
            0 <= i <= n,
            mapped == parts@.map_values(|s: String| s@),
            acc@ == join_chars(mapped.subrange(0, i as int), sep@),
        decreases n - i,
    {
        if i > 0 {
            acc.append(sep);
        }
        acc.append(parts[i].as_str());
        proof {
            let upto = mapped.subrange(0, i + 1);
            assert(upto.drop_last() =~= mapped.subrange(0, i as int));
            assert(upto.last() == mapped[i as int]);
            assert(acc@ =~= join_chars(upto, sep@));
        }
        i += 1;
    }
    proof {
        assert(mapped.subrange(0, n as int) =~= mapped);
    }
    acc
}

} // verus!
