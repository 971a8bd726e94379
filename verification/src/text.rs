//! Verified string assembly: joining a sequence of strings with a separator,
//! as the protocol commands require (UID sets joined with a comma, piped
//! input lines joined with CRLF).

use vstd::prelude::*;
use vstd::string::StringExecFns;

verus! {

/// The characters of `items` joined with `sep` between consecutive items.
pub open spec fn spec_join(items: Seq<Seq<char>>, sep: Seq<char>) -> Seq<char>
    decreases items.len(),
{
    if items.len() == 0 {
        Seq::empty()
    } else if items.len() == 1 {
        items[0]
    } else {
        spec_join(items.drop_last(), sep) + sep + items.last()
    }
}

/// Joins the items with the separator.
pub fn join_all(items: &Vec<String>, sep: &str) -> (r: String)
    ensures
        r@ == spec_join(items@.map_values(|s: String| s@), sep@),
{
    let mut r = String::new();
    let mut i: usize = 0;
    while i < items.len()
        invariant
            i <= items@.len(),
            r@ == spec_join(items@.take(i as int).map_values(|s: String| s@), sep@),
        decreases items@.len() - i,
    {
        if i > 0 {
            r.append(sep);
        }
        r.append(items[i].as_str());
        proof {
            let all = items@.map_values(|s: String| s@);
            assert(items@.take(i as int).map_values(|s: String| s@) =~= all.take(i as int));
            assert(items@.take(i + 1).map_values(|s: String| s@) =~= all.take(i + 1));
            assert(all.take(i + 1).drop_last() =~= all.take(i as int));
        }
        i = i + 1;
    }
    proof {
        assert(items@.take(items@.len() as int) =~= items@);
    }
    r
}

} // verus!
