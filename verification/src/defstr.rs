//! Projection-definition text.
//!
//! A projection is configured by a list of `(key, value)` parameters; the
//! engine that performs the projection mathematics parses them from a single
//! string of space-joined `+key=value` entries.

use vstd::prelude::*;
use vstd::string::StringExecFns;

verus! {

/// The text of one parameter entry: a plus sign, the key, an equals sign,
/// the value.
pub open spec fn entry_text(key: Seq<char>, value: Seq<char>) -> Seq<char> {
    seq!['+'] + key + seq!['='] + value
}

/// The text of a whole parameter list: the entries, space-joined.
pub open spec fn definition_text(params: Seq<(Seq<char>, Seq<char>)>) -> Seq<char>
    decreases params.len(),
{
    if params.len() == 0 {
        Seq::empty()
    } else if params.len() == 1 {
        entry_text(params[0].0, params[0].1)
    } else {
        definition_text(params.drop_last()) + seq![' ']
            + entry_text(params.last().0, params.last().1)
    }
}

/// The parameter list a vector of string slices stands for.
pub open spec fn params_view(vs: Seq<(&str, &str)>) -> Seq<(Seq<char>, Seq<char>)> {
    vs.map_values(|p: (&str, &str)| (p.0@, p.1@))
}

/// Renders a parameter list as the space-joined `+key=value` definition
/// string that the projection engine parses.
pub fn proj_string<'a>(vs: Vec<(&'a str, &'a str)>) -> (r: String)
    ensures
        r@ == definition_text(params_view(vs@)),
{
    let mut r = String::new();
    let mut i: usize = 0;
    while i < vs.len()
        invariant
            i <= vs.len(),
            r@ == definition_text(params_view(vs@).take(i as int)),
        decreases vs.len() - i,
    {
        let ghost prefix = params_view(vs@).take(i as int);
        if i > 0 {
            r.append(" ");
        }
        r.append("+");
        r.append(vs[i].0);
        r.append("=");
        r.append(vs[i].1);
        proof {
            reveal_strlit(" ");
            reveal_strlit("+");
            reveal_strlit("=");
            let next = params_view(vs@).take(i + 1 as int);
            assert(next.drop_last() =~= prefix);
            assert(next.last() == (vs@[i as int].0@, vs@[i as int].1@));
            assert((" ")@ =~= seq![' ']);
            assert(("+")@ =~= seq!['+']);
            assert(("=")@ =~= seq!['=']);
            assert(r@ =~= definition_text(next));
        }
        i += 1;
    }
    proof {
        assert(params_view(vs@).take(vs@.len() as int) =~= params_view(vs@));
    }
    r
}

} // verus!
