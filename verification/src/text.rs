//! Small verified helpers for assembling statement text.

use vstd::prelude::*;

verus! {

/// The characters of `parts` joined with `sep` between consecutive parts.
pub open spec fn join(parts: Seq<Seq<char>>, sep: Seq<char>) -> Seq<char>
    decreases parts.len(),
{
    if parts.len() == 0 {
        Seq::empty()
    } else if parts.len() == 1 {
        parts[0]
    } else {
        join(parts.drop_last(), sep) + sep + parts.last()
    }
}

/// An identifier wrapped in double quotes, so that statement text cannot
/// mistake a free-form name for syntax of its own.
pub open spec fn quote_ident(id: Seq<char>) -> Seq<char> {
    "\""@ + id + "\""@
}

/// Each identifier of the list, quoted.
pub open spec fn quote_idents(ids: Seq<Seq<char>>) -> Seq<Seq<char>> {
    ids.map_values(|id: Seq<char>| quote_ident(id))
}

/// Wraps one identifier in double quotes.
pub fn quoted(id: &str) -> (r: String)
    ensures
        r@ == quote_ident(id@),
{
    let mut r = String::from_str("\"");
    r.append(id);
    r.append("\"");
    r
}

/// Wraps every identifier of the list in double quotes.
pub fn quote_all(ids: &Vec<String>) -> (r: Vec<String>)
    ensures
        r@.map_values(|p: String| p@) == quote_idents(ids@.map_values(|p: String| p@)),
{
    let mut r: Vec<String> = Vec::new();
    let mut i: usize = 0;
    while i < ids.len()
        invariant
            0 <= i <= ids.len(),
            r@.len() == i,
            forall|j: int| 0 <= j < i ==> r@[j]@ == quote_ident(ids@[j]@),
        decreases ids.len() - i,
    {
        let q = quoted(ids[i].as_str());
        let ghost pre: Seq<String> = r@;
        let ghost qv: String = q;
        r.push(q);
        proof {
            assert forall|j: int| 0 <= j < pre.len() implies r@[j] == pre[j] by {
                assert(pre.push(qv)[j] == pre[j]);
            }
        }
        i = i + 1;
    }
    proof {
        assert(r@.map_values(|p: String| p@) =~= quote_idents(ids@.map_values(|p: String| p@)));
    }
    r
}

/// Joins the given parts with `sep` between consecutive parts.
pub fn join_with(parts: &Vec<String>, sep: &str) -> (r: String)
    ensures
        r@ == join(parts@.map_values(|p: String| p@), sep@),
{
    let ghost model: Seq<Seq<char>> = parts@.map_values(|p: String| p@);
    let mut r = String::new();
    let mut i: usize = 0;
    while i < parts.len()
        invariant
            0 <= i <= parts.len(),
            model == parts@.map_values(|p: String| p@),
            r@ == join(model.take(i as int), sep@),
        decreases parts.len() - i,
    {
        if i > 0 {
            r.append(sep);
        }
        r.append(parts[i].as_str());
        proof {
            let t: Seq<Seq<char>> = model.take(i + 1 as int);
            assert(t.drop_last() =~= model.take(i as int));
            if i == 0 {
                assert(r@ =~= join(t, sep@));
            } else {
                assert(r@ =~= join(t, sep@));
            }
        }
        i = i + 1;
    }
    proof {
        assert(model.take(parts@.len() as int) =~= model);
    }
    r
}

} // verus!
