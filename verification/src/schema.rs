//! Lookups against the live schema listing: a table or column name is
//! trusted only after it is found in the listing fetched for this request.

use vstd::prelude::*;

verus! {

/// The deep view of a string vector indexes to the views of its elements.
pub proof fn lemma_deep_view_index(v: Vec<String>)
    ensures
        v.deep_view().len() == v@.len(),
        forall|i: int| 0 <= i < v@.len() ==> v.deep_view()[i] == v@[i]@,
{
}

/// True iff the name appears in the listing (exact match).
pub fn name_listed(names: &Vec<String>, name: &String) -> (r: bool)
    ensures
        r == names.deep_view().contains(name@),
{
    proof {
        lemma_deep_view_index(*names);
    }
    let mut i: usize = 0;
    while i < names.len()
        invariant
            0 <= i <= names@.len(),
            names.deep_view().len() == names@.len(),
            forall|j: int| 0 <= j < names@.len() ==> names.deep_view()[j] == names@[j]@,
            forall|j: int| 0 <= j < i ==> names.deep_view()[j] != name@,
        decreases names@.len() - i,
    {
        if names[i].eq(name) {
            proof {
                assert(names.deep_view()[i as int] == name@);
            }
            return true;
        }
        i += 1;
    }
    false
}

/// The requested names that the available listing does not hold, in request
/// order, duplicates kept.
pub open spec fn missing_of(requested: Seq<Seq<char>>, available: Seq<Seq<char>>) -> Seq<
    Seq<char>,
> {
    requested.filter(|c: Seq<char>| !available.contains(c))
}

/// Collects every requested column name that is not in the available
/// listing; an empty result means the whole request is schema-confirmed.
pub fn missing_columns(requested: &Vec<String>, available: &Vec<String>) -> (r: Vec<String>)
    ensures
        r.deep_view() == missing_of(requested.deep_view(), available.deep_view()),
{
    let ghost req = requested.deep_view();
    let ghost avail = available.deep_view();
    let mut out: Vec<String> = Vec::new();
    let mut i: usize = 0;
    proof {
        lemma_deep_view_index(*requested);
        reveal(Seq::filter);
        assert(req.take(0) =~= Seq::<Seq<char>>::empty());
        assert(out.deep_view() =~= missing_of(req.take(0), avail));
    }
    while i < requested.len()
        invariant
            0 <= i <= requested@.len(),
            req == requested.deep_view(),
            avail == available.deep_view(),
            req.len() == requested@.len(),
            forall|j: int| 0 <= j < requested@.len() ==> req[j] == requested@[j]@,
            out.deep_view() == missing_of(req.take(i as int), avail),
        decreases requested@.len() - i,
    {
        let present = name_listed(available, &requested[i]);
        let ghost prev_elems = out@;
        let ghost prev_dv = out.deep_view();
        if !present {
            out.push(requested[i].clone());
        }
        proof {
            reveal(Seq::filter);
            let pred = |c: Seq<char>| !avail.contains(c);
            assert(req.take(i + 1).drop_last() =~= req.take(i as int));
            assert(req.take(i + 1).last() == req[i as int]);
            assert(req.take(i + 1).filter(pred) == if pred(req[i as int]) {
                req.take(i as int).filter(pred).push(req[i as int])
            } else {
                req.take(i as int).filter(pred)
            });
            lemma_deep_view_index(out);
            if !present {
                assert(out@.len() == prev_elems.len() + 1);
                assert forall|j: int| 0 <= j < out@.len() implies out.deep_view()[j]
                    == prev_dv.push(req[i as int])[j] by {
                    if j < prev_elems.len() {
                        assert(out@[j] == prev_elems[j]);
                        assert(prev_dv[j] == prev_elems[j]@);
                    } else {
                        assert(out@[j]@ == requested@[i as int]@);
                    }
                }
                assert(out.deep_view() =~= prev_dv.push(req[i as int]));
            }
            assert(out.deep_view() =~= missing_of(req.take(i + 1), avail));
        }
        i += 1;
    }
    proof {
        assert(req.take(requested@.len() as int) =~= req);
    }
    out
}

} // verus!
