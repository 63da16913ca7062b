//! Small helpers: turning optional results inside out, and joining the
//! texts of a list.

use crate::common::sepvec::spec_texts;
use crate::common::text::{spec_join, ToText};
use vstd::prelude::*;

verus! {

/// An optional result as a result of an option: nothing is a success with
/// nothing, a success is a success with something, an error is the error.
pub open spec fn spec_invert<T, E>(x: Option<Result<T, E>>) -> Result<Option<T>, E> {
    match x {
        None => Ok(None),
        Some(Ok(v)) => Ok(Some(v)),
        Some(Err(e)) => Err(e),
    }
}

/// A result of an option as an optional result: a success with nothing is
/// nothing, a success with something is a success, an error is an error.
pub open spec fn spec_invert2<T, E>(x: Result<Option<T>, E>) -> Option<Result<T, E>> {
    match x {
        Ok(None) => None,
        Ok(Some(v)) => Some(Ok(v)),
        Err(e) => Some(Err(e)),
    }
}

/// Turning an optional result inside out and back gives the same value.
pub proof fn lemma_invert_roundtrip<T, E>(x: Option<Result<T, E>>)
    ensures
        spec_invert2(spec_invert(x)) == x,
{
}

/// Turning a result of an option inside out and back gives the same value.
pub proof fn lemma_invert2_roundtrip<T, E>(x: Result<Option<T>, E>)
    ensures
        spec_invert(spec_invert2(x)) == x,
{
}

/// Turns an optional result into a result of an option.
pub fn invert<T, E>(x: Option<Result<T, E>>) -> (r: Result<Option<T>, E>)
    ensures
        r == spec_invert(x),
{
    match x {
        None => Ok(None),
        Some(Ok(v)) => Ok(Some(v)),
        Some(Err(e)) => Err(e),
    }
}

/// Turns a result of an option into an optional result.
pub fn invert2<T, E>(x: Result<Option<T>, E>) -> (r: Option<Result<T, E>>)
    ensures
        r == spec_invert2(x),
{
    match x {
        Ok(None) => None,
        Ok(Some(v)) => Some(Ok(v)),
        Err(e) => Some(Err(e)),
    }
}

/// The texts of the items with `sep` between neighbours.
pub fn join<T: ToText>(arr: &[T], sep: &str) -> (r: String)
    ensures
        r@ == spec_join(spec_texts(arr@), sep@),
{
    let mut s = String::new();
    let mut i: usize = 0;
    while i < arr.len()
        invariant
            i <= arr.len(),
            s@ == spec_join(spec_texts(arr@).take(i as int), sep@),
        decreases arr.len() - i,
    {
        proof {
            let now = spec_texts(arr@).take(i + 1);
            assert(now.drop_last() =~= spec_texts(arr@).take(i as int));
            assert(now.last() == arr@[i as int].text());
        }
        if i > 0 {
            s.append(sep);
        }
        let item = arr[i].to_text();
        s.append(item.as_str());
        proof {
            if i == 0 {
                assert(s@ =~= arr@[0].text());
            }
        }
        i += 1;
    }
    assert(spec_texts(arr@).take(arr.len() as int) =~= spec_texts(arr@));
    s
}

/// The texts of what `f` picks from each item, with `sep` between
/// neighbours.
pub fn map_join<T, U: ToText, F: Fn(&T) -> &U>(arr: &[T], f: F, sep: &str) -> (r: String)
    requires
        forall|i: int| 0 <= i < arr@.len() ==> f.requires((&#[trigger] arr@[i],)),
    ensures
        exists|picks: Seq<U>|
            {
                &&& picks.len() == arr@.len()
                &&& forall|i: int|
                    0 <= i < arr@.len() ==> f.ensures((&arr@[i],), &#[trigger] picks[i])
                &&& r@ == spec_join(spec_texts(picks), sep@)
            },
{
    let mut s = String::new();
    let ghost mut picks: Seq<U> = Seq::empty();
    let mut i: usize = 0;
    assert(spec_texts(picks) =~= Seq::<Seq<char>>::empty());
    while i < arr.len()
        invariant
            i <= arr.len(),
            picks.len() == i,
            forall|k: int| 0 <= k < arr@.len() ==> f.requires((&#[trigger] arr@[k],)),
            forall|k: int| 0 <= k < i ==> f.ensures((&arr@[k],), &#[trigger] picks[k]),
            s@ == spec_join(spec_texts(picks), sep@),
        decreases arr.len() - i,
    {
        let ghost before = picks;
        let u = f(&arr[i]);
        proof {
            picks = picks.push(*u);
            assert(spec_texts(picks).drop_last() =~= spec_texts(before));
            assert(spec_texts(picks).last() == u.text());
        }
        if i > 0 {
            s.append(sep);
        }
        let item = u.to_text();
        s.append(item.as_str());
        proof {
            if i == 0 {
                assert(s@ =~= u.text());
            }
        }
        i += 1;
    }
    s
}

} // verus!
