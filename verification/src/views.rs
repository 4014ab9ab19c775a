//! Views through `Option`, `Result` and lists.

use vstd::prelude::*;

verus! {

/// An optional value, by its view.
pub open spec fn opt<T: View>(o: Option<T>) -> Option<T::V> {
    match o {
        Some(t) => Some(t@),
        None => None,
    }
}

/// An outcome, by the views of its value and its error.
pub open spec fn res<T: View, E: View>(r: Result<T, E>) -> Result<T::V, E::V> {
    match r {
        Ok(t) => Ok(t@),
        Err(e) => Err(e@),
    }
}

/// An outcome without a value, by the view of its error.
pub open spec fn done<E: View>(r: Result<(), E>) -> Result<(), E::V> {
    match r {
        Ok(_) => Ok(()),
        Err(e) => Err(e@),
    }
}

/// A list, by the views of its items.
pub open spec fn list<T: View>(v: Seq<T>) -> Seq<T::V> {
    v.map_values(|t: T| t@)
}

/// A copy of an optional text.
pub fn copy_opt(o: &Option<String>) -> (r: Option<String>)
    ensures
        opt(r) == opt(*o),
{
    match o {
        Some(s) => Some(s.clone()),
        None => None,
    }
}

/// A copy of bytes.
pub fn copy_bytes(b: &Vec<u8>) -> (r: Vec<u8>)
    ensures
        r@ == b@,
{
    let r: Vec<u8> = b.clone();
    assert(r@ =~= b@);
    r
}

/// A copy of a list of texts.
pub fn copy_list(v: &Vec<String>) -> (r: Vec<String>)
    ensures
        list(r@) == list(v@),
{
    let mut r: Vec<String> = Vec::new();
    for i in 0..v.len()
        invariant
            r@.len() == i,
            i <= v@.len(),
            forall|k: int| 0 <= k < i ==> r@[k]@ == v@[k]@,
    {
        r.push(v[i].clone());
    }
    assert(list(r@) =~= list(v@));
    r
}

/// Whether two byte strings are the same.
pub fn same_bytes(a: &Vec<u8>, b: &Vec<u8>) -> (r: bool)
    ensures
        r == (a@ == b@),
{
    if a.len() != b.len() {
        return false;
    }
    for i in 0..a.len()
        invariant
            a@.len() == b@.len(),
            forall|k: int| 0 <= k < i ==> a@[k] == b@[k],
    {
        if a[i] != b[i] {
            return false;
        }
    }
    assert(a@ =~= b@);
    true
}

/// Whether an optional text is `s`.
pub fn is_text(o: &Option<String>, s: &String) -> (r: bool)
    ensures
        r == (opt(*o) == Some(s@)),
{
    match o {
        Some(t) => *t == *s,
        None => false,
    }
}

/// Nothing is lost on the way through `Option`, `Result` and lists: what is there is there by
/// its view, in its place, and nothing else is.
pub proof fn law_views_keep_everything<T: View, E: View>(t: T, e: E, v: Seq<T>, i: int)
    ensures
        opt(Some(t)) == Some(t@),
        opt(None::<T>) is None,
        res(Ok::<T, E>(t)) == Ok::<T::V, E::V>(t@),
        res(Err::<T, E>(e)) == Err::<T::V, E::V>(e@),
        done(Ok::<(), E>(())) is Ok,
        done(Err::<(), E>(e)) == Err::<(), E::V>(e@),
        list(v).len() == v.len(),
        0 <= i < v.len() ==> list(v)[i] == v[i]@,
{
}

} // verus!
