//! Copies that are provably equal to their originals.
use vstd::prelude::*;

verus! {

/// Values that can be copied with the copy equal to the original.
pub trait Dup: Sized {
    fn dup(&self) -> (r: Self)
        ensures
            r == *self,
    ;
}

impl Dup for String {
    fn dup(&self) -> (r: Self) {
        self.clone()
    }
}

impl Dup for Option<String> {
    fn dup(&self) -> (r: Self) {
        match self {
            Some(s) => Some(s.clone()),
            None => None,
        }
    }
}

/// A copy of a vector whose items are copied one by one.
pub fn dup_vec<T: Dup>(v: &Vec<T>) -> (r: Vec<T>)
    ensures
        r@ == v@,
{
    let mut r: Vec<T> = Vec::new();
    let mut i: usize = 0;
    while i < v.len()
        invariant
            i <= v@.len(),
            r@ == v@.subrange(0, i as int),
        decreases v@.len() - i,
    {
        r.push(v[i].dup());
        i += 1;
        assert(r@ =~= v@.subrange(0, i as int));
    }
    assert(v@.subrange(0, v@.len() as int) =~= v@);
    r
}

} // verus!
