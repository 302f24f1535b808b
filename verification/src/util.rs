use vstd::prelude::*;

verus! {

/// Puts `items` in front of the elements of `v`.
pub fn prepend<T: Copy>(v: &mut Vec<T>, items: &[T])
    ensures
        final(v)@ == items@ + old(v)@,
{
    let mut r: Vec<T> = Vec::new();
    let mut i: usize = 0;
    while i < items.len()
        invariant
            i <= items@.len(),
            r@ == items@.take(i as int),
        decreases items@.len() - i,
    {
        r.push(items[i]);
        i = i + 1;
    }
    let mut j: usize = 0;
    while j < v.len()
        invariant
            j <= v@.len(),
            v@ == old(v)@,
            r@ == items@ + v@.take(j as int),
        decreases v@.len() - j,
    {
        r.push(v[j]);
        j = j + 1;
        assert(r@ =~= items@ + v@.take(j as int));
    }
    assert(v@.take(v@.len() as int) =~= v@);
    *v = r;
}

/// Inserting at the front of a vector.
pub trait VecExt<T> {
    fn prepend(&mut self, items: &[T]);
}

impl<T: Copy> VecExt<T> for Vec<T> {
    fn prepend(&mut self, items: &[T])
        ensures
            final(self)@ == items@ + old(self)@,
    {
        prepend(self, items)
    }
}

/// A copy of the elements of `s`.
pub fn copied<T: Copy>(s: &[T]) -> (r: Vec<T>)
    ensures
        r@ == s@,
{
    let mut r: Vec<T> = Vec::new();
    let mut i: usize = 0;
    while i < s.len()
        invariant
            i <= s@.len(),
            r@ == s@.take(i as int),
        decreases s@.len() - i,
    {
        r.push(s[i]);
        i = i + 1;
    }
    assert(s@.take(s@.len() as int) =~= s@);
    r
}

/// Calls `Vec::into_boxed_slice`, which keeps the elements.
#[verifier::external_body]
fn into_boxed<T>(v: Vec<T>) -> (r: Box<[T]>)
    ensures
        r@ == v@,
{
    v.into_boxed_slice()
}

/// An owned copy of a slice.
pub trait CopySlice<T> {
    fn cloned(self) -> Box<[T]>;
}

impl<'a, T: Clone> CopySlice<T> for &'a [T] {
    fn cloned(self) -> (r: Box<[T]>)
        ensures
            r@.len() == self@.len(),
            forall|i: int| 0 <= i < self@.len() ==> cloned::<T>(self@[i], #[trigger] r@[i]),
    {
        let mut v: Vec<T> = Vec::new();
        let mut i: usize = 0;
        while i < self.len()
            invariant
                i <= self@.len(),
                v@.len() == i,
                forall|k: int| 0 <= k < i ==> cloned::<T>(self@[k], #[trigger] v@[k]),
            decreases self@.len() - i,
        {
            v.push(self[i].clone());
            i = i + 1;
        }
        into_boxed(v)
    }
}

/// Running a function on the content of an `Option` and passing the
/// option on.
pub trait PeekExt<T, R>: Sized {
    /// `x` is a content that `peek` runs the function on.
    spec fn holds(&self, x: T) -> bool;

    fn peek<F: FnOnce(&T) -> R>(self, func: F) -> (r: Self)
        requires
            forall|x: T| self.holds(x) ==> call_requires(func, (&x,)),
        ensures
            r == self,
    ;
}

impl<T, R> PeekExt<T, R> for Option<T> {
    open spec fn holds(&self, x: T) -> bool {
        *self == Some(x)
    }

    fn peek<F: FnOnce(&T) -> R>(self, func: F) -> (r: Self)
        ensures
            self matches Some(x) ==> exists|ret: R| call_ensures(func, (&x,), ret),
    {
        match &self {
            Some(inner) => {
                assert(<Option<T> as PeekExt<T, R>>::holds(&self, *inner));
                func(inner);
            },
            None => {},
        }
        self
    }
}

} // verus!
