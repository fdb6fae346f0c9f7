//! A filter on `Option` by a predicate that consumes nothing.
use vstd::prelude::*;

verus! {

pub trait OptionExt<T>: Sized {
    /// Keeps the value when the predicate holds of it; `None` otherwise.
    fn filter_val<P: FnOnce(&T) -> bool>(self, predicate: P) -> (r: Self)
        requires
            forall|x: &T| predicate.requires((x,)),
    ;
}

impl<T> OptionExt<T> for Option<T> {
    fn filter_val<P: FnOnce(&T) -> bool>(self, predicate: P) -> (r: Self)
        ensures
            match self {
                Some(x) => (r == Some(x) && predicate.ensures((&x,), true))
                    || (r is None && predicate.ensures((&x,), false)),
                None => r is None,
            },
    {
        if let Some(x) = self {
            if predicate(&x) {
                return Some(x);
            }
        }
        None
    }
}

} // verus!
