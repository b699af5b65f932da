//! Views of optional values and of vectors, element by element.

use vstd::prelude::*;

verus! {

/// The view of what an option holds, if it holds anything.
pub open spec fn view_of<T: View>(value: Option<T>) -> Option<T::V> {
    match value {
        Some(inner) => Some(inner@),
        None => None,
    }
}

/// The views of the items of a sequence, in order.
pub open spec fn views_of<T: View>(items: Seq<T>) -> Seq<T::V> {
    Seq::new(items.len(), |i: int| items[i]@)
}

/// The view of what a result holds where it is `Ok`; an error stays as it
/// is.
pub open spec fn ok_view<T: View, E>(value: Result<T, E>) -> Result<T::V, E> {
    match value {
        Ok(inner) => Ok(inner@),
        Err(error) => Err(error),
    }
}

} // verus!
