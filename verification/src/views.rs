//! Views of lists and of optional values.

use vstd::prelude::*;

verus! {

/// The view of each item, in order.
pub open spec fn views<T: View>(items: Seq<T>) -> Seq<T::V> {
    Seq::new(items.len(), |i: int| items[i]@)
}

/// The view of the value, where there is one.
pub open spec fn view_of<T: View>(item: Option<T>) -> Option<T::V> {
    match item {
        Some(value) => Some(value@),
        None => None,
    }
}

/// The value behind an optional reference.
pub open spec fn referent<T>(item: Option<&T>) -> Option<T> {
    match item {
        Some(value) => Some(*value),
        None => None,
    }
}

/// The text that an optional string slice holds.
pub open spec fn text_of(text: Option<&str>) -> Option<Seq<char>> {
    match text {
        Some(t) => Some(t@),
        None => None,
    }
}

} // verus!
