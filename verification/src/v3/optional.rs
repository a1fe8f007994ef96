//! What optional fields and lists of parts hold.

use vstd::prelude::*;

verus! {

/// The texts of `items`, in order.
pub open spec fn texts(items: Seq<String>) -> Seq<Seq<char>> {
    items.map_values(|s: String| s@)
}

/// What each of `items` holds, in order.
pub open spec fn views<T: View>(items: Seq<T>) -> Seq<T::V> {
    items.map_values(|t: T| t@)
}

/// The texts of `items`, where there are any.
pub open spec fn opt_texts(items: Option<Vec<String>>) -> Option<Seq<Seq<char>>> {
    match items {
        Some(list) => Some(texts(list@)),
        None => None,
    }
}

/// What each of `items` holds, where there are any.
pub open spec fn opt_views<T: View>(items: Option<Vec<T>>) -> Option<Seq<T::V>> {
    match items {
        Some(list) => Some(views(list@)),
        None => None,
    }
}

/// What `item` holds, where there is one.
pub open spec fn opt_view<T: View>(item: Option<T>) -> Option<T::V> {
    match item {
        Some(t) => Some(t@),
        None => None,
    }
}

/// The items that are there, or none.
pub open spec fn or_empty<A>(items: Option<Seq<A>>) -> Seq<A> {
    match items {
        Some(list) => list,
        None => Seq::empty(),
    }
}

} // verus!
