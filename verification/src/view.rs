//! Mathematical values of optional data.

use vstd::prelude::*;

verus! {

/// The mathematical value of something that may be missing.
pub open spec fn view_of<T: View>(value: Option<T>) -> Option<T::V> {
    match value {
        Some(value) => Some(value@),
        None => None,
    }
}

} // verus!
