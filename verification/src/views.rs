//! Views of optional values.

use vstd::prelude::*;

verus! {

/// The view of the value that `option` holds, if it holds one.
pub open spec fn option_view<T: View>(option: Option<T>) -> Option<T::V> {
    match option {
        Some(value) => Some(value@),
        None => None,
    }
}

} // verus!
