//! The ellipsis marker, which stands in a subscript beside slice values.

use vstd::prelude::*;

verus! {

/// The ellipsis marker. It holds nothing: every value of it is the same.
#[derive(Clone, Copy, Debug, PartialEq, Eq, Structural)]
pub struct PyEllipsis;

impl PyEllipsis {
    /// The marker.
    pub fn py_new() -> (r: PyEllipsis)
        ensures
            r == PyEllipsis,
    {
        PyEllipsis
    }

    /// The text of the marker.
    pub fn repr(&self) -> (r: String)
        ensures
            r@ == "Ellipsis"@,
    {
        "Ellipsis".to_owned()
    }

    /// The name under which the marker is found again when it is restored
    /// from a stored form.
    pub fn reduce(&self) -> (r: String)
        ensures
            r@ == "Ellipsis"@,
    {
        "Ellipsis".to_owned()
    }
}

} // verus!
