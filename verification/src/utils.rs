//! Small helpers shared with the surrounding application.

use vstd::prelude::*;

verus! {

/// One `name="value"` attribute of an HTML tag, as the surrounding
/// application renders it.
pub struct HtmlAttr<'a> {
    pub name: &'a str,
    pub value: &'a str,
}

} // verus!
