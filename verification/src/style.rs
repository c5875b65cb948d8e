//! Presentation state the widget layer reads: which button is drawn as
//! the active one. The drawing itself is the widget layer's business;
//! this crate only computes the flag.

use vstd::prelude::*;

verus! {

/// The style selector of a highlightable button: whether it is drawn as
/// the currently active choice.
#[derive(Clone, Copy, Debug, PartialEq, Eq, Structural)]
pub struct ButtonStyle {
    pub active: bool,
}

} // verus!
