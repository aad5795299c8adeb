//! Settings that keyboard shortcuts and menus dispatch.
use vstd::prelude::*;

verus! {

/// Select a font size, in pixels.
#[derive(Debug, Clone, Copy, PartialEq, Eq, Structural)]
pub struct SelectFont(pub usize);

/// Select a border radius, in pixels.
#[derive(Debug, Clone, Copy, PartialEq, Eq, Structural)]
pub struct SelectRadius(pub usize);

} // verus!
