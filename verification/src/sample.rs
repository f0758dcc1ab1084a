//! A colour that was picked, and how.
use crate::color::Rgb8;
use crate::geometry::ScreenPointPx;
use vstd::prelude::*;

verus! {

#[derive(Debug, Clone, Copy, PartialEq, Eq, Structural)]
pub enum SampleKind {
    Live,
    Frozen,
}

#[derive(Debug, Clone, Copy, PartialEq, Eq, Structural)]
pub struct PickedColor {
    pub rgb: Rgb8,
    pub source: ScreenPointPx,
    pub kind: SampleKind,
}

} // verus!
