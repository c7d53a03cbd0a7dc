//! Drawable object descriptions.
//!
//! A closed variant type over the drawable kinds; an immutable description
//! with no behavior beyond being handed to the drawing backend.

use vstd::prelude::*;

use crate::transform::Color;

verus! {

/// A filled primitive shape.  Sizes are fixed-point pixels (thousandths).
#[derive(Clone, Debug, PartialEq)]
pub enum Shape {
    Circle { radius: i64, color: Color },
    Rect { width: i64, height: i64, color: Color },
}

/// An image reference, resolved externally by the resource cache.
#[derive(Clone, Debug, PartialEq)]
pub struct ImageRef {
    pub path: String,
}

/// A text block, laid out and rasterized externally.  `size` is the font
/// size in fixed-point pixels.
#[derive(Clone, Debug, PartialEq)]
pub struct TextBlock {
    pub text: String,
    pub size: i64,
    pub color: Color,
}

/// A tagged union of the drawable kinds.
#[derive(Clone, Debug, PartialEq)]
pub enum Object {
    Shape(Shape),
    Image(ImageRef),
    Text(TextBlock),
}

} // verus!
