//! Geographic-to-plot coordinate translation.
//!
//! A cartographic projection engine turns longitude/latitude degrees into
//! projected linear coordinates; a composed coordinate system maps those
//! through a Cartesian pixel mapping.  The projection mathematics and the
//! pixel mapping are external collaborators; this crate holds the verified
//! decision logic around them: composing the projection-definition text,
//! deriving the projected bounding box from a geographic extent, and the
//! built/unbuilt lifecycle of the engine.

pub mod coord;
pub mod defstr;
pub mod engine;
