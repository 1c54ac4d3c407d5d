//! The composed geographic coordinate system.
//!
//! A [`LatLonCoord`] pairs a projection with a Cartesian pixel mapping: the
//! projected bounding box of the requested geographic extent is computed
//! once, a pixel mapping is built from it, and single points are then
//! forward-projected and mapped.  The projection handle and the pixel
//! mapping are external collaborators and stay type parameters; what is
//! verified here is what the constructor records: the requested extent is
//! kept for introspection, and the stored ranges are exactly the bounding
//! box the projection reported.

use vstd::prelude::*;

verus! {

/// A geographic coordinate system: the requested longitude and latitude
/// ranges, the projected x- and y-ranges they mapped to, the Cartesian
/// pixel mapping built from those ranges, and the owned projection.
///
/// `T` is the scalar type of coordinates, `P` the projection type and `C`
/// the type of the Cartesian pixel mapping.
pub struct LatLonCoord<T, P, C> {
    pub lon: Option<(T, T)>,
    pub lat: Option<(T, T)>,
    pub x: (T, T),
    pub y: (T, T),
    pub cartesian: C,
    pub proj: P,
}

impl<T: Copy, P, C> LatLonCoord<T, P, C> {
    /// Composes a coordinate system from the projection's bounding box for
    /// the requested extent and the pixel mapping built from that box.
    /// The requested ranges are stored unchanged, and the stored x- and
    /// y-ranges are exactly the two ranges of the bounding box.
    pub fn new(
        lon: Option<(T, T)>,
        lat: Option<(T, T)>,
        bounding: ((T, T), (T, T)),
        cartesian: C,
        proj: P,
    ) -> (r: Self)
        ensures
            r.lon == lon,
            r.lat == lat,
            r.x == bounding.0,
            r.y == bounding.1,
            r.cartesian == cartesian,
            r.proj == proj,
    {
        Self { lon, lat, x: bounding.0, y: bounding.1, cartesian, proj }
    }
}

} // verus!
