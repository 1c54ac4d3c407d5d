//! The projection engine and its error taxonomy.
//!
//! The engine follows a two-phase lifecycle: it is configured first and
//! built afterwards, and every coordinate operation before the build step
//! fails with [`CoordError::Uninital`].  The projection mathematics itself
//! is an external collaborator: the engine composes the definition text the
//! collaborator parses, and records the transformer handle the collaborator
//! materialized from it.  The scalar type of the coordinates and the handle
//! type of the transformer are type parameters, so the decision logic here
//! is verified for every choice of collaborator.

use vstd::prelude::*;
use crate::defstr::{definition_text, params_view, proj_string};

verus! {

/// The supported projection families.  Only the Mercator family is given a
/// concrete engine here.
#[derive(Clone, Debug)]
pub enum Projection {
    PlateCarree,
    LambertConformal,
    LambertCylindrical,
    Mercator,
}

/// Errors of coordinate operations: the engine was used before it was
/// built, or the underlying projection engine failed (its message text is
/// carried along).
#[derive(Debug)]
pub enum CoordError {
    Uninital,
    ProjError { source: String },
}

/// A Mercator projection engine: fixed configuration parameters and the
/// transformer handle, present only once the engine has been built.
///
/// `T` is the scalar type of coordinates and configuration values; `H` is
/// the handle type of the external transformer.
pub struct Mercator<T, H> {
    pub central_lon: T,
    pub min_latitude: T,
    pub max_latitude: T,

    pub false_easting: T,
    pub false_northing: T,
    pub latitude_true_scale: T,

    pub proj_marker: Option<H>,
}

/// The Mercator projection-definition text for the given parameter texts:
/// `+proj=merc +lon_0=<central meridian> +x_0=<false easting>
/// +y_0=<false northing> +units=m`.
pub open spec fn merc_definition_text(lon_0: Seq<char>, x_0: Seq<char>, y_0: Seq<char>) -> Seq<char> {
    definition_text(
        seq![
            (("proj")@, ("merc")@),
            (("lon_0")@, lon_0),
            (("x_0")@, x_0),
            (("y_0")@, y_0),
            (("units")@, ("m")@),
        ],
    )
}

/// Composes the Mercator projection-definition string from the decimal
/// texts of the central meridian, the false easting and the false northing.
pub fn merc_definition(central_lon: &str, false_easting: &str, false_northing: &str) -> (r: String)
    ensures
        r@ == merc_definition_text(central_lon@, false_easting@, false_northing@),
{
    let input: Vec<(&str, &str)> = vec![
        ("proj", "merc"),
        ("lon_0", central_lon),
        ("x_0", false_easting),
        ("y_0", false_northing),
        ("units", "m"),
    ];
    let ghost params = input@;
    let r = proj_string(input);
    proof {
        assert(params_view(params) =~= seq![
            (("proj")@, ("merc")@),
            (("lon_0")@, central_lon@),
            (("x_0")@, false_easting@),
            (("y_0")@, false_northing@),
            (("units")@, ("m")@),
        ]);
    }
    r
}

/// The geographic range an optional range resolves to: the range itself
/// when one was supplied, the default bounds otherwise.
pub open spec fn spec_resolve_range<T>(ranged: Option<(T, T)>, lo: T, hi: T) -> (T, T) {
    match ranged {
        Some(v) => v,
        None => (lo, hi),
    }
}

impl<T, H> Mercator<T, H> {
    /// A Mercator engine with the given configuration, not yet built.
    pub fn new(
        central_lon: T,
        min_latitude: T,
        max_latitude: T,
        false_easting: T,
        false_northing: T,
        latitude_true_scale: T,
    ) -> (r: Self)
        ensures
            r.central_lon == central_lon,
            r.min_latitude == min_latitude,
            r.max_latitude == max_latitude,
            r.false_easting == false_easting,
            r.false_northing == false_northing,
            r.latitude_true_scale == latitude_true_scale,
            r.proj_marker is None,
    {
        Self {
            central_lon,
            min_latitude,
            max_latitude,
            false_easting,
            false_northing,
            latitude_true_scale,
            proj_marker: None,
        }
    }

    /// The terminal build step: records the transformer handle the external
    /// collaborator materialized from this engine's definition string.  The
    /// configuration is unchanged and the engine counts as built.
    pub fn build(self, transformer: H) -> (r: Self)
        ensures
            r.central_lon == self.central_lon,
            r.min_latitude == self.min_latitude,
            r.max_latitude == self.max_latitude,
            r.false_easting == self.false_easting,
            r.false_northing == self.false_northing,
            r.latitude_true_scale == self.latitude_true_scale,
            r.proj_marker == Some(transformer),
    {
        Self { proj_marker: Some(transformer), ..self }
    }

    /// The transformer handle, or the uninitialized error on an engine that
    /// has not been built.
    pub fn transformer(&self) -> (r: Result<&H, CoordError>)
        ensures
            r is Ok <==> self.proj_marker is Some,
            r is Ok ==> *r->Ok_0 == self.proj_marker->0,
            r is Err ==> r->Err_0 is Uninital,
    {
        match &self.proj_marker {
            Some(h) => Ok(h),
            None => Err(CoordError::Uninital),
        }
    }
}

impl<T: Copy, H> Mercator<T, H> {
    /// The geographic extent a bounding-box request resolves to, or the
    /// uninitialized error: a missing longitude range becomes the full
    /// world range, a missing latitude range becomes the engine's
    /// configured latitude bounds.
    pub open spec fn spec_resolve_extent(
        self,
        x_ranged: Option<(T, T)>,
        y_ranged: Option<(T, T)>,
        lon_min: T,
        lon_max: T,
    ) -> Result<((T, T), (T, T)), CoordError> {
        if self.proj_marker is Some {
            Ok(
                (
                    spec_resolve_range(x_ranged, lon_min, lon_max),
                    spec_resolve_range(y_ranged, self.min_latitude, self.max_latitude),
                ),
            )
        } else {
            Err(CoordError::Uninital)
        }
    }

    /// Resolves the geographic extent of a bounding-box request.  The two
    /// corners of the result are what the bounding box projects: the
    /// bottom-left corner is the resolved minima, the top-right corner the
    /// resolved maxima.  Fails with the uninitialized error if and only if
    /// the engine has not been built.
    pub fn resolve_extent(
        &self,
        x_ranged: Option<(T, T)>,
        y_ranged: Option<(T, T)>,
        lon_min: T,
        lon_max: T,
    ) -> (r: Result<((T, T), (T, T)), CoordError>)
        ensures
            r == self.spec_resolve_extent(x_ranged, y_ranged, lon_min, lon_max),
    {
        if self.proj_marker.is_none() {
            return Err(CoordError::Uninital);
        }
        let x = match x_ranged {
            Some(v) => v,
            None => (lon_min, lon_max),
        };
        let y = match y_ranged {
            Some(v) => v,
            None => (self.min_latitude, self.max_latitude),
        };
        Ok((x, y))
    }
}

/// The projected bounding box assembled from its two projected corners:
/// the x-range takes the x of each corner, the y-range the y of each.
pub open spec fn spec_corners_to_ranges<T>(bottom_left: (T, T), top_right: (T, T)) -> (
    (T, T),
    (T, T),
) {
    ((bottom_left.0, top_right.0), (bottom_left.1, top_right.1))
}

/// Assembles the projected bounding box from the projections of the
/// bottom-left and top-right corners of the geographic extent.
pub fn corners_to_ranges<T: Copy>(bottom_left: (T, T), top_right: (T, T)) -> (r: (
    (T, T),
    (T, T),
))
    ensures
        r == spec_corners_to_ranges(bottom_left, top_right),
{
    ((bottom_left.0, top_right.0), (bottom_left.1, top_right.1))
}

/// Law: requesting a bounding box with no ranges is the same as requesting
/// it with the default extent spelled out: the full longitude range and the
/// engine's configured latitude bounds.
pub proof fn lemma_default_extent<T: Copy, H>(m: Mercator<T, H>, lon_min: T, lon_max: T)
    ensures
        m.spec_resolve_extent(None, None, lon_min, lon_max) == m.spec_resolve_extent(
            Some((lon_min, lon_max)),
            Some((m.min_latitude, m.max_latitude)),
            lon_min,
            lon_max,
        ),
{
}

/// Law: every bounding-box request on an engine that has not been built
/// fails with the uninitialized error, whatever extent was asked for.
pub proof fn lemma_unbuilt_rejected<T: Copy, H>(
    m: Mercator<T, H>,
    x_ranged: Option<(T, T)>,
    y_ranged: Option<(T, T)>,
    lon_min: T,
    lon_max: T,
)
    requires
        m.proj_marker is None,
    ensures
        m.spec_resolve_extent(x_ranged, y_ranged, lon_min, lon_max) == Err::<
            ((T, T), (T, T)),
            CoordError,
        >(CoordError::Uninital),
{
}

/// Law: the bounding box keeps its defining corners exactly: reading the
/// two minima back gives the bottom-left corner, and the two maxima the
/// top-right corner.
pub proof fn lemma_corners_round_trip<T: Copy>(bottom_left: (T, T), top_right: (T, T))
    ensures
        ({
            let (x, y) = spec_corners_to_ranges(bottom_left, top_right);
            (x.0, y.0) == bottom_left && (x.1, y.1) == top_right
        }),
{
}

} // verus!
