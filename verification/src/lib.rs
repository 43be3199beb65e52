//! An on-demand image thumbnailing library: query parsing, proportional
//! resize geometry, PNG decode/resize/encode through the `image` crate, and
//! the routing decisions of the HTTP endpoint, all with verified contracts.

use vstd::prelude::*;

pub mod codec;
pub mod geometry;
pub mod options;
pub mod pixels;
pub mod query;
pub mod router;

verus! {

/// The ways a thumbnail request can fail, one variant per pipeline stage.
#[derive(Clone, Copy, Debug, PartialEq, Eq, Structural)]
pub enum ThumbError {
    /// The recognized route was hit without a query string.
    MalformedRequest,
    /// A `width` parameter was present but is not an unsigned integer.
    InvalidWidth,
    /// The source bytes could not be retrieved.
    FetchFailure,
    /// The source bytes are not a valid PNG image.
    DecodeFailure,
    /// The target width is zero, exceeds the original width, or the
    /// computed target height is zero.
    DegenerateGeometry,
    /// Reserved for a failure of the re-encoding stage. The PNG encoder
    /// cannot fail on the nonempty well-formed grids the pipeline feeds
    /// it, so the pipeline never constructs this variant; it remains in
    /// the taxonomy with its 500 mapping.
    EncodeFailure,
}

} // verus!
