//! Routing classification of request paths.

use vstd::prelude::*;
use crate::text::{chars_of, ends_with, has_suffix};

verus! {

/// How a request path is routed once the request is authenticated.
#[derive(Clone, Copy, Debug, PartialEq, Eq, Structural)]
pub enum Route {
    /// A playlist, manifest or init segment: forwarded to the origin as is.
    Manifest,
    /// A media segment: may be selected for watermarking.
    SegmentCandidate,
}

/// A path names a manifest when it ends with one of the three manifest suffixes.
pub open spec fn is_manifest_path(path: Seq<char>) -> bool {
    has_suffix(path, ".m3u8"@) || has_suffix(path, ".mpd"@) || has_suffix(path, ".cmfv"@)
}

/// The route of a path.
pub open spec fn route_of(path: Seq<char>) -> Route {
    if is_manifest_path(path) {
        Route::Manifest
    } else {
        Route::SegmentCandidate
    }
}

/// Classifies a request path.
pub fn classify(path: &str) -> (route: Route)
    ensures
        route == route_of(path@),
{
    let p = chars_of(path);
    let hls = chars_of(".m3u8");
    let dash = chars_of(".mpd");
    let init = chars_of(".cmfv");
    if ends_with(&p, &hls) || ends_with(&p, &dash) || ends_with(&p, &init) {
        Route::Manifest
    } else {
        Route::SegmentCandidate
    }
}

} // verus!
