use vstd::prelude::*;

verus! {

/// A two-dimensional size in pixels.
#[derive(Clone, Copy, Debug, PartialEq, Eq, Structural)]
pub struct Extent {
    pub width: u32,
    pub height: u32,
}

/// What a display surface reports it can present.
#[derive(Clone, Copy, Debug, PartialEq, Eq, Structural)]
pub struct SurfaceCaps {
    pub min_image_count: u32,
    /// `None` when the surface sets no upper bound on the image count.
    pub max_image_count: Option<u32>,
    pub min_image_extent: Extent,
    pub max_image_extent: Extent,
}

/// The parameters with which a presentation chain is (re)created.
#[derive(Clone, Copy, Debug, PartialEq, Eq, Structural)]
pub struct ChainRequest {
    pub extent: Extent,
    pub min_image_count: u32,
}

/// Why a presentation chain cannot be created now.
#[derive(Clone, Copy, Debug, PartialEq, Eq, Structural)]
pub enum ChainError {
    /// The surface cannot take the requested extent at the moment (for
    /// instance a minimised window): query the capabilities again and retry.
    SurfaceStale,
}

/// A presentable extent: non-empty and within the surface's bounds.
pub open spec fn supports_extent(caps: SurfaceCaps, e: Extent) -> bool {
    &&& e.width > 0
    &&& e.height > 0
    &&& caps.min_image_extent.width <= e.width <= caps.max_image_extent.width
    &&& caps.min_image_extent.height <= e.height <= caps.max_image_extent.height
}

/// One image more than the surface's minimum, so that acquisition need not
/// wait for the presentation engine, but never above the surface's maximum.
pub open spec fn requested_image_count(caps: SurfaceCaps) -> u32 {
    let wanted: u32 = if caps.min_image_count < u32::MAX {
        (caps.min_image_count + 1) as u32
    } else {
        caps.min_image_count
    };
    match caps.max_image_count {
        Some(max) => if wanted > max { max } else { wanted },
        None => wanted,
    }
}

/// Decides how to (re)create the presentation chain for a window of the
/// given size: fails with `SurfaceStale` exactly when the surface cannot
/// present that extent.
pub fn chain_request(window: Extent, caps: &SurfaceCaps) -> (r: Result<ChainRequest, ChainError>)
    ensures
        supports_extent(*caps, window) <==> r is Ok,
        r matches Ok(req) ==> req.extent == window && req.min_image_count == requested_image_count(*caps),
        r matches Err(e) ==> e == ChainError::SurfaceStale,
{
    let fits = window.width > 0 && window.height > 0
        && caps.min_image_extent.width <= window.width && window.width <= caps.max_image_extent.width
        && caps.min_image_extent.height <= window.height && window.height <= caps.max_image_extent.height;
    if !fits {
        return Err(ChainError::SurfaceStale);
    }
    let wanted: u32 = if caps.min_image_count < u32::MAX {
        caps.min_image_count + 1
    } else {
        caps.min_image_count
    };
    let count: u32 = match caps.max_image_count {
        Some(max) => if wanted > max { max } else { wanted },
        None => wanted,
    };
    Ok(ChainRequest { extent: window, min_image_count: count })
}

} // verus!
