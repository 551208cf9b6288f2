use vstd::prelude::*;

verus! {

/// The page-level step of the raster pipeline that failed.
#[derive(Clone, Copy, Debug, PartialEq, Eq, Structural)]
pub enum PageStep {
    /// Creating the off-screen canvas compatible with the device.
    Canvas,
    /// Creating the bitmap that backs the canvas.
    Bitmap,
    /// Uploading the pixel data into the bitmap.
    Upload,
    /// Scaling the canvas onto the device page.
    StretchCopy,
}

/// Failures reported by the printing operations.
#[derive(Clone, Copy, Debug, PartialEq, Eq, Structural)]
pub enum PrintError {
    /// The device session (spooler handle or device context) could not be acquired.
    SessionAcquisitionFailed,
    /// The spooler refused to start the document.
    DocumentStartFailed,
    /// A per-page graphics resource could not be created or used.
    PageResourceFailed(PageStep),
    /// The requested job state has no platform command.
    UnsupportedTransition,
    /// The input cannot be used (unreadable source, out-of-range value).
    InvalidInput,
    /// Some other platform call failed.
    UnderlyingCallFailed,
}

} // verus!
