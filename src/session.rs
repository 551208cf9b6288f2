use vstd::prelude::*;

verus! {

/// A resource held during a print operation. Each pipeline acquires its
/// resources in a fixed order and releases them in the reverse order.
#[derive(Clone, Copy, Debug, PartialEq, Eq, Structural)]
pub enum Resource {
    /// The spooler handle of the device.
    Session,
    /// The device context used for drawing.
    Device,
    /// The started document.
    Document,
    /// The started page.
    Page,
    /// The off-screen canvas.
    Canvas,
    /// The bitmap behind the canvas.
    Bitmap,
    /// The bitmap selected into the canvas.
    Selection,
}

/// What the caller reports after performing the action a pipeline asked for.
#[derive(Clone, Copy, Debug, PartialEq, Eq, Structural)]
pub enum StepOutcome {
    /// The action completed (or reports nothing).
    Done,
    /// The action failed.
    Failed,
    /// The device resolution in device units.
    Resolution { width: i32, height: i32 },
    /// The identifier the spooler gave the document; zero means it was refused.
    JobId(u64),
}

} // verus!
