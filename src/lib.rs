//! Printing core: canonical printer and job states, device capabilities,
//! job listing, and the decision logic of the raw and raster print pipelines.
//!
//! The operating system's spooler and graphics calls are performed by the
//! caller; the pipelines here decide, step by step, which call comes next and
//! which resources must be released, so that every exit path releases what was
//! acquired, in reverse order.

pub mod caps;
pub mod error;
pub mod jobs;
pub mod printer;
pub mod raster;
pub mod raw;
pub mod session;
pub mod state;
pub mod text;
pub mod time;

pub use caps::DeviceCaps;
pub use error::{PageStep, PrintError};
pub use jobs::{filter_jobs, JobRecord, PlatformPrinterJobGetters, PrinterJob};
pub use printer::{
    get_default_printer, get_printer_by_name, join_with_commas, PlatformPrinterGetters, Printer,
    PrinterRecord,
};
pub use raster::{Bitmap, RasterAction, RasterJob, RasterStage};
pub use raw::{parse_options, RawAction, RawJob, RawOptions, RawStage};
pub use session::{Resource, StepOutcome};
pub use state::{
    normalize_job_state, normalize_printer_state, state_reasons, to_platform_command, JobCommand,
    PrinterJobState, PrinterState,
};
pub use time::epoch_millis;
