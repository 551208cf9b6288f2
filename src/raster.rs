use vstd::prelude::*;
use crate::error::{PageStep, PrintError};
use crate::session::{Resource, StepOutcome};
use image::DynamicImage;

verus! {

/// `image::DynamicImage`, carried opaque to its conversion to RGBA.
#[verifier::external_type_specification]
#[verifier::external_body]
pub struct ExDynamicImage(image::DynamicImage);

/// A decoded image in 8-bit RGBA layout, rows top to bottom.
pub struct Bitmap {
    pub width: u32,
    pub height: u32,
    pub pixels: Vec<u8>,
}

/// Relies on `image::DynamicImage::to_rgba8`: a copy of the image as 8-bit
/// RGBA; its raw buffer (`into_raw`) holds at least four bytes for each pixel
/// of its `dimensions`.
#[verifier::external_body]
fn to_rgba_bitmap(image: &DynamicImage) -> (r: Bitmap)
    ensures
        r.pixels@.len() >= 4 * r.width * r.height,
{
    let rgba = image.to_rgba8();
    let (width, height) = rgba.dimensions();
    Bitmap { width, height, pixels: rgba.into_raw() }
}

/// Number of resources the raster pipeline can hold at once.
pub const RASTER_LEVELS: u8 = 7;

/// The resource at a given nesting level of the raster pipeline.
pub open spec fn raster_level(i: int) -> Resource {
    if i == 0 {
        Resource::Session
    } else if i == 1 {
        Resource::Device
    } else if i == 2 {
        Resource::Document
    } else if i == 3 {
        Resource::Page
    } else if i == 4 {
        Resource::Canvas
    } else if i == 5 {
        Resource::Bitmap
    } else {
        Resource::Selection
    }
}

fn raster_resource_at(i: u8) -> (r: Resource)
    requires
        i < RASTER_LEVELS,
    ensures
        r == raster_level(i as int),
{
    match i {
        0 => Resource::Session,
        1 => Resource::Device,
        2 => Resource::Document,
        3 => Resource::Page,
        4 => Resource::Canvas,
        5 => Resource::Bitmap,
        _ => Resource::Selection,
    }
}

/// Horizontal offset that centers a bitmap on the page, rounding toward zero.
pub open spec fn centered_x(device_width: int, bitmap_width: int) -> int {
    let d = device_width - bitmap_width;
    if d >= 0 {
        d / 2
    } else {
        -((-d) / 2)
    }
}

fn compute_centered_x(device_width: i32, bitmap_width: u32) -> (r: i32)
    requires
        bitmap_width <= i32::MAX,
    ensures
        r == centered_x(device_width as int, bitmap_width as int),
{
    let d: i64 = device_width as i64 - bitmap_width as i64;
    if d >= 0 {
        (d / 2) as i32
    } else {
        let n: i64 = -d;
        let h: i64 = n / 2;
        (-h) as i32
    }
}

/// An action the raster pipeline asks the caller to perform.
#[derive(Clone, Copy, Debug, PartialEq, Eq)]
pub enum RasterAction {
    /// Open the spooler handle of the device.
    OpenSession,
    /// Fetch the device's current configuration.
    FetchConfig,
    /// Create the drawing device context, overriding the paper length and
    /// width (tenths of a millimetre) where given.
    CreateDevice { paper_length: Option<i16>, paper_width: Option<i16> },
    /// Query the device resolution of the page.
    QueryResolution,
    /// Start the document.
    StartDocument,
    /// Start a page.
    StartPage,
    /// Create an off-screen canvas compatible with the device.
    CreateCanvas,
    /// Create a bitmap of the given size compatible with the device.
    CreateBitmap { width: u32, height: u32 },
    /// Select the bitmap into the canvas.
    SelectBitmap,
    /// Upload the pixel rows, top row first, into the bitmap.
    UploadPixels { rows: u32 },
    /// Copy the canvas onto the page at (x, y) with a halftone stretch.
    StretchCopy { x: i32, y: i32, width: u32, height: u32 },
    /// Release a resource.
    Release(Resource),
    /// The operation is over, with this result.
    Finish(Result<u64, PrintError>),
}

/// Where the raster pipeline stands: which action's outcome it awaits.
#[derive(Clone, Copy, Debug, PartialEq, Eq, Structural)]
pub enum RasterStage {
    Start,
    AwaitOpen,
    AwaitConfig,
    AwaitDevice,
    AwaitResolution,
    AwaitDocument,
    AwaitPage,
    AwaitCanvas,
    AwaitBitmap,
    AwaitSelect,
    AwaitUpload,
    AwaitCopy,
    ReleasePage,
    Unwind,
    Finished,
}

/// The decision state of one raster print job: a bitmap printed on
/// `page_count` pages, horizontally centered and top-aligned.
#[derive(Clone, Copy, Debug, PartialEq, Eq)]
pub struct RasterJob {
    pub width: u32,
    pub height: u32,
    pub page_count: u32,
    pub paper_length: Option<i16>,
    pub paper_width: Option<i16>,
    pub stage: RasterStage,
    /// Number of resources held; they are `raster_level(0 .. depth)`.
    pub depth: u8,
    pub pages_done: u32,
    pub device_width: i32,
    pub job_id: u64,
    pub result: Result<u64, PrintError>,
}

impl RasterJob {
    /// The state is one the pipeline can reach.
    pub open spec fn wf(self) -> bool {
        &&& self.width <= i32::MAX
        &&& self.height <= i32::MAX
        &&& self.depth <= RASTER_LEVELS
        &&& self.pages_done <= self.page_count
        &&& match self.stage {
            RasterStage::Start | RasterStage::AwaitOpen | RasterStage::Finished => self.depth
                == 0,
            RasterStage::AwaitConfig | RasterStage::AwaitDevice => self.depth == 1,
            RasterStage::AwaitResolution | RasterStage::AwaitDocument => self.depth == 2,
            RasterStage::AwaitPage | RasterStage::AwaitCanvas => self.depth == 4
                && self.pages_done < self.page_count,
            RasterStage::AwaitBitmap => self.depth == 5 && self.pages_done < self.page_count,
            RasterStage::AwaitSelect | RasterStage::AwaitUpload | RasterStage::AwaitCopy =>
                self.depth == 7 && self.pages_done < self.page_count,
            RasterStage::ReleasePage => 3 <= self.depth,
            RasterStage::Unwind => true,
        }
        &&& (self.depth >= 3 ==> self.job_id != 0)
        &&& (self.result is Ok ==> self.pages_done == self.page_count && self.job_id != 0
            && self.result->Ok_0 == self.job_id)
    }

    /// The geometry of the page is overridden.
    pub open spec fn overrides_paper(self) -> bool {
        self.paper_length is Some || self.paper_width is Some
    }

    /// Release the innermost resource, or finish once none is held.
    pub open spec fn unwind_step(self) -> (RasterJob, RasterAction) {
        if self.depth > 0 {
            (
                RasterJob { depth: (self.depth - 1) as u8, stage: RasterStage::Unwind, ..self },
                RasterAction::Release(raster_level(self.depth - 1)),
            )
        } else {
            (RasterJob { stage: RasterStage::Finished, ..self }, RasterAction::Finish(self.result))
        }
    }

    /// Fail with `e`: release everything held, innermost first.
    pub open spec fn fail_step(self, e: PrintError) -> (RasterJob, RasterAction) {
        RasterJob { result: Err(e), ..self }.unwind_step()
    }

    /// Start the next page, or end the document when all pages are done.
    pub open spec fn next_page_step(self) -> (RasterJob, RasterAction) {
        if self.pages_done < self.page_count {
            (
                RasterJob { stage: RasterStage::AwaitPage, depth: 4, ..self },
                RasterAction::StartPage,
            )
        } else {
            RasterJob { result: Ok(self.job_id), ..self }.unwind_step()
        }
    }

    /// Release the page's resources, innermost first, then go on.
    pub open spec fn release_page_step(self) -> (RasterJob, RasterAction) {
        if self.depth > 3 {
            (
                RasterJob { depth: (self.depth - 1) as u8, stage: RasterStage::ReleasePage, ..self },
                RasterAction::Release(raster_level(self.depth - 1)),
            )
        } else {
            self.next_page_step()
        }
    }

    /// The state of a job that has not asked for anything yet.
    pub open spec fn initial(
        width: u32,
        height: u32,
        page_count: u32,
        paper_length: Option<i16>,
        paper_width: Option<i16>,
    ) -> RasterJob {
        RasterJob {
            width,
            height,
            page_count,
            paper_length,
            paper_width,
            stage: RasterStage::Start,
            depth: 0,
            pages_done: 0,
            device_width: 0,
            job_id: 0,
            result: Err(PrintError::UnderlyingCallFailed),
        }
    }

    /// A job that prints a `width` x `height` bitmap on `page_count` pages,
    /// overriding the paper length and width (tenths of a millimetre) where
    /// given. Fails with `InvalidInput` when a side does not fit the device's
    /// signed coordinates.
    pub fn new(
        width: u32,
        height: u32,
        page_count: u32,
        paper_length: Option<i16>,
        paper_width: Option<i16>,
    ) -> (r: Result<RasterJob, PrintError>)
        ensures
            r is Ok <==> (width <= i32::MAX && height <= i32::MAX),
            r is Err ==> r->Err_0 == PrintError::InvalidInput,
            r is Ok ==> r->Ok_0 == RasterJob::initial(
                width,
                height,
                page_count,
                paper_length,
                paper_width,
            ),
            r is Ok ==> r->Ok_0.wf(),
    {
        if width > i32::MAX as u32 || height > i32::MAX as u32 {
            return Err(PrintError::InvalidInput);
        }
        Ok(RasterJob {
            width,
            height,
            page_count,
            paper_length,
            paper_width,
            stage: RasterStage::Start,
            depth: 0,
            pages_done: 0,
            device_width: 0,
            job_id: 0,
            result: Err(PrintError::UnderlyingCallFailed),
        })
    }

    /// Converts an image to 8-bit RGBA and prepares the job that prints it
    /// on `page_count` pages. The converted bitmap is always returned; the
    /// job fails with `InvalidInput` exactly when a side of the bitmap does
    /// not fit the device's signed coordinates.
    pub fn for_image(
        image: &DynamicImage,
        page_count: u32,
        paper_length: Option<i16>,
        paper_width: Option<i16>,
    ) -> (r: (Bitmap, Result<RasterJob, PrintError>))
        ensures
            r.0.pixels@.len() >= 4 * r.0.width * r.0.height,
            r.1 is Ok <==> (r.0.width <= i32::MAX && r.0.height <= i32::MAX),
            r.1 is Err ==> r.1->Err_0 == PrintError::InvalidInput,
            r.1 is Ok ==> r.1->Ok_0 == RasterJob::initial(
                r.0.width,
                r.0.height,
                page_count,
                paper_length,
                paper_width,
            ) && r.1->Ok_0.wf(),
    {
        let bitmap = to_rgba_bitmap(image);
        let job = RasterJob::new(bitmap.width, bitmap.height, page_count, paper_length, paper_width);
        (bitmap, job)
    }

    fn unwind(&mut self) -> (a: RasterAction)
        requires
            old(self).depth <= RASTER_LEVELS,
        ensures
            (*final(self), a) == old(self).unwind_step(),
    {
        if self.depth > 0 {
            self.depth = self.depth - 1;
            self.stage = RasterStage::Unwind;
            RasterAction::Release(raster_resource_at(self.depth))
        } else {
            self.stage = RasterStage::Finished;
            RasterAction::Finish(self.result)
        }
    }

    fn fail(&mut self, e: PrintError) -> (a: RasterAction)
        requires
            old(self).depth <= RASTER_LEVELS,
        ensures
            (*final(self), a) == old(self).fail_step(e),
    {
        self.result = Err(e);
        self.unwind()
    }

    fn next_page(&mut self) -> (a: RasterAction)
        requires
            old(self).depth <= RASTER_LEVELS,
        ensures
            (*final(self), a) == old(self).next_page_step(),
    {
        if self.pages_done < self.page_count {
            self.stage = RasterStage::AwaitPage;
            self.depth = 4;
            RasterAction::StartPage
        } else {
            self.result = Ok(self.job_id);
            self.unwind()
        }
    }

    fn release_page(&mut self) -> (a: RasterAction)
        requires
            old(self).depth <= RASTER_LEVELS,
        ensures
            (*final(self), a) == old(self).release_page_step(),
    {
        if self.depth > 3 {
            self.depth = self.depth - 1;
            self.stage = RasterStage::ReleasePage;
            RasterAction::Release(raster_resource_at(self.depth))
        } else {
            self.next_page()
        }
    }

    /// Takes the outcome of the last action performed and returns the next
    /// action. The first call's outcome is ignored; after `Finish` the job
    /// keeps answering `Finish` with the same result.
    pub fn step(&mut self, o: StepOutcome) -> (a: RasterAction)
        requires
            old(self).wf(),
        ensures
            (*final(self), a) == old(self).next(o),
            final(self).wf(),
    {
        let ghost s0 = *self;
        let a = match self.stage {
            RasterStage::Start => {
                self.stage = RasterStage::AwaitOpen;
                RasterAction::OpenSession
            },
            RasterStage::AwaitOpen => {
                if o == StepOutcome::Failed {
                    self.fail(PrintError::SessionAcquisitionFailed)
                } else if self.paper_length.is_some() || self.paper_width.is_some() {
                    self.stage = RasterStage::AwaitConfig;
                    self.depth = 1;
                    RasterAction::FetchConfig
                } else {
                    self.stage = RasterStage::AwaitDevice;
                    self.depth = 1;
                    RasterAction::CreateDevice { paper_length: None, paper_width: None }
                }
            },
            RasterStage::AwaitConfig => {
                if o == StepOutcome::Failed {
                    self.fail(PrintError::UnderlyingCallFailed)
                } else {
                    self.stage = RasterStage::AwaitDevice;
                    RasterAction::CreateDevice {
                        paper_length: self.paper_length,
                        paper_width: self.paper_width,
                    }
                }
            },
            RasterStage::AwaitDevice => {
                if o == StepOutcome::Failed {
                    self.fail(PrintError::SessionAcquisitionFailed)
                } else {
                    self.stage = RasterStage::AwaitResolution;
                    self.depth = 2;
                    RasterAction::QueryResolution
                }
            },
            RasterStage::AwaitResolution => {
                match o {
                    StepOutcome::Resolution { width, height } => {
                        self.stage = RasterStage::AwaitDocument;
                        self.device_width = width;
                        RasterAction::StartDocument
                    },
                    _ => self.fail(PrintError::UnderlyingCallFailed),
                }
            },
            RasterStage::AwaitDocument => {
                match o {
                    StepOutcome::JobId(id) => {
                        if id != 0 {
                            self.job_id = id;
                            self.depth = 3;
                            self.next_page()
                        } else {
                            self.fail(PrintError::DocumentStartFailed)
                        }
                    },
                    _ => self.fail(PrintError::DocumentStartFailed),
                }
            },
            RasterStage::AwaitPage => {
                self.stage = RasterStage::AwaitCanvas;
                RasterAction::CreateCanvas
            },
            RasterStage::AwaitCanvas => {
                if o == StepOutcome::Failed {
                    self.fail(PrintError::PageResourceFailed(PageStep::Canvas))
                } else {
                    self.stage = RasterStage::AwaitBitmap;
                    self.depth = 5;
                    RasterAction::CreateBitmap { width: self.width, height: self.height }
                }
            },
            RasterStage::AwaitBitmap => {
                if o == StepOutcome::Failed {
                    self.fail(PrintError::PageResourceFailed(PageStep::Bitmap))
                } else {
                    self.stage = RasterStage::AwaitSelect;
                    self.depth = 7;
                    RasterAction::SelectBitmap
                }
            },
            RasterStage::AwaitSelect => {
                self.stage = RasterStage::AwaitUpload;
                RasterAction::UploadPixels { rows: self.height }
            },
            RasterStage::AwaitUpload => {
                if o == StepOutcome::Failed {
                    self.fail(PrintError::PageResourceFailed(PageStep::Upload))
                } else {
                    self.stage = RasterStage::AwaitCopy;
                    RasterAction::StretchCopy {
                        x: compute_centered_x(self.device_width, self.width),
                        y: 0,
                        width: self.width,
                        height: self.height,
                    }
                }
            },
            RasterStage::AwaitCopy => {
                if o == StepOutcome::Failed {
                    self.fail(PrintError::PageResourceFailed(PageStep::StretchCopy))
                } else {
                    self.pages_done = self.pages_done + 1;
                    self.release_page()
                }
            },
            RasterStage::ReleasePage => self.release_page(),
            RasterStage::Unwind => self.unwind(),
            RasterStage::Finished => RasterAction::Finish(self.result),
        };
        a
    }

    /// The next state and action, given the outcome of the last action.
    pub open spec fn next(self, o: StepOutcome) -> (RasterJob, RasterAction) {
        match self.stage {
            RasterStage::Start => (
                RasterJob { stage: RasterStage::AwaitOpen, ..self },
                RasterAction::OpenSession,
            ),
            RasterStage::AwaitOpen => if o is Failed {
                self.fail_step(PrintError::SessionAcquisitionFailed)
            } else if self.overrides_paper() {
                (
                    RasterJob { stage: RasterStage::AwaitConfig, depth: 1, ..self },
                    RasterAction::FetchConfig,
                )
            } else {
                (
                    RasterJob { stage: RasterStage::AwaitDevice, depth: 1, ..self },
                    RasterAction::CreateDevice { paper_length: None, paper_width: None },
                )
            },
            RasterStage::AwaitConfig => if o is Failed {
                self.fail_step(PrintError::UnderlyingCallFailed)
            } else {
                (
                    RasterJob { stage: RasterStage::AwaitDevice, ..self },
                    RasterAction::CreateDevice {
                        paper_length: self.paper_length,
                        paper_width: self.paper_width,
                    },
                )
            },
            RasterStage::AwaitDevice => if o is Failed {
                self.fail_step(PrintError::SessionAcquisitionFailed)
            } else {
                (
                    RasterJob { stage: RasterStage::AwaitResolution, depth: 2, ..self },
                    RasterAction::QueryResolution,
                )
            },
            RasterStage::AwaitResolution => match o {
                StepOutcome::Resolution { width, height } => (
                    RasterJob { stage: RasterStage::AwaitDocument, device_width: width, ..self },
                    RasterAction::StartDocument,
                ),
                _ => self.fail_step(PrintError::UnderlyingCallFailed),
            },
            RasterStage::AwaitDocument => match o {
                StepOutcome::JobId(id) => if id != 0 {
                    RasterJob { job_id: id, depth: 3, ..self }.next_page_step()
                } else {
                    self.fail_step(PrintError::DocumentStartFailed)
                },
                _ => self.fail_step(PrintError::DocumentStartFailed),
            },
            RasterStage::AwaitPage => (
                RasterJob { stage: RasterStage::AwaitCanvas, ..self },
                RasterAction::CreateCanvas,
            ),
            RasterStage::AwaitCanvas => if o is Failed {
                self.fail_step(PrintError::PageResourceFailed(PageStep::Canvas))
            } else {
                (
                    RasterJob { stage: RasterStage::AwaitBitmap, depth: 5, ..self },
                    RasterAction::CreateBitmap { width: self.width, height: self.height },
                )
            },
            RasterStage::AwaitBitmap => if o is Failed {
                self.fail_step(PrintError::PageResourceFailed(PageStep::Bitmap))
            } else {
                (
                    RasterJob { stage: RasterStage::AwaitSelect, depth: 7, ..self },
                    RasterAction::SelectBitmap,
                )
            },
            RasterStage::AwaitSelect => (
                RasterJob { stage: RasterStage::AwaitUpload, ..self },
                RasterAction::UploadPixels { rows: self.height },
            ),
            RasterStage::AwaitUpload => if o is Failed {
                self.fail_step(PrintError::PageResourceFailed(PageStep::Upload))
            } else {
                (
                    RasterJob { stage: RasterStage::AwaitCopy, ..self },
                    RasterAction::StretchCopy {
                        x: centered_x(self.device_width as int, self.width as int) as i32,
                        y: 0,
                        width: self.width,
                        height: self.height,
                    },
                )
            },
            RasterStage::AwaitCopy => if o is Failed {
                self.fail_step(PrintError::PageResourceFailed(PageStep::StretchCopy))
            } else {
                RasterJob { pages_done: (self.pages_done + 1) as u32, ..self }.release_page_step()
            },
            RasterStage::ReleasePage => self.release_page_step(),
            RasterStage::Unwind => self.unwind_step(),
            RasterStage::Finished => (self, RasterAction::Finish(self.result)),
        }
    }
}

/// Every release the raster pipeline asks for is of the innermost resource
/// held: the resources still held afterwards are exactly the ones acquired
/// before it. The pipeline finishes only once nothing is held.
pub proof fn lemma_raster_releases_innermost_first(s: RasterJob, o: StepOutcome)
    requires
        s.wf(),
    ensures
        s.next(o).1 is Release ==> s.next(o).0.depth < RASTER_LEVELS && s.next(o).1->Release_0
            == raster_level(s.next(o).0.depth as int),
        s.next(o).1 is Finish ==> s.next(o).0.depth == 0 && s.depth == 0,
{
}

/// Once the raster pipeline has begun to unwind, it only releases resources
/// and finishes: no further page, canvas or copy is attempted.
pub proof fn lemma_raster_unwinding_only_releases(s: RasterJob, o: StepOutcome)
    requires
        s.wf(),
        s.stage == RasterStage::Unwind || s.stage == RasterStage::Finished,
    ensures
        s.next(o).1 is Release || s.next(o).1 is Finish,
        s.next(o).0.stage == RasterStage::Unwind || s.next(o).0.stage == RasterStage::Finished,
        s.next(o).0.result == s.result,
{
}

/// The raster pipeline reports success only with the document's job id and
/// only after every page was copied.
pub proof fn lemma_raster_success_after_all_pages(s: RasterJob, o: StepOutcome)
    requires
        s.wf(),
        s.next(o).1 is Finish,
        s.next(o).1->Finish_0 is Ok,
    ensures
        s.pages_done == s.page_count,
        s.job_id != 0,
        s.next(o).1->Finish_0->Ok_0 == s.job_id,
{
}

/// Every copy onto a page places the whole bitmap, unscaled, centered
/// horizontally on the device width the page reported and aligned to the top.
pub proof fn lemma_raster_copy_is_centered_top_aligned(s: RasterJob, o: StepOutcome)
    requires
        s.wf(),
        s.next(o).1 is StretchCopy,
    ensures
        s.next(o).1 == (RasterAction::StretchCopy {
            x: centered_x(s.device_width as int, s.width as int) as i32,
            y: 0,
            width: s.width,
            height: s.height,
        }),
        i32::MIN <= centered_x(s.device_width as int, s.width as int) <= i32::MAX,
{
}

/// A failed step inside a page ends the job with that step's error and
/// starts the release of everything held.
pub proof fn lemma_raster_page_failure(s: RasterJob)
    requires
        s.wf(),
        s.stage == RasterStage::AwaitCanvas || s.stage == RasterStage::AwaitBitmap || s.stage
            == RasterStage::AwaitUpload || s.stage == RasterStage::AwaitCopy,
    ensures
        s.next(StepOutcome::Failed).0.stage == RasterStage::Unwind,
        s.next(StepOutcome::Failed).0.result is Err,
        s.next(StepOutcome::Failed).0.result->Err_0 is PageResourceFailed,
        s.next(StepOutcome::Failed).1 == RasterAction::Release(raster_level(s.depth - 1)),
{
}

} // verus!
