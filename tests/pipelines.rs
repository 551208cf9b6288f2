use image::DynamicImage;
use printers::{
    parse_options, PageStep, PrintError, RasterAction, RasterJob, RawAction, RawJob, Resource,
    StepOutcome,
};

/// Runs a raster job against a simulated device whose canvas creation fails
/// on the given page (1-based), if any.
fn run_raster(mut job: RasterJob, fail_canvas_on: Option<u32>) -> (Vec<RasterAction>, Result<u64, PrintError>) {
    let mut actions = Vec::new();
    let mut outcome = StepOutcome::Done;
    let mut pages_started = 0u32;
    for _ in 0..10_000 {
        let a = job.step(outcome);
        actions.push(a);
        outcome = match a {
            RasterAction::Finish(r) => return (actions, r),
            RasterAction::QueryResolution => StepOutcome::Resolution { width: 100, height: 200 },
            RasterAction::StartDocument => StepOutcome::JobId(42),
            RasterAction::StartPage => {
                pages_started += 1;
                StepOutcome::Done
            }
            RasterAction::CreateCanvas if fail_canvas_on == Some(pages_started) => StepOutcome::Failed,
            _ => StepOutcome::Done,
        };
    }
    panic!("the job did not finish");
}

fn count(actions: &[RasterAction], a: RasterAction) -> usize {
    actions.iter().filter(|x| **x == a).count()
}

#[test]
fn image_prints_once_per_page_centered_and_top_aligned() {
    let image = DynamicImage::new_rgba8(10, 20);
    let (bitmap, job) = RasterJob::for_image(&image, 2, None, None);
    let job = job.unwrap();
    assert_eq!((bitmap.width, bitmap.height), (10, 20));
    assert_eq!(bitmap.pixels.len(), 800);
    let (actions, result) = run_raster(job, None);
    assert_eq!(result, Ok(42));
    assert_eq!(count(&actions, RasterAction::StartPage), 2);
    assert_eq!(count(&actions, RasterAction::Release(Resource::Page)), 2);
    assert_eq!(
        count(&actions, RasterAction::StretchCopy { x: 45, y: 0, width: 10, height: 20 }),
        2
    );
    assert_eq!(actions[1], RasterAction::CreateDevice { paper_length: None, paper_width: None });
    let tail = &actions[actions.len() - 4..];
    assert_eq!(
        tail,
        &[
            RasterAction::Release(Resource::Document),
            RasterAction::Release(Resource::Device),
            RasterAction::Release(Resource::Session),
            RasterAction::Finish(Ok(42)),
        ]
    );
}

#[test]
fn image_session_failure_begins_no_page() {
    let mut job = RasterJob::new(10, 20, 2, None, None).unwrap();
    assert_eq!(job.step(StepOutcome::Done), RasterAction::OpenSession);
    assert_eq!(
        job.step(StepOutcome::Failed),
        RasterAction::Finish(Err(PrintError::SessionAcquisitionFailed))
    );
    assert_eq!(
        job.step(StepOutcome::Done),
        RasterAction::Finish(Err(PrintError::SessionAcquisitionFailed))
    );
}

#[test]
fn canvas_failure_on_second_page_releases_everything() {
    let job = RasterJob::new(10, 20, 3, None, None).unwrap();
    let (actions, result) = run_raster(job, Some(2));
    assert_eq!(result, Err(PrintError::PageResourceFailed(PageStep::Canvas)));
    assert_eq!(count(&actions, RasterAction::StartPage), 2);
    assert_eq!(count(&actions, RasterAction::CreateCanvas), 2);
    let failed_at = actions.iter().rposition(|a| *a == RasterAction::CreateCanvas).unwrap();
    assert_eq!(
        &actions[failed_at + 1..],
        &[
            RasterAction::Release(Resource::Page),
            RasterAction::Release(Resource::Document),
            RasterAction::Release(Resource::Device),
            RasterAction::Release(Resource::Session),
            RasterAction::Finish(Err(PrintError::PageResourceFailed(PageStep::Canvas))),
        ]
    );
}

#[test]
fn paper_override_fetches_config_first() {
    let mut job = RasterJob::new(4, 4, 1, Some(2970), None).unwrap();
    assert_eq!(job.step(StepOutcome::Done), RasterAction::OpenSession);
    assert_eq!(job.step(StepOutcome::Done), RasterAction::FetchConfig);
    assert_eq!(
        job.step(StepOutcome::Done),
        RasterAction::CreateDevice { paper_length: Some(2970), paper_width: None }
    );
    assert_eq!(job.step(StepOutcome::Failed), RasterAction::Release(Resource::Session));
    assert_eq!(
        job.step(StepOutcome::Done),
        RasterAction::Finish(Err(PrintError::SessionAcquisitionFailed))
    );
}

#[test]
fn document_refusal_releases_device_and_session() {
    let mut job = RasterJob::new(4, 4, 1, None, None).unwrap();
    job.step(StepOutcome::Done);
    job.step(StepOutcome::Done);
    assert_eq!(job.step(StepOutcome::Done), RasterAction::QueryResolution);
    assert_eq!(
        job.step(StepOutcome::Resolution { width: 2, height: 2 }),
        RasterAction::StartDocument
    );
    assert_eq!(job.step(StepOutcome::JobId(0)), RasterAction::Release(Resource::Device));
    assert_eq!(job.step(StepOutcome::Done), RasterAction::Release(Resource::Session));
    assert_eq!(
        job.step(StepOutcome::Done),
        RasterAction::Finish(Err(PrintError::DocumentStartFailed))
    );
}

#[test]
fn narrow_page_gives_negative_offset_rounded_toward_zero() {
    let mut job = RasterJob::new(11, 1, 1, None, None).unwrap();
    let mut outcome = StepOutcome::Done;
    loop {
        let a = job.step(outcome);
        outcome = match a {
            RasterAction::QueryResolution => StepOutcome::Resolution { width: 4, height: 4 },
            RasterAction::StartDocument => StepOutcome::JobId(7),
            RasterAction::StretchCopy { x, y, .. } => {
                assert_eq!((x, y), (-3, 0));
                StepOutcome::Done
            }
            RasterAction::Finish(r) => {
                assert_eq!(r, Ok(7));
                break;
            }
            _ => StepOutcome::Done,
        };
    }
}

#[test]
fn upload_and_copy_failures_are_step_specific() {
    for (fail_on, expected) in [
        (RasterAction::UploadPixels { rows: 1 }, PageStep::Upload),
        (RasterAction::StretchCopy { x: 0, y: 0, width: 1, height: 1 }, PageStep::StretchCopy),
        (RasterAction::CreateBitmap { width: 1, height: 1 }, PageStep::Bitmap),
    ] {
        let mut job = RasterJob::new(1, 1, 1, None, None).unwrap();
        let mut outcome = StepOutcome::Done;
        let mut releases = Vec::new();
        loop {
            let a = job.step(outcome);
            outcome = match a {
                RasterAction::QueryResolution => StepOutcome::Resolution { width: 1, height: 1 },
                RasterAction::StartDocument => StepOutcome::JobId(9),
                RasterAction::Release(r) => {
                    releases.push(r);
                    StepOutcome::Done
                }
                RasterAction::Finish(r) => {
                    assert_eq!(r, Err(PrintError::PageResourceFailed(expected)));
                    break;
                }
                x if x == fail_on => StepOutcome::Failed,
                _ => StepOutcome::Done,
            };
        }
        assert_eq!(releases.last(), Some(&Resource::Session));
        assert_eq!(releases.iter().filter(|r| **r == Resource::Page).count(), 1);
    }
}

#[test]
fn oversized_bitmap_is_invalid_input() {
    assert_eq!(
        RasterJob::new(u32::MAX, 1, 1, None, None).err(),
        Some(PrintError::InvalidInput)
    );
}

fn options(pairs: &[(&str, &str)]) -> Vec<(String, String)> {
    pairs.iter().map(|(k, v)| (k.to_string(), v.to_string())).collect()
}

fn run_raw(mut job: RawJob, fail_page: Option<u32>) -> (Vec<RawAction>, Result<u64, PrintError>) {
    let mut actions = Vec::new();
    let mut outcome = StepOutcome::Done;
    let mut pages = 0u32;
    for _ in 0..10_000 {
        let a = job.step(outcome);
        actions.push(a);
        outcome = match a {
            RawAction::Finish(r) => return (actions, r),
            RawAction::StartDocument => StepOutcome::JobId(77),
            RawAction::StartPage => {
                pages += 1;
                if fail_page == Some(pages) { StepOutcome::Failed } else { StepOutcome::Done }
            }
            _ => StepOutcome::Done,
        };
    }
    panic!("the job did not finish");
}

#[test]
fn raw_print_writes_each_copy_in_one_document() {
    let opts = parse_options(&options(&[("copies", "3")]));
    assert_eq!(opts.copies, 3);
    assert_eq!(opts.data_type, "RAW");
    let (actions, result) = run_raw(RawJob::new(opts.copies), None);
    assert_eq!(result, Ok(77));
    assert_eq!(actions.iter().filter(|a| **a == RawAction::StartDocument).count(), 1);
    assert_eq!(actions.iter().filter(|a| **a == RawAction::StartPage).count(), 3);
    assert_eq!(actions.iter().filter(|a| **a == RawAction::WriteBytes).count(), 3);
    assert_eq!(actions.iter().filter(|a| **a == RawAction::Release(Resource::Page)).count(), 3);
    assert_eq!(
        &actions[actions.len() - 3..],
        &[
            RawAction::Release(Resource::Document),
            RawAction::Release(Resource::Session),
            RawAction::Finish(Ok(77)),
        ]
    );
}

#[test]
fn raw_copies_fall_back_on_bad_values() {
    assert_eq!(parse_options(&options(&[("copies", "not-a-number")])).copies, 1);
    assert_eq!(parse_options(&options(&[("copies", "0")])).copies, 1);
    assert_eq!(parse_options(&options(&[("copies", "-2")])).copies, 1);
    assert_eq!(parse_options(&options(&[("copies", "+4")])).copies, 4);
    assert_eq!(parse_options(&options(&[("copies", "2"), ("copies", "x")])).copies, 2);
    assert_eq!(parse_options(&options(&[])).copies, 1);
    let (actions, result) = run_raw(RawJob::new(1), None);
    assert_eq!(result, Ok(77));
    assert_eq!(actions.iter().filter(|a| **a == RawAction::WriteBytes).count(), 1);
}

#[test]
fn raw_document_format_option_sets_data_type() {
    let opts = parse_options(&options(&[("document-format", "XPS_PASS"), ("other", "1")]));
    assert_eq!(opts.data_type, "XPS_PASS");
    assert_eq!(opts.copies, 1);
}

#[test]
fn raw_failed_page_does_not_stop_other_copies() {
    let (actions, result) = run_raw(RawJob::new(3), Some(2));
    assert_eq!(result, Ok(77));
    assert_eq!(actions.iter().filter(|a| **a == RawAction::StartPage).count(), 3);
    assert_eq!(actions.iter().filter(|a| **a == RawAction::WriteBytes).count(), 2);
}

#[test]
fn raw_session_and_document_failures() {
    let mut job = RawJob::new(2);
    assert_eq!(job.step(StepOutcome::Done), RawAction::OpenSession);
    assert_eq!(
        job.step(StepOutcome::Failed),
        RawAction::Finish(Err(PrintError::SessionAcquisitionFailed))
    );
    let mut job = RawJob::new(2);
    job.step(StepOutcome::Done);
    assert_eq!(job.step(StepOutcome::Done), RawAction::StartDocument);
    assert_eq!(job.step(StepOutcome::JobId(0)), RawAction::Release(Resource::Session));
    assert_eq!(
        job.step(StepOutcome::Done),
        RawAction::Finish(Err(PrintError::DocumentStartFailed))
    );
}
