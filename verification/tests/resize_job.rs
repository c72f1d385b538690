use pixeledit::RasterImage;
use pixeledit::ResizeJob;
use pixeledit::ResizeJobState;
use pixeledit::Size;
use pixeledit::resize_job::resize_job_work;

fn uniform_image(width: u32, height: u32) -> RasterImage {
    let pixels = vec![90u8; (width as usize) * (height as usize) * 4];
    RasterImage::from_pixels(width, height, pixels).unwrap()
}

#[test]
fn lifecycle_start_twice_then_collect() {
    let mut job = ResizeJob::default();
    assert_eq!(job.state(), ResizeJobState::Idle);

    assert!(job.start(), "an idle job must accept a start");
    assert_eq!(job.state(), ResizeJobState::Running);
    assert!(!job.start(), "a second start before collect must be rejected");
    assert_eq!(job.state(), ResizeJobState::Running);

    let original = uniform_image(100, 100);
    let (a, b) = resize_job_work(&original, Size::new(50, 50));
    job.finish(a, b);
    assert_eq!(job.state(), ResizeJobState::ReadyToCollect);

    let collected = job.collect();
    assert!(collected.is_some(), "a finished job must yield its result");
    assert_eq!(job.state(), ResizeJobState::Idle);

    assert!(job.collect().is_none(), "a second collect without a start must yield nothing");
    assert_eq!(job.state(), ResizeJobState::Idle);
}

#[test]
fn collect_while_running_yields_nothing() {
    let mut job = ResizeJob::default();
    assert!(job.start());
    assert!(job.collect().is_none());
    assert_eq!(job.state(), ResizeJobState::Running);
}

#[test]
fn restart_discards_uncollected_result() {
    let mut job = ResizeJob::default();
    assert!(job.start());
    let original = uniform_image(10, 10);
    let (a, b) = resize_job_work(&original, Size::new(5, 5));
    job.finish(a, b);
    assert_eq!(job.state(), ResizeJobState::ReadyToCollect);

    assert!(job.start(), "a ready job accepts a restart, discarding the old result");
    assert_eq!(job.state(), ResizeJobState::Running);
    assert!(job.collect().is_none(), "the discarded result must be gone");
}

#[test]
fn work_resizes_and_pairs() {
    let original = uniform_image(100, 100);
    let (resized, working) = resize_job_work(&original, Size::new(50, 50));
    assert_eq!(resized.width(), 50);
    assert_eq!(resized.height(), 50);
    assert_eq!(resized.pixels(), working.pixels());
    assert_eq!(resized.pixels().len(), 50 * 50 * 4);
}
