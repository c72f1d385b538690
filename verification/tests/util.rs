use pixeledit::EditorResult;
use pixeledit::ModifierResponse;
use pixeledit::MultimediaFileLoadingError;
use pixeledit::RequestRepaintEvent;
use pixeledit::Size;
use pixeledit::Tick;
use pixeledit::Tickable;
use pixeledit::TrackSegment;
use pixeledit::fit_into;
use pixeledit::format_size;
use pixeledit::sizefmt::u64_to_string;

#[test]
fn format_size_plain_digits() {
    assert_eq!(format_size(0), "0");
    assert_eq!(format_size(999), "999");
    assert_eq!(format_size(9999), "9999");
}

#[test]
fn format_size_kilobytes() {
    assert_eq!(format_size(10_000), "10 kB");
    assert_eq!(format_size(12_345), "12 kB");
    assert_eq!(format_size(999_499), "999 kB");
}

#[test]
fn format_size_unit_boundaries() {
    assert_eq!(format_size(999_500), "1.0 MB");
    assert_eq!(format_size(9_950_001), "10 MB");
    assert_eq!(format_size(999_500_000), "1.0 GB");
}

#[test]
fn format_size_megabytes() {
    assert_eq!(format_size(1_500_000), "1.5 MB");
    assert_eq!(format_size(2_560_000), "2.6 MB");
    assert_eq!(format_size(10_000_000), "10 MB");
    assert_eq!(format_size(999_000_000), "999 MB");
}

#[test]
fn format_size_large_units() {
    assert_eq!(format_size(2_000_000_000), "2.0 GB");
    assert_eq!(format_size(42_000_000_000), "42 GB");
    assert_eq!(format_size(3_140_000_000_000), "3.1 TB");
    assert_eq!(format_size(7_000_000_000_000_000), "7.0 PB");
    assert_eq!(format_size(u64::MAX), "huge");
}

#[test]
fn u64_to_string_digits() {
    assert_eq!(u64_to_string(0), "0");
    assert_eq!(u64_to_string(7), "7");
    assert_eq!(u64_to_string(1234567890), "1234567890");
}

#[test]
fn fit_into_downscales_to_box() {
    let r = fit_into(&Size::new(200, 100), &Size::new(400, 400), false);
    assert_eq!(r, Size::new(100, 100));
}

#[test]
fn fit_into_never_upscales_unless_allowed() {
    let inner = Size::new(400, 300);
    let r = fit_into(&Size::new(800, 600), &inner, false);
    assert_eq!(r, inner);
    let r2 = fit_into(&Size::new(800, 600), &inner, true);
    assert_eq!(r2, Size::new(800, 600));
}

#[test]
fn fit_into_snug_fit() {
    let r = fit_into(&Size::new(100, 100), &Size::new(50, 100), false);
    assert_eq!(r, Size::new(50, 100));
}

#[test]
fn tick_now_and_schedule() {
    let t = Tick::now();
    assert_eq!(t.delta, 0);
    assert!(t.is_scheduled(), "a fresh tick is scheduled for its own moment");
    let later = t.schedule_milis(60_000);
    assert!(!later.is_scheduled(), "a tick scheduled a minute ahead is not due yet");
    let past = t.schedule(0);
    assert!(past.is_scheduled());
    let t2 = t.tick();
    assert_eq!(t2.scheduled_time, t.scheduled_time);
}

struct Counter {
    ticks: u32,
}

impl Tickable for Counter {
    fn tick(&mut self, _tick: &Tick) {
        self.ticks += 1;
    }
}

#[test]
fn tickable_is_driven() {
    let t = Tick::now();
    let mut c = Counter { ticks: 0 };
    c.tick(&t);
    c.tick(&t);
    assert_eq!(c.ticks, 2);
}

#[test]
fn loading_error_message() {
    let e = MultimediaFileLoadingError::InvalidFile {
        path: String::from("photo.jpeg"),
        why: String::from("no such file"),
    };
    assert_eq!(e.message(), "Couldn't open photo.jpeg: no such file");
}

#[test]
fn support_types_are_usable() {
    let r = EditorResult::LoadNewImage;
    assert!(matches!(r, EditorResult::LoadNewImage));
    assert_eq!(ModifierResponse::Changed, ModifierResponse::Changed);
    assert!(ModifierResponse::Nothing != ModifierResponse::Selected);
    let _ev = RequestRepaintEvent;
    let seg = TrackSegment {
        title: String::from("Segment 1"),
        start_sample: 10,
        length: 10,
        start_offset: 0,
        end_offset: 0,
    };
    assert_eq!(seg.start_sample + seg.length, 20);
}
