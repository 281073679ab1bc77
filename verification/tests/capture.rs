use rustdesk_ohos::capture::{is_start, Capturer, Display, PixelBuffer, Pixfmt};
use std::time::Duration;

#[test]
fn primary_display_is_empty_and_primary() {
    let d = Display::primary().unwrap();
    assert!(d.is_primary());
    assert!(d.is_online());
    assert_eq!(d.width(), 0);
    assert_eq!(d.height(), 0);
    assert_eq!(d.origin(), (0, 0));
    assert_eq!(d.name(), "OHOS");
}

#[test]
fn all_displays_is_the_primary_alone() {
    let all = Display::all().unwrap();
    assert_eq!(all.len(), 1);
    assert!(all[0].is_primary());
    assert_eq!(all[0].width(), 0);
}

#[test]
fn display_statics() {
    Display::refresh_size();
    assert_eq!(Display::fix_quality(), 1);
    assert_eq!(is_start(), Some(false));
}

#[test]
fn capturer_reports_display_size_and_cannot_capture() {
    let mut c = Capturer::new(Display::primary().unwrap()).unwrap();
    assert_eq!(c.width(), 0);
    assert_eq!(c.height(), 0);
    let e = c.frame(Duration::from_millis(30)).err().unwrap();
    assert_eq!(e.kind(), std::io::ErrorKind::Unsupported);
    assert_eq!(c.width(), 0);
}

#[test]
fn pixel_buffer_stride_spreads_data_over_rows() {
    let data = [0u8; 100];
    let b = PixelBuffer::new(&data, 5, 3);
    assert_eq!(b.stride(), vec![33]);
    assert_eq!(b.width(), 5);
    assert_eq!(b.height(), 3);
    assert_eq!(b.data().len(), 100);
    assert_eq!(b.pixfmt(), Pixfmt::RGBA);
}

#[test]
fn pixel_buffer_without_rows_has_zero_stride() {
    let data = [1u8, 2, 3];
    let b = PixelBuffer::new(&data, 1, 0);
    assert_eq!(b.stride(), vec![0]);
    let one = PixelBuffer::new(&data, 3, 1);
    assert_eq!(one.stride(), vec![3]);
    assert_eq!(one.data(), &[1u8, 2, 3][..]);
}

#[test]
fn rows_fit_law_example() {
    let data = [0u8; 17];
    let b = PixelBuffer::new(&data, 4, 4);
    let s = b.stride()[0];
    assert_eq!(s, 4);
    assert!(s * 4 <= 17 && 17 < (s + 1) * 4);
}
