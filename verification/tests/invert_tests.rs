use std::cell::Cell;

use openfx_playground::image::OfxRectI;
use openfx_playground::invert::{pixel_processing, render_window_fits};
use openfx_playground::layout::element_layout;
use openfx_playground::status::kOfxStatOK;

fn rect(x1: i32, y1: i32, x2: i32, y2: i32) -> OfxRectI {
    OfxRectI { x1, y1, x2, y2 }
}

#[test]
fn inverts_rgba_bytes_and_keeps_alpha() {
    let b = rect(0, 0, 2, 1);
    let (l, len) = element_layout(b, 8, 4, 1).unwrap();
    let src: Vec<u8> = vec![0, 10, 255, 77, 100, 200, 5, 9];
    let mut dst: Vec<u8> = vec![1; len];
    let r = pixel_processing(&|| false, &mut dst, &l, &src, &l, b);
    assert_eq!(r, Ok(()));
    assert_eq!(dst, vec![255, 245, 0, 77, 155, 55, 250, 9]);
}

#[test]
fn inverts_every_component_of_alpha_only_images() {
    let b = rect(0, 0, 3, 1);
    let (l, len) = element_layout(b, 6, 1, 2).unwrap();
    let src: Vec<u16> = vec![0, 1000, 65535];
    let mut dst: Vec<u16> = vec![7; len];
    assert_eq!(pixel_processing(&|| false, &mut dst, &l, &src, &l, b), Ok(()));
    assert_eq!(dst, vec![65535, 64535, 0]);
}

#[test]
fn pixels_outside_the_source_become_zero() {
    let db = rect(0, 0, 3, 1);
    let sb = rect(1, 0, 2, 1);
    let (dl, dlen) = element_layout(db, 9, 3, 1).unwrap();
    let (sl, _) = element_layout(sb, 3, 3, 1).unwrap();
    let src: Vec<u8> = vec![1, 2, 3];
    let mut dst: Vec<u8> = vec![9; dlen];
    assert_eq!(pixel_processing(&|| false, &mut dst, &dl, &src, &sl, db), Ok(()));
    assert_eq!(dst, vec![0, 0, 0, 254, 253, 252, 0, 0, 0]);
}

#[test]
fn only_the_render_window_is_written() {
    let b = rect(0, 0, 3, 3);
    let (l, len) = element_layout(b, 3, 1, 1).unwrap();
    let src: Vec<u8> = (0..9).collect();
    let mut dst: Vec<u8> = vec![42; len];
    let window = rect(1, 1, 3, 2);
    assert_eq!(pixel_processing(&|| false, &mut dst, &l, &src, &l, window), Ok(()));
    assert_eq!(dst, vec![42, 42, 42, 42, 251, 250, 42, 42, 42]);
}

#[test]
fn rows_whose_start_is_outside_the_destination_are_skipped() {
    let b = rect(0, 0, 2, 2);
    let (l, len) = element_layout(b, 2, 1, 1).unwrap();
    let src: Vec<u8> = vec![1, 2, 3, 4];
    let mut dst: Vec<u8> = vec![0; len];
    let window = rect(0, -1, 2, 3);
    assert_eq!(pixel_processing(&|| false, &mut dst, &l, &src, &l, window), Ok(()));
    assert_eq!(dst, vec![254, 253, 252, 251]);
}

#[test]
fn abort_is_asked_every_twenty_rows_and_reported_as_ok_failure() {
    let b = rect(0, 0, 1, 45);
    let (l, len) = element_layout(b, 1, 1, 1).unwrap();
    let src: Vec<u8> = vec![0; 45];
    let mut dst: Vec<u8> = vec![7; len];
    let asked = Cell::new(0);
    let abort_on_second = || {
        asked.set(asked.get() + 1);
        asked.get() == 2
    };
    let r = pixel_processing(&abort_on_second, &mut dst, &l, &src, &l, b);
    assert_eq!(r, Err(kOfxStatOK));
    assert_eq!(asked.get(), 2);
    assert!(dst[..20].iter().all(|v| *v == 255));
    assert!(dst[20..].iter().all(|v| *v == 7));
}

#[test]
fn window_that_overruns_a_row_does_not_fit() {
    let (l, _) = element_layout(rect(0, 0, 4, 4), 4, 1, 1).unwrap();
    assert!(render_window_fits(&l, rect(0, 0, 4, 4)));
    assert!(!render_window_fits(&l, rect(1, 0, 5, 4)));
    // rows that are all skipped need not fit
    assert!(render_window_fits(&l, rect(1, 4, 9, 6)));
    assert!(render_window_fits(&l, rect(-1, 0, 9, 4)));
}

#[test]
fn single_row_images_render_whatever_their_row_length() {
    let b = rect(0, 0, 2, 1);
    let (l, len) = element_layout(b, 1, 1, 1).unwrap();
    let src: Vec<u8> = vec![10, 20];
    let mut dst: Vec<u8> = vec![0; len];
    assert_eq!(pixel_processing(&|| false, &mut dst, &l, &src, &l, b), Ok(()));
    assert_eq!(dst, vec![245, 235]);
}

#[test]
fn an_abort_on_the_first_polled_row_stops_the_render() {
    let b = rect(0, 0, 2, 1);
    let (l, len) = element_layout(b, 2, 1, 1).unwrap();
    let src: Vec<u8> = vec![10, 20];
    let mut dst: Vec<u8> = vec![0; len];
    assert_eq!(pixel_processing(&|| true, &mut dst, &l, &src, &l, b), Err(kOfxStatOK));
    assert_eq!(dst, vec![0, 0]);
}

#[test]
fn overlapping_rows_are_overwritten_by_later_rows() {
    let b = rect(0, 0, 2, 2);
    let (dl, dlen) = element_layout(b, 1, 1, 1).unwrap();
    assert_eq!(dlen, 3);
    let (sl, _) = element_layout(b, 2, 1, 1).unwrap();
    let src: Vec<u8> = vec![10, 20, 30, 40];
    let mut dst: Vec<u8> = vec![0; dlen];
    assert_eq!(pixel_processing(&|| false, &mut dst, &dl, &src, &sl, b), Ok(()));
    assert_eq!(dst, vec![245, 225, 215]);
}
