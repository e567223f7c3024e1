use std::cell::Cell;

use openfx_playground::image::{
    BitDepth, ImageInfo, OfxRectI, bit_depth_from_name, n_comps_from_name, rect_i_from_array,
};
use openfx_playground::status::{kOfxStatErrBadHandle, kOfxStatErrUnsupported};

fn rect(x1: i32, y1: i32, x2: i32, y2: i32) -> OfxRectI {
    OfxRectI { x1, y1, x2, y2 }
}

#[test]
fn rect_from_array_takes_x1_y1_x2_y2() {
    assert_eq!(rect_i_from_array(&[1, 2, 3, 4]), rect(1, 2, 3, 4));
    assert_eq!(rect_i_from_array(&[-5, 0, 7, -1]), rect(-5, 0, 7, -1));
}

#[test]
fn bit_depth_names() {
    assert_eq!(bit_depth_from_name(Some("OfxBitDepthByte")), Some(BitDepth::Byte));
    assert_eq!(bit_depth_from_name(Some("OfxBitDepthShort")), Some(BitDepth::Short));
    assert_eq!(bit_depth_from_name(Some("OfxBitDepthFloat")), Some(BitDepth::Float));
    assert_eq!(bit_depth_from_name(Some("OfxBitDepthHalf")), None);
    assert_eq!(bit_depth_from_name(None), None);
}

#[test]
fn component_names() {
    assert_eq!(n_comps_from_name(Some("OfxImageComponentRGBA")), 4);
    assert_eq!(n_comps_from_name(Some("OfxImageComponentRGB")), 3);
    assert_eq!(n_comps_from_name(Some("OfxImageComponentAlpha")), 1);
    assert_eq!(n_comps_from_name(Some("OfxImageComponentYUVA")), 0);
    assert_eq!(n_comps_from_name(None), 0);
}

fn rgba_byte_info() -> ImageInfo {
    ImageInfo::try_new(
        Ok(true),
        Ok(Some("OfxImageComponentRGBA")),
        Ok(Some("OfxBitDepthByte")),
        Ok(40),
        Ok([2, 3, 12, 8]),
        Ok(()),
    )
    .unwrap()
    .unwrap()
}

#[test]
fn image_info_from_properties() {
    let info = rgba_byte_info();
    assert_eq!(info.n_comps(), 4);
    assert_eq!(info.pixel_depth(), BitDepth::Byte);
    assert_eq!(info.row_bytes(), 40);
    assert_eq!(info.bounds(), rect(2, 3, 12, 8));
    assert_eq!(info.bytes_per_component(), 1);
    assert_eq!(info.bytes_per_pixel(), 4);
}

#[test]
fn image_without_data_is_no_image() {
    let r = ImageInfo::try_new(
        Ok(false),
        Err(kOfxStatErrBadHandle),
        Err(kOfxStatErrBadHandle),
        Err(kOfxStatErrBadHandle),
        Err(kOfxStatErrBadHandle),
        Err(kOfxStatErrBadHandle),
    );
    assert!(matches!(r, Ok(None)));
}

#[test]
fn first_failed_read_decides() {
    let r = ImageInfo::try_new(Err(7), Err(8), Ok(None), Ok(0), Ok([0; 4]), Ok(()));
    assert!(matches!(r, Err(7)));
    let r = ImageInfo::try_new(Ok(true), Err(8), Err(9), Ok(0), Ok([0; 4]), Ok(()));
    assert!(matches!(r, Err(8)));
    let r = ImageInfo::try_new(Ok(true), Ok(None), Err(9), Err(10), Ok([0; 4]), Ok(()));
    assert!(matches!(r, Err(9)));
    let r = ImageInfo::try_new(
        Ok(true),
        Ok(None),
        Ok(Some("OfxBitDepthShort")),
        Err(10),
        Err(11),
        Ok(()),
    );
    assert!(matches!(r, Err(10)));
    let r = ImageInfo::try_new(
        Ok(true),
        Ok(None),
        Ok(Some("OfxBitDepthShort")),
        Ok(8),
        Err(11),
        Err(12),
    );
    assert!(matches!(r, Err(11)));
    let r = ImageInfo::try_new(
        Ok(true),
        Ok(None),
        Ok(Some("OfxBitDepthShort")),
        Ok(8),
        Ok([0; 4]),
        Err(12),
    );
    assert!(matches!(r, Err(12)));
}

#[test]
fn unknown_depth_is_unsupported_unknown_components_are_zero() {
    let r = ImageInfo::try_new(
        Ok(true),
        Ok(Some("OfxImageComponentRGBA")),
        Ok(Some("OfxBitDepthHalf")),
        Ok(8),
        Ok([0; 4]),
        Ok(()),
    );
    assert!(matches!(r, Err(e) if e == kOfxStatErrUnsupported));
    let info = ImageInfo::try_new(
        Ok(true),
        Ok(Some("Other")),
        Ok(Some("OfxBitDepthFloat")),
        Ok(8),
        Ok([0; 4]),
        Ok(()),
    )
    .unwrap()
    .unwrap();
    assert_eq!(info.n_comps(), 0);
    assert_eq!(info.bytes_per_component(), 4);
    assert_eq!(info.bytes_per_pixel(), 0);
}

#[test]
fn raw_address_offsets() {
    let info = rgba_byte_info();
    assert_eq!(info.raw_address(2, 3), Some(0));
    assert_eq!(info.raw_address(3, 3), Some(4));
    assert_eq!(info.raw_address(2, 4), Some(40));
    assert_eq!(info.raw_address(11, 7), Some(4 * 40 + 9 * 4));
    assert_eq!(info.raw_address(12, 3), None);
    assert_eq!(info.raw_address(1, 3), None);
    assert_eq!(info.raw_address(2, 8), None);
    assert_eq!(info.raw_address(2, 2), None);
}

#[test]
fn raw_address_with_negative_row_bytes() {
    let info = ImageInfo::try_new(
        Ok(true),
        Ok(Some("OfxImageComponentRGB")),
        Ok(Some("OfxBitDepthShort")),
        Ok(-24),
        Ok([0, 0, 4, 3]),
        Ok(()),
    )
    .unwrap()
    .unwrap();
    assert_eq!(info.bytes_per_pixel(), 6);
    assert_eq!(info.raw_address(1, 2), Some(-48 + 6));
}

#[test]
fn reads_stop_at_the_first_that_decides() {
    let calls = Cell::new(0);
    let count = || calls.set(calls.get() + 1);
    let r = ImageInfo::read(
        Ok(true),
        || { count(); Ok(Some("OfxImageComponentRGB".to_string())) },
        || { count(); Ok(Some("OfxBitDepthHalf".to_string())) },
        || { count(); Ok(12) },
        || { count(); Ok([0, 0, 4, 1]) },
        || { count(); Ok(()) },
    );
    assert!(matches!(r, Err(5)));
    assert_eq!(calls.get(), 2);

    calls.set(0);
    let r = ImageInfo::read(
        Ok(false),
        || { count(); Ok(None) },
        || { count(); Ok(None) },
        || { count(); Ok(0) },
        || { count(); Ok([0; 4]) },
        || { count(); Ok(()) },
    );
    assert!(matches!(r, Ok(None)));
    assert_eq!(calls.get(), 0);

    let info = ImageInfo::read(
        Ok(true),
        || Ok(Some("OfxImageComponentRGBA".to_string())),
        || Ok(Some("OfxBitDepthShort".to_string())),
        || Ok(-64),
        || Err(9),
        || Ok(()),
    );
    assert!(matches!(info, Err(9)));

    let info = ImageInfo::read(
        Ok(true),
        || Ok(Some("OfxImageComponentRGBA".to_string())),
        || Ok(Some("OfxBitDepthShort".to_string())),
        || Ok(-64),
        || Ok([1, 2, 9, 5]),
        || Ok(()),
    )
    .unwrap()
    .unwrap();
    assert_eq!(info.n_comps, 4);
    assert_eq!(info.pixel_depth, BitDepth::Short);
    assert_eq!(info.row_bytes, -64);
    assert_eq!(info.bounds, OfxRectI { x1: 1, y1: 2, x2: 9, y2: 5 });
}
