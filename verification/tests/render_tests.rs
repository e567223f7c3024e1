use openfx_playground::action::Plugin;
use openfx_playground::image::BitDepth;
use openfx_playground::render::{
    ImageProps, context_check, fetch_when, image_layout, image_or_failed, mask_image,
    render_format, render_outcome,
};
use openfx_playground::status::{
    kOfxStatErrBadIndex, kOfxStatErrUnsupported, kOfxStatFailed,
};

#[test]
fn render_formats() {
    assert_eq!(
        render_format(Ok(Some("OfxImageComponentRGBA")), Ok(Some("OfxBitDepthByte"))),
        Ok((4, BitDepth::Byte))
    );
    assert_eq!(
        render_format(Ok(Some("OfxImageComponentRGB")), Ok(Some("OfxBitDepthShort"))),
        Ok((3, BitDepth::Short))
    );
    assert_eq!(
        render_format(Ok(Some("OfxImageComponentAlpha")), Ok(Some("OfxBitDepthFloat"))),
        Ok((1, BitDepth::Float))
    );
}

#[test]
fn render_format_failures_in_order() {
    assert_eq!(render_format(Err(9), Err(10)), Err(9));
    assert_eq!(render_format(Ok(Some("Other")), Err(10)), Err(kOfxStatErrUnsupported));
    assert_eq!(render_format(Ok(None), Ok(Some("OfxBitDepthByte"))), Err(kOfxStatErrUnsupported));
    assert_eq!(render_format(Ok(Some("OfxImageComponentRGBA")), Err(10)), Err(10));
    assert_eq!(
        render_format(Ok(Some("OfxImageComponentRGBA")), Ok(Some("OfxBitDepthHalf"))),
        Err(kOfxStatErrUnsupported)
    );
}

#[test]
fn release_failures_win() {
    assert_eq!(render_outcome(Ok(()), Ok(()), || Ok(())), Ok(()));
    assert_eq!(render_outcome(Err(1), Ok(()), || Ok(())), Err(1));
    assert_eq!(render_outcome(Err(1), Err(2), || Err(3)), Err(2));
    assert_eq!(render_outcome(Ok(()), Ok(()), || Err(3)), Err(3));
}

#[test]
fn source_is_not_released_when_the_output_release_fails() {
    let released = std::cell::Cell::new(false);
    let r = render_outcome(Ok(()), Err(2), || {
        released.set(true);
        Ok(())
    });
    assert_eq!(r, Err(2));
    assert!(!released.get());
}

#[test]
fn missing_images_fail() {
    assert_eq!(image_or_failed(Some(5)), Ok(5));
    assert_eq!(image_or_failed::<u8>(None), Err(kOfxStatFailed));
}

#[test]
fn contexts() {
    let filter = Ok(Some("OfxImageEffectContextFilter"));
    let general = Ok(Some("OfxImageEffectContextGeneral"));
    assert_eq!(context_check(Plugin::Invert, filter), Ok(false));
    assert_eq!(context_check(Plugin::Invert, general), Err(kOfxStatErrUnsupported));
    assert_eq!(context_check(Plugin::Saturation, general), Ok(true));
    assert_eq!(context_check(Plugin::Saturation, filter), Ok(false));
    assert_eq!(context_check(Plugin::Circle, Ok(None)), Err(kOfxStatErrUnsupported));
    assert_eq!(context_check(Plugin::BasicMachinery, Err(4)), Err(4));
}

#[test]
fn image_layouts_for_the_filter() {
    let props = ImageProps { row_bytes: Ok(8), bounds: Ok([0, 0, 2, 2]), data_present: Ok(true) };
    let (l, len) = image_layout(props, 4, 1).unwrap();
    assert_eq!(len, 16);
    assert_eq!(l.row_stride, 8);
    let props = ImageProps { row_bytes: Err(3), bounds: Err(4), data_present: Err(5) };
    assert!(matches!(image_layout(props, 4, 1), Err(3)));
    let props = ImageProps { row_bytes: Ok(8), bounds: Err(4), data_present: Err(5) };
    assert!(matches!(image_layout(props, 4, 1), Err(4)));
    let props = ImageProps { row_bytes: Ok(8), bounds: Ok([0; 4]), data_present: Err(5) };
    assert!(matches!(image_layout(props, 4, 1), Err(5)));
    let props = ImageProps { row_bytes: Ok(8), bounds: Ok([0; 4]), data_present: Ok(false) };
    assert!(matches!(image_layout(props, 4, 1), Err(e) if e == kOfxStatErrBadIndex));
    let props = ImageProps { row_bytes: Ok(7), bounds: Ok([0, 0, 2, 2]), data_present: Ok(true) };
    assert!(matches!(image_layout(props, 4, 2), Err(e) if e == kOfxStatFailed));
}

#[test]
fn fetched_only_when_wanted() {
    let fetched = std::cell::Cell::new(false);
    let r = fetch_when(false, || {
        fetched.set(true);
        Ok(3)
    });
    assert_eq!(r, Ok(None));
    assert!(!fetched.get());
    assert_eq!(fetch_when(true, || Ok(3)), Ok(Some(3)));
    assert_eq!(fetch_when::<u8, _>(true, || Err(9)), Err(9));
}

#[test]
fn mask_images() {
    assert_eq!(mask_image::<u8, u8, _>(None, |_| Ok(Some(1))), Ok(None));
    assert_eq!(mask_image(Some(2u8), |c| Ok(Some(c + 1))), Ok(Some(3)));
    assert_eq!(mask_image(Some(2u8), |_| Ok::<Option<u8>, i32>(None)), Ok(None));
    assert_eq!(mask_image(Some(2u8), |_| Err::<Option<u8>, i32>(4)), Err(4));
}
