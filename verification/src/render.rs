//! The decisions of the describe-in-context and render actions around the
//! pixel work: which contexts are accepted, which image formats are
//! rendered, where the images' components lie, and which failure wins.

use vstd::prelude::*;
use crate::action::Plugin;
use crate::image::{
    BitDepth, OfxRectI, opt_view_result, rect_i_from_array, spec_bit_depth_from_name,
    bit_depth_from_name,
};
use crate::layout::{ElementLayout, element_layout, layout_wf, spec_element_layout};
use crate::names::{
    kOfxImageComponentAlpha, kOfxImageComponentRGB, kOfxImageComponentRGBA,
    kOfxImageEffectContextFilter, kOfxImageEffectContextGeneral,
};
use crate::status::{
    OfxResult, kOfxStatErrBadIndex, kOfxStatErrUnsupported, kOfxStatFailed,
};
use crate::text::opt_str_eq;

verus! {

/// The components count of a components property that the render action
/// accepts: RGBA, RGB or alpha.
pub open spec fn spec_render_n_comps(name: Option<Seq<char>>) -> Option<i32> {
    match name {
        Some(n) => if n == kOfxImageComponentRGBA@ {
            Some(4i32)
        } else if n == kOfxImageComponentRGB@ {
            Some(3i32)
        } else if n == kOfxImageComponentAlpha@ {
            Some(1i32)
        } else {
            None
        },
        None => None,
    }
}

/// The format the render action works in, from the output image's
/// components and pixel depth as read in this order: a failed read is the
/// failure, and components or a depth it does not know are unsupported.
pub open spec fn spec_render_format(
    components: OfxResult<Option<Seq<char>>>,
    depth: OfxResult<Option<Seq<char>>>,
) -> OfxResult<(i32, BitDepth)> {
    match components {
        Err(e) => Err(e),
        Ok(c) => match spec_render_n_comps(c) {
            None => Err(kOfxStatErrUnsupported),
            Some(n) => match depth {
                Err(e) => Err(e),
                Ok(d) => match spec_bit_depth_from_name(d) {
                    None => Err(kOfxStatErrUnsupported),
                    Some(b) => Ok((n, b)),
                },
            },
        },
    }
}

pub fn render_format(components: OfxResult<Option<&str>>, depth: OfxResult<Option<&str>>) -> (r:
    OfxResult<(i32, BitDepth)>)
    ensures
        r == spec_render_format(opt_view_result(components), opt_view_result(depth)),
{
    let c = match components {
        Err(e) => return Err(e),
        Ok(c) => c,
    };
    let n = if opt_str_eq(c, kOfxImageComponentRGBA) {
        4
    } else if opt_str_eq(c, kOfxImageComponentRGB) {
        3
    } else if opt_str_eq(c, kOfxImageComponentAlpha) {
        1
    } else {
        return Err(kOfxStatErrUnsupported);
    };
    let d = match depth {
        Err(e) => return Err(e),
        Ok(d) => d,
    };
    match bit_depth_from_name(d) {
        None => Err(kOfxStatErrUnsupported),
        Some(b) => Ok((n, b)),
    }
}

/// The result of a render that releases its two images after the pixel
/// work: a failure to release the output image wins, and the source image
/// is then not released; then a failure to release the source image; then
/// the pixel work's own result.
pub fn render_outcome<F: FnOnce() -> OfxResult<()>>(
    pixel_work: OfxResult<()>,
    release_output: OfxResult<()>,
    release_source: F,
) -> (r: OfxResult<()>)
    requires
        release_output is Ok ==> release_source.requires(()),
    ensures
        release_output matches Err(e) ==> r == Err::<(), i32>(e),
        release_output is Ok ==> exists|s: OfxResult<()>|
            #![trigger release_source.ensures((), s)]
            release_source.ensures((), s) && r == match s {
                Err(e) => Err(e),
                Ok(_) => pixel_work,
            },
{
    match release_output {
        Err(e) => Err(e),
        Ok(_) => {
            let s = release_source();
            match s {
                Err(e) => Err(e),
                Ok(_) => pixel_work,
            }
        },
    }
}

/// An image the render action needs; the host not having one is a failure.
pub fn image_or_failed<T>(image: Option<T>) -> (r: OfxResult<T>)
    ensures
        match image {
            Some(i) => r == Ok::<T, i32>(i),
            None => r == Err::<T, i32>(kOfxStatFailed),
        },
{
    match image {
        Some(i) => Ok(i),
        None => Err(kOfxStatFailed),
    }
}

/// Which contexts a plugin can be described in: only the filter context,
/// except for the saturation plugin which also takes the general one. The
/// result says whether the context is the general one.
pub open spec fn spec_context_check(p: Plugin, context: OfxResult<Option<Seq<char>>>) -> OfxResult<
    bool,
> {
    match context {
        Err(e) => Err(e),
        Ok(c) => if c == Some(kOfxImageEffectContextFilter@) {
            Ok(false)
        } else if p is Saturation && c == Some(kOfxImageEffectContextGeneral@) {
            Ok(true)
        } else {
            Err(kOfxStatErrUnsupported)
        },
    }
}

pub fn context_check(plugin: Plugin, context: OfxResult<Option<&str>>) -> (r: OfxResult<bool>)
    ensures
        r == spec_context_check(plugin, opt_view_result(context)),
{
    let c = match context {
        Err(e) => return Err(e),
        Ok(c) => c,
    };
    if opt_str_eq(c, kOfxImageEffectContextFilter) {
        Ok(false)
    } else if matches!(plugin, Plugin::Saturation) && opt_str_eq(c, kOfxImageEffectContextGeneral) {
        Ok(true)
    } else {
        Err(kOfxStatErrUnsupported)
    }
}

/// The property reads of an image that the invert filter works on.
pub struct ImageProps {
    pub row_bytes: OfxResult<i32>,
    pub bounds: OfxResult<[i32; 4]>,
    pub data_present: OfxResult<bool>,
}

/// The layout of one image for the invert filter, from its reads in this
/// order: row bytes, bounds, data pointer (a missing one is a bad index);
/// an image whose rows cannot be laid out as components fails.
pub open spec fn spec_image_layout(
    props: ImageProps,
    n_comps: int,
    elem_size: int,
) -> OfxResult<(ElementLayout, int)> {
    match props.row_bytes {
        Err(e) => Err(e),
        Ok(rb) => match props.bounds {
            Err(e) => Err(e),
            Ok(b) => match props.data_present {
                Err(e) => Err(e),
                Ok(false) => Err(kOfxStatErrBadIndex),
                Ok(true) => match spec_element_layout(
                    OfxRectI { x1: b@[0], y1: b@[1], x2: b@[2], y2: b@[3] },
                    rb as int,
                    n_comps,
                    elem_size,
                ) {
                    None => Err(kOfxStatFailed),
                    Some(l) => Ok(l),
                },
            },
        },
    }
}

/// Lays out one image for the invert filter; see `spec_image_layout`.
pub fn image_layout(props: ImageProps, n_comps: i32, elem_size: i32) -> (r: OfxResult<
    (ElementLayout, usize),
>)
    requires
        1 <= elem_size <= 8,
    ensures
        match r {
            Ok((l, len)) => spec_image_layout(props, n_comps as int, elem_size as int) == Ok::<
                (ElementLayout, int),
                i32,
            >((l, len as int)) && layout_wf(l, len as int),
            Err(e) => spec_image_layout(props, n_comps as int, elem_size as int) == Err::<
                (ElementLayout, int),
                i32,
            >(e),
        },
{
    let rb = match props.row_bytes {
        Err(e) => return Err(e),
        Ok(rb) => rb,
    };
    let b = match props.bounds {
        Err(e) => return Err(e),
        Ok(b) => rect_i_from_array(&b),
    };
    match props.data_present {
        Err(e) => return Err(e),
        Ok(false) => return Err(kOfxStatErrBadIndex),
        Ok(true) => {},
    }
    match element_layout(b, rb, n_comps, elem_size) {
        None => Err(kOfxStatFailed),
        Some(l) => Ok(l),
    }
}

/// Something that is fetched only when it is wanted, such as the mask clip
/// of the general context or a parameter that only some hosts have.
pub fn fetch_when<T, F: FnOnce() -> OfxResult<T>>(wanted: bool, fetch: F) -> (r: OfxResult<
    Option<T>,
>)
    requires
        wanted ==> fetch.requires(()),
    ensures
        !wanted ==> r == Ok::<Option<T>, i32>(None),
        wanted ==> exists|f: OfxResult<T>|
            #![trigger fetch.ensures((), f)]
            fetch.ensures((), f) && r == match f {
                Ok(t) => Ok::<Option<T>, i32>(Some(t)),
                Err(e) => Err(e),
            },
{
    if wanted {
        match fetch() {
            Ok(t) => Ok(Some(t)),
            Err(e) => Err(e),
        }
    } else {
        Ok(None)
    }
}

/// The image of an optional mask clip: none without the clip, and none when
/// the clip gives no image, as an optional clip that is not connected does.
pub fn mask_image<C, T, F: FnOnce(C) -> OfxResult<Option<T>>>(mask_clip: Option<C>, fetch: F) -> (r:
    OfxResult<Option<T>>)
    requires
        mask_clip matches Some(c) ==> fetch.requires((c,)),
    ensures
        mask_clip is None ==> r == Ok::<Option<T>, i32>(None),
        mask_clip matches Some(c) ==> exists|f: OfxResult<Option<T>>|
            #![trigger fetch.ensures((c,), f)]
            fetch.ensures((c,), f) && r == f,
{
    match mask_clip {
        Some(c) => fetch(c),
        None => Ok(None),
    }
}

} // verus!
