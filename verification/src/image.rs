//! Image descriptions as the host reports them: bounds, pixel depth,
//! components, row stride, and the byte offset of a pixel.

use vstd::prelude::*;
use crate::names::{
    kOfxBitDepthByte, kOfxBitDepthFloat, kOfxBitDepthShort, kOfxImageComponentAlpha,
    kOfxImageComponentRGB, kOfxImageComponentRGBA,
};
use crate::status::{OfxResult, OfxStatus, kOfxStatErrUnsupported};
use crate::text::opt_str_eq;

verus! {

/// An integer rectangle, `x1 <= x < x2`, `y1 <= y < y2`.
#[derive(Clone, Copy, Debug, PartialEq, Eq, Structural)]
pub struct OfxRectI {
    pub x1: i32,
    pub y1: i32,
    pub x2: i32,
    pub y2: i32,
}

/// Whether the pixel `(x, y)` lies in `r`.
pub open spec fn rect_contains(r: OfxRectI, x: int, y: int) -> bool {
    r.x1 <= x < r.x2 && r.y1 <= y < r.y2
}

/// Builds a rectangle from the four integers `[x1, y1, x2, y2]` of a
/// rectangle-valued property.
pub fn rect_i_from_array(arr: &[i32; 4]) -> (r: OfxRectI)
    ensures
        r == (OfxRectI { x1: arr@[0], y1: arr@[1], x2: arr@[2], y2: arr@[3] }),
{
    OfxRectI { x1: arr[0], y1: arr[1], x2: arr[2], y2: arr[3] }
}

/// The depth of one component of a pixel.
#[derive(Clone, Copy, Debug, PartialEq, Eq, Structural)]
#[non_exhaustive]
pub enum BitDepth {
    Byte,
    Short,
    Float,
}

/// The bit depth that a pixel-depth property names, if it names one.
pub open spec fn spec_bit_depth_from_name(name: Option<Seq<char>>) -> Option<BitDepth> {
    match name {
        Some(n) => if n == kOfxBitDepthByte@ {
            Some(BitDepth::Byte)
        } else if n == kOfxBitDepthShort@ {
            Some(BitDepth::Short)
        } else if n == kOfxBitDepthFloat@ {
            Some(BitDepth::Float)
        } else {
            None
        },
        None => None,
    }
}

/// The number of components per pixel that a components property names:
/// 4 for RGBA, 3 for RGB, 1 for alpha, 0 for anything else.
pub open spec fn spec_n_comps_from_name(name: Option<Seq<char>>) -> i32 {
    match name {
        Some(n) => if n == kOfxImageComponentRGBA@ {
            4
        } else if n == kOfxImageComponentRGB@ {
            3
        } else if n == kOfxImageComponentAlpha@ {
            1
        } else {
            0
        },
        None => 0,
    }
}

/// The view of an optional host string.
pub open spec fn opt_view(name: Option<&str>) -> Option<Seq<char>> {
    match name {
        Some(s) => Some(s@),
        None => None,
    }
}

pub fn bit_depth_from_name(name: Option<&str>) -> (r: Option<BitDepth>)
    ensures
        r == spec_bit_depth_from_name(opt_view(name)),
{
    if opt_str_eq(name, kOfxBitDepthByte) {
        Some(BitDepth::Byte)
    } else if opt_str_eq(name, kOfxBitDepthShort) {
        Some(BitDepth::Short)
    } else if opt_str_eq(name, kOfxBitDepthFloat) {
        Some(BitDepth::Float)
    } else {
        None
    }
}

pub fn n_comps_from_name(name: Option<&str>) -> (r: i32)
    ensures
        r == spec_n_comps_from_name(opt_view(name)),
{
    if opt_str_eq(name, kOfxImageComponentRGBA) {
        4
    } else if opt_str_eq(name, kOfxImageComponentRGB) {
        3
    } else if opt_str_eq(name, kOfxImageComponentAlpha) {
        1
    } else {
        0
    }
}

/// The size in bytes of one component of the given depth.
pub open spec fn spec_bytes_per_component(d: BitDepth) -> i32 {
    match d {
        BitDepth::Byte => 1,
        BitDepth::Short => 2,
        BitDepth::Float => 4,
    }
}

/// What the host reports of an image that the plugin fetched from a clip:
/// its components, depth, row stride in bytes and bounds.
#[derive(Clone, Copy, Debug)]
pub struct ImageInfo {
    pub n_comps: i32,
    pub pixel_depth: BitDepth,
    pub row_bytes: i32,
    pub bounds: OfxRectI,
}

/// The description of an image, from the results of reading its properties
/// in this order: whether its data pointer is set, its components, its pixel
/// depth, its row bytes, its bounds, its pixel aspect ratio. The first read
/// that failed decides the error; an image without data is no image; an
/// unknown pixel depth is unsupported.
pub open spec fn spec_image_info(
    data_present: OfxResult<bool>,
    components: OfxResult<Option<Seq<char>>>,
    pixel_depth: OfxResult<Option<Seq<char>>>,
    row_bytes: OfxResult<i32>,
    bounds: OfxResult<OfxRectI>,
    aspect_ratio_read: OfxResult<()>,
) -> OfxResult<Option<ImageInfo>> {
    match data_present {
        Err(e) => Err(e),
        Ok(false) => Ok(None),
        Ok(true) => match components {
            Err(e) => Err(e),
            Ok(c) => match pixel_depth {
                Err(e) => Err(e),
                Ok(d) => match spec_bit_depth_from_name(d) {
                    None => Err(kOfxStatErrUnsupported),
                    Some(depth) => match row_bytes {
                        Err(e) => Err(e),
                        Ok(rb) => match bounds {
                            Err(e) => Err(e),
                            Ok(b) => match aspect_ratio_read {
                                Err(e) => Err(e),
                                Ok(_) => Ok(
                                    Some(
                                        ImageInfo {
                                            n_comps: spec_n_comps_from_name(c),
                                            pixel_depth: depth,
                                            row_bytes: rb,
                                            bounds: b,
                                        },
                                    ),
                                ),
                            },
                        },
                    },
                },
            },
        },
    }
}

pub open spec fn opt_view_result(r: OfxResult<Option<&str>>) -> OfxResult<Option<Seq<char>>> {
    match r {
        Ok(n) => Ok(opt_view(n)),
        Err(e) => Err(e),
    }
}

/// The byte offset of pixel `(x, y)` from the start of the image data, when
/// the pixel lies in the image's bounds.
pub open spec fn spec_raw_offset(info: ImageInfo, x: int, y: int) -> Option<int> {
    if rect_contains(info.bounds, x, y) {
        Some(
            (y - info.bounds.y1) * info.row_bytes + (x - info.bounds.x1) * (
            spec_bytes_per_component(info.pixel_depth) * info.n_comps),
        )
    } else {
        None
    }
}

/// The view of a host string read into an owned string.
pub open spec fn string_read_view(r: OfxResult<Option<String>>) -> OfxResult<Option<Seq<char>>> {
    match r {
        Ok(Some(s)) => Ok(Some(s@)),
        Ok(None) => Ok(None),
        Err(e) => Err(e),
    }
}

/// The rectangle of a bounds read.
pub open spec fn bounds_read_rect(r: OfxResult<[i32; 4]>) -> OfxResult<OfxRectI> {
    match r {
        Ok(a) => Ok(OfxRectI { x1: a@[0], y1: a@[1], x2: a@[2], y2: a@[3] }),
        Err(e) => Err(e),
    }
}

/// Whether a pixel depth read succeeded with a depth the plugins know.
pub open spec fn depth_known(d: OfxResult<Option<String>>) -> bool {
    d is Ok && spec_bit_depth_from_name(string_read_view(d)->Ok_0) is Some
}

/// Whether `c`, `d`, `rb`, `b` and `a` are possible results of the reads
/// that describing an image makes, each made only while the ones before it
/// leave the description open: the components and pixel depth once the data
/// is present, the row bytes, bounds and pixel aspect ratio once the depth
/// is known and every read before succeeded.
pub open spec fn image_reads<
    F1: FnOnce() -> OfxResult<Option<String>>,
    F2: FnOnce() -> OfxResult<Option<String>>,
    F3: FnOnce() -> OfxResult<i32>,
    F4: FnOnce() -> OfxResult<[i32; 4]>,
    F5: FnOnce() -> OfxResult<()>,
>(
    data_present: OfxResult<bool>,
    components: F1,
    pixel_depth: F2,
    row_bytes: F3,
    bounds: F4,
    aspect_ratio: F5,
    c: OfxResult<Option<String>>,
    d: OfxResult<Option<String>>,
    rb: OfxResult<i32>,
    b: OfxResult<[i32; 4]>,
    a: OfxResult<()>,
) -> bool {
    data_present == Ok::<bool, i32>(true) ==> {
        &&& components.ensures((), c)
        &&& c is Ok ==> {
            &&& pixel_depth.ensures((), d)
            &&& depth_known(d) ==> {
                &&& row_bytes.ensures((), rb)
                &&& rb is Ok ==> {
                    &&& bounds.ensures((), b)
                    &&& b is Ok ==> aspect_ratio.ensures((), a)
                }
            }
        }
    }
}

/// The size in bytes of one pixel of an image.
pub open spec fn spec_bytes_per_pixel(info: ImageInfo) -> int {
    spec_bytes_per_component(info.pixel_depth) * info.n_comps
}

/// Every description made from an image's properties has 0, 1, 3 or 4
/// components, so its pixel size is defined: the size of a component of its
/// depth (1, 2 or 4 bytes) times the count, which is 0 when the components
/// were not recognised.
pub proof fn lemma_described_pixel_size(
    data_present: OfxResult<bool>,
    components: OfxResult<Option<Seq<char>>>,
    pixel_depth: OfxResult<Option<Seq<char>>>,
    row_bytes: OfxResult<i32>,
    bounds: OfxResult<OfxRectI>,
    aspect_ratio_read: OfxResult<()>,
    info: ImageInfo,
)
    requires
        spec_image_info(data_present, components, pixel_depth, row_bytes, bounds, aspect_ratio_read)
            == Ok::<Option<ImageInfo>, i32>(Some(info)),
    ensures
        info.n_comps == 0 || info.n_comps == 1 || info.n_comps == 3 || info.n_comps == 4,
        info.n_comps == spec_n_comps_from_name(components->Ok_0),
        spec_bytes_per_component(info.pixel_depth) == 1 || spec_bytes_per_component(
            info.pixel_depth,
        ) == 2 || spec_bytes_per_component(info.pixel_depth) == 4,
        spec_bytes_per_pixel(info) == spec_bytes_per_component(info.pixel_depth) * info.n_comps,
        info.n_comps == 0 ==> spec_bytes_per_pixel(info) == 0,
{
}

impl ImageInfo {
    /// Describes an image from the results of reading its properties; see
    /// `spec_image_info` for the order in which they decide.
    pub fn try_new(
        data_present: OfxResult<bool>,
        components: OfxResult<Option<&str>>,
        pixel_depth: OfxResult<Option<&str>>,
        row_bytes: OfxResult<i32>,
        bounds: OfxResult<[i32; 4]>,
        aspect_ratio_read: OfxResult<()>,
    ) -> (r: OfxResult<Option<ImageInfo>>)
        ensures
            r == spec_image_info(
                data_present,
                opt_view_result(components),
                opt_view_result(pixel_depth),
                row_bytes,
                match bounds {
                    Ok(a) => Ok(OfxRectI { x1: a@[0], y1: a@[1], x2: a@[2], y2: a@[3] }),
                    Err(e) => Err(e),
                },
                aspect_ratio_read,
            ),
    {
        let present = match data_present {
            Err(e) => return Err(e),
            Ok(p) => p,
        };
        if !present {
            return Ok(None);
        }
        let n_comps = match components {
            Err(e) => return Err(e),
            Ok(c) => n_comps_from_name(c),
        };
        let depth_name = match pixel_depth {
            Err(e) => return Err(e),
            Ok(d) => d,
        };
        let depth = match bit_depth_from_name(depth_name) {
            None => return Err(kOfxStatErrUnsupported),
            Some(d) => d,
        };
        let rb = match row_bytes {
            Err(e) => return Err(e),
            Ok(rb) => rb,
        };
        let b = match bounds {
            Err(e) => return Err(e),
            Ok(a) => rect_i_from_array(&a),
        };
        match aspect_ratio_read {
            Err(e) => return Err(e),
            Ok(_) => {},
        }
        Ok(Some(ImageInfo { n_comps, pixel_depth: depth, row_bytes: rb, bounds: b }))
    }

    /// Describes an image as `try_new` does, making each read only when the
    /// reads before it leave the description open: the image's data pointer
    /// has been read into `data_present`, and the other properties are read
    /// by the closures, in order. Each closure need only be callable once
    /// the reads before it have left the description open, so no read is
    /// made after one that decides.
    pub fn read<
        F1: FnOnce() -> OfxResult<Option<String>>,
        F2: FnOnce() -> OfxResult<Option<String>>,
        F3: FnOnce() -> OfxResult<i32>,
        F4: FnOnce() -> OfxResult<[i32; 4]>,
        F5: FnOnce() -> OfxResult<()>,
    >(
        data_present: OfxResult<bool>,
        components: F1,
        pixel_depth: F2,
        row_bytes: F3,
        bounds: F4,
        aspect_ratio: F5,
    ) -> (r: OfxResult<Option<ImageInfo>>)
        requires
            data_present == Ok::<bool, i32>(true) ==> components.requires(()),
            forall|c: OfxResult<Option<String>>|
                #![trigger components.ensures((), c)]
                data_present == Ok::<bool, i32>(true) && components.ensures((), c) && c is Ok
                    ==> pixel_depth.requires(()),
            forall|c: OfxResult<Option<String>>, d: OfxResult<Option<String>>|
                #![trigger components.ensures((), c), pixel_depth.ensures((), d)]
                data_present == Ok::<bool, i32>(true) && components.ensures((), c) && c is Ok
                    && pixel_depth.ensures((), d) && depth_known(d) ==> row_bytes.requires(()),
            forall|
                c: OfxResult<Option<String>>,
                d: OfxResult<Option<String>>,
                rb: OfxResult<i32>,
            |
                #![trigger components.ensures((), c), pixel_depth.ensures((), d), row_bytes.ensures((), rb)]
                data_present == Ok::<bool, i32>(true) && components.ensures((), c) && c is Ok
                    && pixel_depth.ensures((), d) && depth_known(d) && row_bytes.ensures((), rb)
                    && rb is Ok ==> bounds.requires(()),
            forall|
                c: OfxResult<Option<String>>,
                d: OfxResult<Option<String>>,
                rb: OfxResult<i32>,
                b: OfxResult<[i32; 4]>,
            |
                #![trigger components.ensures((), c), pixel_depth.ensures((), d), row_bytes.ensures((), rb), bounds.ensures((), b)]
                data_present == Ok::<bool, i32>(true) && components.ensures((), c) && c is Ok
                    && pixel_depth.ensures((), d) && depth_known(d) && row_bytes.ensures((), rb)
                    && rb is Ok && bounds.ensures((), b) && b is Ok ==> aspect_ratio.requires(()),
        ensures
            exists|
                c: OfxResult<Option<String>>,
                d: OfxResult<Option<String>>,
                rb: OfxResult<i32>,
                b: OfxResult<[i32; 4]>,
                a: OfxResult<()>,
            |
                #![trigger image_reads(data_present, components, pixel_depth, row_bytes, bounds, aspect_ratio, c, d, rb, b, a)]
                image_reads(
                    data_present,
                    components,
                    pixel_depth,
                    row_bytes,
                    bounds,
                    aspect_ratio,
                    c,
                    d,
                    rb,
                    b,
                    a,
                ) && r == spec_image_info(
                    data_present,
                    string_read_view(c),
                    string_read_view(d),
                    rb,
                    bounds_read_rect(b),
                    a,
                ),
    {
        let ghost no_c = Ok::<Option<String>, OfxStatus>(None);
        let ghost no_d = Ok::<Option<String>, OfxStatus>(None);
        let ghost no_rb = Ok::<i32, OfxStatus>(0);
        let ghost no_b = Ok::<[i32; 4], OfxStatus>([0i32, 0, 0, 0]);
        let ghost no_a = Ok::<(), OfxStatus>(());
        match data_present {
            Err(e) => {
                assert(image_reads(data_present, components, pixel_depth, row_bytes, bounds, aspect_ratio, no_c, no_d, no_rb, no_b, no_a));
                return Err(e);
            },
            Ok(false) => {
                assert(image_reads(data_present, components, pixel_depth, row_bytes, bounds, aspect_ratio, no_c, no_d, no_rb, no_b, no_a));
                return Ok(None);
            },
            Ok(true) => {},
        }
        let c = components();
        let c_name: Option<&str> = match &c {
            Err(e) => {
                assert(image_reads(data_present, components, pixel_depth, row_bytes, bounds, aspect_ratio, c, no_d, no_rb, no_b, no_a));
                return Err(*e);
            },
            Ok(Some(name)) => Some(name.as_str()),
            Ok(None) => None,
        };
        let d = pixel_depth();
        let d_name: Option<&str> = match &d {
            Err(e) => {
                assert(image_reads(data_present, components, pixel_depth, row_bytes, bounds, aspect_ratio, c, d, no_rb, no_b, no_a));
                return Err(*e);
            },
            Ok(Some(name)) => Some(name.as_str()),
            Ok(None) => None,
        };
        if bit_depth_from_name(d_name).is_none() {
            assert(image_reads(data_present, components, pixel_depth, row_bytes, bounds, aspect_ratio, c, d, no_rb, no_b, no_a));
            return Err(kOfxStatErrUnsupported);
        }
        let rb = row_bytes();
        if let Err(e) = rb {
            assert(image_reads(data_present, components, pixel_depth, row_bytes, bounds, aspect_ratio, c, d, rb, no_b, no_a));
            return Err(e);
        }
        let b = bounds();
        if let Err(e) = b {
            assert(image_reads(data_present, components, pixel_depth, row_bytes, bounds, aspect_ratio, c, d, rb, b, no_a));
            return Err(e);
        }
        let a = aspect_ratio();
        assert(image_reads(data_present, components, pixel_depth, row_bytes, bounds, aspect_ratio, c, d, rb, b, a));
        ImageInfo::try_new(Ok(true), Ok(c_name), Ok(d_name), rb, b, a)
    }

    pub fn n_comps(&self) -> (r: i32)
        ensures
            r == self.n_comps,
    {
        self.n_comps
    }

    pub fn pixel_depth(&self) -> (r: BitDepth)
        ensures
            r == self.pixel_depth,
    {
        self.pixel_depth
    }

    pub fn bytes_per_component(&self) -> (r: i32)
        ensures
            r == spec_bytes_per_component(self.pixel_depth),
    {
        match self.pixel_depth {
            BitDepth::Byte => 1,
            BitDepth::Short => 2,
            BitDepth::Float => 4,
        }
    }

    /// The bytes per pixel; the components count is at most 4 whenever it
    /// comes from `try_new` or `read` (see `lemma_described_pixel_size`).
    pub fn bytes_per_pixel(&self) -> (r: i32)
        requires
            0 <= self.n_comps <= 4,
        ensures
            r == spec_bytes_per_pixel(*self),
    {
        self.bytes_per_component() * self.n_comps
    }

    pub fn row_bytes(&self) -> (r: i32)
        ensures
            r == self.row_bytes,
    {
        self.row_bytes
    }

    pub fn bounds(&self) -> (r: OfxRectI)
        ensures
            r == self.bounds,
    {
        self.bounds
    }

    /// The byte offset from the image data of pixel `(x, y)`, or `None` when
    /// the pixel is outside the image's bounds.
    pub fn raw_address(&self, x: i32, y: i32) -> (r: Option<i128>)
        requires
            0 <= self.n_comps <= 4,
        ensures
            r matches Some(o) ==> spec_raw_offset(*self, x as int, y as int) == Some(o as int),
            r is None ==> spec_raw_offset(*self, x as int, y as int) is None,
    {
        if x < self.bounds.x1 || x >= self.bounds.x2 || y < self.bounds.y1 || y >= self.bounds.y2 {
            return None;
        }
        let x_offset = x as i128 - self.bounds.x1 as i128;
        let y_offset = y as i128 - self.bounds.y1 as i128;
        let bpp = self.bytes_per_pixel() as i128;
        let rb = self.row_bytes as i128;
        proof {
            assert(0 <= y_offset < 0x1_0000_0000);
            assert(0 <= x_offset < 0x1_0000_0000);
            let bpc = spec_bytes_per_component(self.pixel_depth);
            assert(1 <= bpc <= 4);
            assert(0 <= bpc * self.n_comps <= 16) by (nonlinear_arith)
                requires
                    1 <= bpc <= 4,
                    0 <= self.n_comps <= 4,
            ;
            assert(-0x8000_0000_0000_0000 <= y_offset * rb <= 0x8000_0000_0000_0000) by (nonlinear_arith)
                requires
                    0 <= y_offset < 0x1_0000_0000,
                    -0x8000_0000 <= rb < 0x8000_0000,
            ;
            assert(0 <= x_offset * bpp <= 0x10_0000_0000) by (nonlinear_arith)
                requires
                    0 <= x_offset < 0x1_0000_0000,
                    0 <= bpp <= 16,
            ;
        }
        Some(y_offset * rb + x_offset * bpp)
    }
}

} // verus!
