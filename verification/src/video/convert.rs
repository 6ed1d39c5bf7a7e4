//! Conversion of packed RGB pictures into planar YUV 4:2:0.

use crate::video::{VideoError, VideoErrorView};
use vstd::prelude::*;
use yuv::{
    rgb_to_yuv420, rgba_to_yuv420, YuvChromaSubsampling, YuvConversionMode, YuvPlanarImageMut, YuvRange,
    YuvStandardMatrix,
};

verus! {

/// How the bytes of one pixel are laid out in a packed picture.
#[derive(Clone, Copy, Debug, PartialEq, Eq, Structural)]
pub enum PixelLayout {
    /// Three bytes per pixel: red, green, blue.
    Rgb,
    /// Four bytes per pixel: red, green, blue, alpha.
    Rgba,
    /// One byte per pixel; the converter does not take it.
    Gray,
}

impl PixelLayout {
    /// Number of bytes that one pixel occupies.
    pub open spec fn channels(self) -> nat {
        match self {
            PixelLayout::Rgb => 3,
            PixelLayout::Rgba => 4,
            PixelLayout::Gray => 1,
        }
    }

    /// Whether the converter accepts pictures in this layout.
    pub open spec fn supported(self) -> bool {
        self != PixelLayout::Gray
    }

    /// Number of bytes that one pixel occupies.
    pub fn bytes_per_pixel(&self) -> (n: u32)
        ensures
            n == self.channels(),
    {
        match self {
            PixelLayout::Rgb => 3,
            PixelLayout::Rgba => 4,
            PixelLayout::Gray => 1,
        }
    }
}

/// Half of `n`, rounded up: the extent of a chroma plane along an axis of
/// `n` pixels.
pub open spec fn half_up(n: int) -> int {
    (n + 1) / 2
}

/// The range that the luma and chroma values are kept to.
#[derive(Clone, Copy, Debug, PartialEq, Eq, Structural)]
pub enum ColorRange {
    /// Luma from 16 to 235, chroma from 16 to 240.
    Limited,
    /// All of 0 to 255.
    Full,
}

/// The coefficients by which red, green and blue are weighed.
#[derive(Clone, Copy, Debug, PartialEq, Eq, Structural)]
pub enum ColorMatrix {
    Bt601,
    Bt709,
}

/// The three planes that `yuv::rgb_to_yuv420` writes for a tightly packed
/// RGB picture under the given range and matrix, or the text of the error
/// it returns. The crate is built without yuv's `avx`, `sse` and `rdm`
/// features, so that no path is chosen by the processor found at run time;
/// with any of them on, the result would no longer depend on the arguments
/// alone. The bytes are those of one target architecture.
pub uninterp spec fn rgb_yuv420(data: Seq<u8>, width: u32, height: u32, stride: u32, range: ColorRange, matrix: ColorMatrix) -> Result<(Seq<u8>, Seq<u8>, Seq<u8>), Seq<char>>;

/// The three planes that `yuv::rgba_to_yuv420` writes for a tightly packed
/// RGBA picture under the given range and matrix, or the text of the error
/// it returns; what is said of [`rgb_yuv420`] holds of it too.
pub uninterp spec fn rgba_yuv420(data: Seq<u8>, width: u32, height: u32, stride: u32, range: ColorRange, matrix: ColorMatrix) -> Result<(Seq<u8>, Seq<u8>, Seq<u8>), Seq<char>>;

/// The outcome of a conversion as plain sequences.
pub open spec fn planes_view(r: Result<(Vec<u8>, Vec<u8>, Vec<u8>), String>) -> Result<
    (Seq<u8>, Seq<u8>, Seq<u8>),
    Seq<char>,
> {
    match r {
        Ok(p) => Ok((p.0@, p.1@, p.2@)),
        Err(e) => Err(e@),
    }
}

/// Whether three planes have the sizes of a 4:2:0 picture of the given extent.
pub open spec fn planes_fit(p: (Seq<u8>, Seq<u8>, Seq<u8>), width: u32, height: u32) -> bool {
    &&& p.0.len() == width * height
    &&& p.1.len() == half_up(width as int) * half_up(height as int)
    &&& p.2.len() == half_up(width as int) * half_up(height as int)
}

/// Calls `yuv::rgb_to_yuv420` on planes from `YuvPlanarImageMut::alloc` for
/// 4:2:0, with the given range and matrix and the balanced mode. On a
/// picture of at least one pixel whose bytes are exactly its rows, every
/// size check of the function passes and it returns planes. The result
/// depends on the arguments alone, and the planes have the sizes that
/// `alloc` gave them: width times height for luma, the halves rounded up
/// for each chroma plane.
#[verifier::external_body]
fn rgb_planes(data: &Vec<u8>, width: u32, height: u32, stride: u32, range: ColorRange, matrix: ColorMatrix) -> (r:
    Result<(Vec<u8>, Vec<u8>, Vec<u8>), String>)
    requires
        width >= 1,
        height >= 1,
        stride == 3 * width,
        data.len() == stride * height,
    ensures
        r is Ok,
        planes_view(r) == rgb_yuv420(data@, width, height, stride, range, matrix),
        r matches Ok(p) ==> planes_fit((p.0@, p.1@, p.2@), width, height),
{
    let mut planar = YuvPlanarImageMut::<u8>::alloc(width, height, YuvChromaSubsampling::Yuv420);
    let range = match range { ColorRange::Limited => YuvRange::Limited, ColorRange::Full => YuvRange::Full };
    let matrix = match matrix { ColorMatrix::Bt601 => YuvStandardMatrix::Bt601, ColorMatrix::Bt709 => YuvStandardMatrix::Bt709 };
    match rgb_to_yuv420(&mut planar, data, stride, range, matrix, YuvConversionMode::Balanced) {
        Ok(()) => Ok(
            (planar.y_plane.borrow().to_vec(), planar.u_plane.borrow().to_vec(), planar.v_plane.borrow().to_vec()),
        ),
        Err(e) => Err(format!("{}", e)),
    }
}

/// Calls `yuv::rgba_to_yuv420` in the same way as [`rgb_planes`] calls its
/// function, for four bytes per pixel; the alpha byte is read past.
#[verifier::external_body]
fn rgba_planes(data: &Vec<u8>, width: u32, height: u32, stride: u32, range: ColorRange, matrix: ColorMatrix) -> (r:
    Result<(Vec<u8>, Vec<u8>, Vec<u8>), String>)
    requires
        width >= 1,
        height >= 1,
        stride == 4 * width,
        data.len() == stride * height,
    ensures
        r is Ok,
        planes_view(r) == rgba_yuv420(data@, width, height, stride, range, matrix),
        r matches Ok(p) ==> planes_fit((p.0@, p.1@, p.2@), width, height),
{
    let mut planar = YuvPlanarImageMut::<u8>::alloc(width, height, YuvChromaSubsampling::Yuv420);
    let range = match range { ColorRange::Limited => YuvRange::Limited, ColorRange::Full => YuvRange::Full };
    let matrix = match matrix { ColorMatrix::Bt601 => YuvStandardMatrix::Bt601, ColorMatrix::Bt709 => YuvStandardMatrix::Bt709 };
    match rgba_to_yuv420(&mut planar, data, stride, range, matrix, YuvConversionMode::Balanced) {
        Ok(()) => Ok(
            (planar.y_plane.borrow().to_vec(), planar.u_plane.borrow().to_vec(), planar.v_plane.borrow().to_vec()),
        ),
        Err(e) => Err(format!("{}", e)),
    }
}

/// A packed picture as it comes from a capture backend: `height` rows of
/// `width` pixels, each pixel `layout.channels()` bytes, rows back to back.
#[derive(Debug)]
pub struct PackedImage {
    pub width: u32,
    pub height: u32,
    pub layout: PixelLayout,
    pub data: Vec<u8>,
}

/// The mathematical content of a [`PackedImage`].
pub struct PackedImageView {
    pub width: u32,
    pub height: u32,
    pub layout: PixelLayout,
    pub data: Seq<u8>,
}

impl PackedImageView {
    /// Number of bytes in one row of pixels.
    pub open spec fn row_bytes(self) -> int {
        self.layout.channels() * self.width
    }

    /// A picture the converter takes: a supported layout, at least one
    /// pixel along each axis, a row that fits a 32-bit stride, and exactly
    /// as many bytes as the geometry asks for.
    pub open spec fn well_formed(self) -> bool {
        &&& self.layout.supported()
        &&& self.width >= 1
        &&& self.height >= 1
        &&& self.row_bytes() <= u32::MAX
        &&& self.data.len() == self.row_bytes() * self.height
    }

    /// What the outside converter makes of a well-formed picture under the
    /// rule of this library: limited range and the BT.601 matrix.
    pub open spec fn planes(self) -> Result<(Seq<u8>, Seq<u8>, Seq<u8>), Seq<char>> {
        match self.layout {
            PixelLayout::Rgba => rgba_yuv420(
                self.data,
                self.width,
                self.height,
                self.row_bytes() as u32,
                ColorRange::Limited,
                ColorMatrix::Bt601,
            ),
            _ => rgb_yuv420(
                self.data,
                self.width,
                self.height,
                self.row_bytes() as u32,
                ColorRange::Limited,
                ColorMatrix::Bt601,
            ),
        }
    }

    /// The result of converting the picture: `InvalidFrame` for one that is
    /// not well formed, otherwise the planes of the outside converter in a
    /// tightly strided buffer, or its error text.
    pub open spec fn converted(self) -> Result<I420View, VideoErrorView> {
        if !self.well_formed() {
            Err(VideoErrorView::InvalidFrame)
        } else {
            frame_of(self.width, self.height, self.planes())
        }
    }
}

/// The buffer, or the error, that stands for one outcome of the outside
/// converter on a picture of the given extent: planes of the sizes that the
/// extent asks for make a buffer with tight strides, planes of any other
/// size are an invalid frame, and an error text is a conversion failure.
pub open spec fn frame_of(width: u32, height: u32, planes: Result<(Seq<u8>, Seq<u8>, Seq<u8>), Seq<char>>) -> Result<
    I420View,
    VideoErrorView,
> {
    match planes {
        Ok(p) => if width >= 1 && height >= 1 && planes_fit(p, width, height) {
            Ok(
                I420View {
                    width,
                    height,
                    stride_y: width,
                    stride_u: half_up(width as int) as u32,
                    stride_v: half_up(width as int) as u32,
                    data_y: p.0,
                    data_u: p.1,
                    data_v: p.2,
                },
            )
        } else {
            Err(VideoErrorView::InvalidFrame)
        },
        Err(e) => Err(VideoErrorView::YUVError(e)),
    }
}

impl View for PackedImage {
    type V = PackedImageView;

    open spec fn view(&self) -> PackedImageView {
        PackedImageView { width: self.width, height: self.height, layout: self.layout, data: self.data@ }
    }
}

/// A planar YUV 4:2:0 picture: a full-resolution luma plane and two chroma
/// planes of half the extent, rounded up, along each axis.
#[derive(Debug)]
pub struct I420Buffer {
    width: u32,
    height: u32,
    stride_y: u32,
    stride_u: u32,
    stride_v: u32,
    data_y: Vec<u8>,
    data_u: Vec<u8>,
    data_v: Vec<u8>,
}

/// The mathematical content of an [`I420Buffer`].
pub struct I420View {
    pub width: u32,
    pub height: u32,
    pub stride_y: u32,
    pub stride_u: u32,
    pub stride_v: u32,
    pub data_y: Seq<u8>,
    pub data_u: Seq<u8>,
    pub data_v: Seq<u8>,
}

impl I420View {
    /// Width of a chroma plane.
    pub open spec fn chroma_width(self) -> int {
        half_up(self.width as int)
    }

    /// Height of a chroma plane.
    pub open spec fn chroma_height(self) -> int {
        half_up(self.height as int)
    }

    /// The plane sizes follow from width and height alone, and each plane
    /// is stored without padding between its rows.
    pub open spec fn wf(self) -> bool {
        &&& self.width >= 1
        &&& self.height >= 1
        &&& self.stride_y == self.width
        &&& self.stride_u == self.chroma_width()
        &&& self.stride_v == self.chroma_width()
        &&& self.data_y.len() == self.width * self.height
        &&& self.data_u.len() == self.chroma_width() * self.chroma_height()
        &&& self.data_v.len() == self.chroma_width() * self.chroma_height()
    }
}

impl View for I420Buffer {
    type V = I420View;

    closed spec fn view(&self) -> I420View {
        I420View {
            width: self.width,
            height: self.height,
            stride_y: self.stride_y,
            stride_u: self.stride_u,
            stride_v: self.stride_v,
            data_y: self.data_y@,
            data_u: self.data_u@,
            data_v: self.data_v@,
        }
    }
}

impl I420Buffer {
    #[verifier::type_invariant]
    spec fn inv(self) -> bool {
        self@.wf()
    }

    pub fn width(&self) -> (r: u32)
        ensures
            r == self@.width,
    {
        self.width
    }

    pub fn height(&self) -> (r: u32)
        ensures
            r == self@.height,
    {
        self.height
    }

    /// Bytes per row of the luma plane and of each chroma plane.
    pub fn strides(&self) -> (r: (u32, u32, u32))
        ensures
            r == (self@.stride_y, self@.stride_u, self@.stride_v),
    {
        (self.stride_y, self.stride_u, self.stride_v)
    }

    /// The luma plane and the two chroma planes. Their sizes are those
    /// that width and height determine, as in every buffer.
    pub fn data(&self) -> (r: (&Vec<u8>, &Vec<u8>, &Vec<u8>))
        ensures
            self@.wf(),
            r.0@ == self@.data_y,
            r.1@ == self@.data_u,
            r.2@ == self@.data_v,
    {
        proof {
            use_type_invariant(self);
        }
        (&self.data_y, &self.data_u, &self.data_v)
    }
}

/// The outcome of a conversion as mathematical values.
pub open spec fn outcome_view(r: Result<I420Buffer, VideoError>) -> Result<I420View, VideoErrorView> {
    match r {
        Ok(b) => Ok(b@),
        Err(e) => Err(e@),
    }
}

impl PackedImage {
    /// Takes the bytes of a picture if they fit the geometry exactly.
    ///
    /// Returns `None` for a layout the converter does not take, for an
    /// empty extent, for a row too long for a 32-bit stride, and for any
    /// byte count other than rows times row length.
    pub fn from_raw(width: u32, height: u32, layout: PixelLayout, data: Vec<u8>) -> (r: Option<PackedImage>)
        ensures
            r is Some <==> (PackedImageView { width, height, layout, data: data@ }).well_formed(),
            r matches Some(img) ==> img@ == (PackedImageView { width, height, layout, data: data@ }),
    {
        let img = PackedImage { width, height, layout, data };
        if img.is_well_formed() {
            Some(img)
        } else {
            None
        }
    }

    /// Whether the converter takes this picture.
    pub fn is_well_formed(&self) -> (b: bool)
        ensures
            b == self@.well_formed(),
    {
        let channels: u64 = match self.layout {
            PixelLayout::Rgb => 3,
            PixelLayout::Rgba => 4,
            PixelLayout::Gray => {
                return false;
            },
        };
        if self.width == 0 || self.height == 0 {
            return false;
        }
        let row: u64 = channels * (self.width as u64);
        if row > u32::MAX as u64 {
            return false;
        }
        assert(row * (self.height as u64) <= 0xffff_ffff * 0xffff_ffff) by (nonlinear_arith)
            requires
                row <= 0xffff_ffff,
                self.height <= 0xffff_ffff,
        ;
        let expected: u64 = row * (self.height as u64);
        self.data.len() as u64 == expected
    }
}

/// Builds the frame buffer for one outcome of the outside converter: see
/// [`frame_of`].
pub fn buffer_from_planes(width: u32, height: u32, planes: Result<(Vec<u8>, Vec<u8>, Vec<u8>), String>) -> (r: Result<
    I420Buffer,
    VideoError,
>)
    ensures
        outcome_view(r) == frame_of(width, height, planes_view(planes)),
        r matches Ok(b) ==> b@.wf(),
{
    match planes {
        Ok((data_y, data_u, data_v)) => {
            if width == 0 || height == 0 {
                return Err(VideoError::InvalidFrame);
            }
            let chroma_width: u32 = width / 2 + width % 2;
            let chroma_height: u32 = height / 2 + height % 2;
            assert(chroma_width == half_up(width as int));
            assert(chroma_height == half_up(height as int));
            assert((width as u64) * (height as u64) <= 0xffff_ffff * 0xffff_ffff) by (nonlinear_arith)
                requires
                    width <= 0xffff_ffff,
                    height <= 0xffff_ffff,
            ;
            assert((chroma_width as u64) * (chroma_height as u64) <= 0xffff_ffff * 0xffff_ffff) by (nonlinear_arith)
                requires
                    chroma_width <= 0xffff_ffff,
                    chroma_height <= 0xffff_ffff,
            ;
            let luma: u64 = (width as u64) * (height as u64);
            let chroma: u64 = (chroma_width as u64) * (chroma_height as u64);
            if data_y.len() as u64 == luma && data_u.len() as u64 == chroma && data_v.len() as u64 == chroma {
                Ok(
                    I420Buffer {
                        width,
                        height,
                        stride_y: width,
                        stride_u: chroma_width,
                        stride_v: chroma_width,
                        data_y,
                        data_u,
                        data_v,
                    },
                )
            } else {
                Err(VideoError::InvalidFrame)
            }
        },
        Err(text) => Err(VideoError::YUVError(text)),
    }
}

/// Conversion is a function of the picture: two pictures of the same
/// extent and layout with the same bytes have the same outcome, so their
/// planes, where there are any, are byte for byte the same.
pub proof fn lemma_conversion_deterministic(a: PackedImageView, b: PackedImageView)
    requires
        a.width == b.width,
        a.height == b.height,
        a.layout == b.layout,
        a.data.len() == b.data.len(),
        forall|i: int| 0 <= i < a.data.len() ==> a.data[i] == b.data[i],
    ensures
        a.converted() == b.converted(),
{
    assert(a.data =~= b.data);
}

/// Planes of the sizes that the extent asks for make a well-formed buffer:
/// for every width and height of at least one, the luma plane has width
/// times height bytes and each chroma plane the product of the halves,
/// rounded up.
pub proof fn lemma_plane_sizes(width: u32, height: u32, planes: (Seq<u8>, Seq<u8>, Seq<u8>))
    requires
        width >= 1,
        height >= 1,
        planes_fit(planes, width, height),
    ensures
        frame_of(width, height, Ok(planes)) matches Ok(b) && b.wf() && b.data_y.len() == width * height
            && b.data_u.len() == ((width + 1) / 2) * ((height + 1) / 2) && b.data_v.len() == b.data_u.len(),
{
}

/// Converts a packed RGB or RGBA picture to planar YUV 4:2:0 with BT.601
/// limited-range coefficients.
///
/// A picture that is not well formed is refused as `InvalidFrame` and never
/// cut or padded to fit. Every well-formed picture gives a buffer: the
/// planes of the outside converter with tight strides. The outcome is a
/// function of the picture alone, so equal pictures give byte-identical
/// buffers, and every buffer has a luma plane of width times height bytes
/// and chroma planes of the halves, rounded up.
pub fn image_to_i420_buffer(img: &PackedImage) -> (r: Result<I420Buffer, VideoError>)
    ensures
        outcome_view(r) == img@.converted(),
        r is Ok <==> img@.well_formed(),
        !img@.well_formed() ==> outcome_view(r) == Err::<I420View, VideoErrorView>(VideoErrorView::InvalidFrame),
        r matches Ok(b) ==> b@.wf() && b@.width == img.width && b@.height == img.height,
{
    if !img.is_well_formed() {
        return Err(VideoError::InvalidFrame);
    }
    let stride: u32 = img.layout.bytes_per_pixel() * img.width;
    let planes = match img.layout {
        PixelLayout::Rgba => rgba_planes(
            &img.data,
            img.width,
            img.height,
            stride,
            ColorRange::Limited,
            ColorMatrix::Bt601,
        ),
        _ => rgb_planes(&img.data, img.width, img.height, stride, ColorRange::Limited, ColorMatrix::Bt601),
    };
    buffer_from_planes(img.width, img.height, planes)
}

} // verus!
