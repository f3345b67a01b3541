//! The conversions: an image buffer into a matrix, and a matrix into an
//! image buffer of a kind that the caller names or that the matrix decides.

use vstd::prelude::*;
use vstd::slice::slice_to_vec;
use crate::element::{is_depth_of, Depth, Float32, OpenCvElement};
use crate::error::Error;
use crate::image_buffer::{ColorType, DynamicImage, ImageBuffer};
use crate::mat::Mat;
use crate::pixel::{Luma, Pixel, Rgb};

verus! {

/// A fallible conversion into `T` that leaves the source as it is. An image
/// buffer and a dynamic image convert into a matrix; a matrix converts into
/// an image buffer of a kind that the caller names and into a dynamic image.
pub trait TryToCv<T> {
    type Error;

    fn try_to_cv(&self) -> Result<T, Self::Error>;
}

/// `mat` stands for `image`: it has the image's size, channel count and
/// element type, its rows lie back to back, and its elements are those of
/// the image's backing store, in the same order.
pub open spec fn spec_encodes<P: Pixel, T: OpenCvElement>(
    image: &ImageBuffer<P, T>,
    mat: &Mat,
) -> bool {
    &&& mat.spec_is_continuous()
    &&& mat.spec_rows() == image.spec_height()
    &&& mat.spec_cols() == image.spec_width()
    &&& mat.spec_channels() == P::spec_channel_count()
    &&& mat.spec_depth() == T::spec_depth()
    &&& mat.spec_elements::<T>() == image@
}

/// What converting `image` into a matrix gives: a matrix that stands for the
/// image, unless a side of the image is too long to be a matrix dimension.
pub open spec fn spec_encode_result<P: Pixel, T: OpenCvElement>(
    image: &ImageBuffer<P, T>,
    result: Result<Mat, Error>,
) -> bool {
    match result {
        Ok(mat) => image.spec_width() <= i32::MAX && image.spec_height() <= i32::MAX
            && spec_encodes(image, &mat),
        Err(e) => (image.spec_width() > i32::MAX || image.spec_height() > i32::MAX) && e
            == Error::Allocation,
    }
}

/// `image` stands for `mat`: it is as wide as the matrix has columns and as
/// high as the matrix has rows, and its backing store is the content of the
/// matrix.
pub open spec fn spec_decodes<P: Pixel, T: OpenCvElement>(
    mat: &Mat,
    image: &ImageBuffer<P, T>,
) -> bool {
    &&& image.spec_width() == mat.spec_cols()
    &&& image.spec_height() == mat.spec_rows()
    &&& image@ == mat.spec_pixels::<T>()
}

/// Why `mat` cannot become an image of kind `P` over `T`, if it cannot: the
/// first of dimensions, channel count and element type that does not fit.
pub open spec fn spec_decode_error<P: Pixel, T: OpenCvElement>(mat: &Mat) -> Option<Error> {
    if mat.spec_rows() == -1 || mat.spec_cols() == -1 {
        Some(Error::UnsupportedDimensions)
    } else if mat.spec_channels() != P::spec_channel_count() {
        Some(
            Error::ChannelMismatch {
                expected_channels: P::spec_channel_count() as i32,
                actual_channels: mat.spec_channels(),
            },
        )
    } else if mat.spec_depth() != T::spec_depth() {
        Some(
            Error::DepthMismatch {
                expected_depth: T::spec_depth(),
                actual_depth: mat.spec_depth(),
            },
        )
    } else {
        None
    }
}

/// What converting `mat` into an image of kind `P` over `T` gives.
pub open spec fn spec_decode_result<P: Pixel, T: OpenCvElement>(
    mat: &Mat,
    result: Result<ImageBuffer<P, T>, Error>,
) -> bool {
    match result {
        Ok(image) => spec_decode_error::<P, T>(mat) is None && spec_decodes(mat, &image),
        Err(e) => spec_decode_error::<P, T>(mat) == Some(e),
    }
}

/// Reads the content of a matrix position by position, in row-major order,
/// whatever the distance between its rows.
pub fn read_elementwise<T: OpenCvElement>(mat: &Mat) -> (out: Vec<T>)
    requires
        mat.spec_dims() == 2,
        mat.spec_depth() == T::spec_depth(),
    ensures
        out@ == mat.spec_pixels::<T>(),
{
    let rows: i32 = mat.rows();
    let cols: i32 = mat.cols();
    let channels: i32 = mat.channels();
    proof {
        use_type_invariant(mat);
    }
    let ghost pixels = mat.spec_pixels::<T>();
    let ghost row_len = mat.spec_row_len();
    let mut out: Vec<T> = Vec::new();
    let mut row: i32 = 0;
    while row < rows
        invariant
            mat.inv(),
            mat.spec_dims() == 2,
            mat.spec_depth() == T::spec_depth(),
            rows == mat.spec_rows(),
            cols == mat.spec_cols(),
            channels == mat.spec_channels(),
            pixels == mat.spec_pixels::<T>(),
            row_len == mat.spec_row_len(),
            0 <= row <= rows,
            out@ == pixels.take(row * row_len),
        decreases rows - row,
    {
        let mut col: i32 = 0;
        while col < cols
            invariant
                mat.inv(),
                mat.spec_dims() == 2,
                mat.spec_depth() == T::spec_depth(),
                rows == mat.spec_rows(),
                cols == mat.spec_cols(),
                channels == mat.spec_channels(),
                pixels == mat.spec_pixels::<T>(),
                row_len == mat.spec_row_len(),
                0 <= row < rows,
                0 <= col <= cols,
                out@ == pixels.take(row * row_len + col * channels),
            decreases cols - col,
        {
            let mut ch: i32 = 0;
            while ch < channels
                invariant
                    mat.inv(),
                    mat.spec_dims() == 2,
                    mat.spec_depth() == T::spec_depth(),
                    rows == mat.spec_rows(),
                    cols == mat.spec_cols(),
                    channels == mat.spec_channels(),
                    pixels == mat.spec_pixels::<T>(),
                    row_len == mat.spec_row_len(),
                    0 <= row < rows,
                    0 <= col < cols,
                    0 <= ch <= channels,
                    out@ == pixels.take(row * row_len + col * channels + ch),
                decreases channels - ch,
            {
                let value = mat.at_2d::<T>(row, col, ch).unwrap();
                proof {
                    mat.lemma_pixels_at::<T>(row as int, col as int, ch as int);
                    let k = row * row_len + col * channels + ch;
                    assert(pixels.take(k).push(pixels[k]) =~= pixels.take(k + 1));
                }
                out.push(value);
                ch = ch + 1;
            }
            proof {
                assert((col + 1) * channels == col * channels + channels) by (nonlinear_arith);
            }
            col = col + 1;
        }
        proof {
            assert((row + 1) * row_len == row * row_len + cols * channels) by (nonlinear_arith)
                requires
                    row_len == cols * channels,
            ;
        }
        row = row + 1;
    }
    proof {
        assert(pixels.take(rows * row_len) =~= pixels);
    }
    out
}

/// Builds the image of kind `P` that stands for a matrix of `width` columns
/// and `height` rows: from the store in one run where the rows lie back to
/// back, position by position where they do not.
pub fn mat_to_image_buffer<P: Pixel, T: OpenCvElement>(mat: &Mat, width: u32, height: u32) -> (image:
    ImageBuffer<P, T>)
    requires
        mat.spec_dims() == 2,
        mat.spec_channels() == P::spec_channel_count(),
        mat.spec_depth() == T::spec_depth(),
        width == mat.spec_cols(),
        height == mat.spec_rows(),
    ensures
        spec_decodes(mat, &image),
{
    proof {
        use_type_invariant(mat);
        assert(width * height * P::spec_channel_count() == mat.spec_total()) by (nonlinear_arith)
            requires
                width == mat.spec_cols(),
                height == mat.spec_rows(),
                mat.spec_total() == mat.spec_rows() * (mat.spec_cols() * mat.spec_channels()),
                mat.spec_channels() == P::spec_channel_count(),
        ;
    }
    match mat.as_slice::<T>() {
        Some(slice) => {
            proof {
                mat.lemma_continuous_pixels::<T>();
            }
            ImageBuffer::from_vec(width, height, slice_to_vec(slice)).unwrap()
        },
        None => ImageBuffer::from_vec(width, height, read_elementwise::<T>(mat)).unwrap(),
    }
}

/// Builds the grayscale image that stands for a matrix of one channel.
pub fn mat_to_image_buffer_gray<T: OpenCvElement>(mat: &Mat, width: u32, height: u32) -> (image:
    ImageBuffer<Luma, T>)
    requires
        mat.spec_dims() == 2,
        mat.spec_channels() == 1,
        mat.spec_depth() == T::spec_depth(),
        width == mat.spec_cols(),
        height == mat.spec_rows(),
    ensures
        spec_decodes(mat, &image),
{
    mat_to_image_buffer::<Luma, T>(mat, width, height)
}

/// Builds the red, green, blue image that stands for a matrix of three
/// channels.
pub fn mat_to_image_buffer_rgb<T: OpenCvElement>(mat: &Mat, width: u32, height: u32) -> (image:
    ImageBuffer<Rgb, T>)
    requires
        mat.spec_dims() == 2,
        mat.spec_channels() == 3,
        mat.spec_depth() == T::spec_depth(),
        width == mat.spec_cols(),
        height == mat.spec_rows(),
    ensures
        spec_decodes(mat, &image),
{
    mat_to_image_buffer::<Rgb, T>(mat, width, height)
}

/// What converting `image` into a matrix gives: what converting the typed
/// buffer that it holds gives.
pub open spec fn spec_encode_dynamic_result(
    image: &DynamicImage,
    result: Result<Mat, Error>,
) -> bool {
    match image {
        DynamicImage::ImageLuma8(buffer) => spec_encode_result(buffer, result),
        DynamicImage::ImageLumaA8(buffer) => spec_encode_result(buffer, result),
        DynamicImage::ImageRgb8(buffer) => spec_encode_result(buffer, result),
        DynamicImage::ImageRgba8(buffer) => spec_encode_result(buffer, result),
        DynamicImage::ImageLuma16(buffer) => spec_encode_result(buffer, result),
        DynamicImage::ImageLumaA16(buffer) => spec_encode_result(buffer, result),
        DynamicImage::ImageRgb16(buffer) => spec_encode_result(buffer, result),
        DynamicImage::ImageRgba16(buffer) => spec_encode_result(buffer, result),
        DynamicImage::ImageRgb32F(buffer) => spec_encode_result(buffer, result),
        DynamicImage::ImageRgba32F(buffer) => spec_encode_result(buffer, result),
    }
}

/// The kind of image that stands for a matrix of the given depth and
/// channel count, for the five pairs that have one.
pub open spec fn spec_dispatch(depth: Depth, channels: i32) -> Option<ColorType> {
    if depth == Depth::U8 && channels == 1 {
        Some(ColorType::L8)
    } else if depth == Depth::U16 && channels == 1 {
        Some(ColorType::L16)
    } else if depth == Depth::U8 && channels == 3 {
        Some(ColorType::Rgb8)
    } else if depth == Depth::U16 && channels == 3 {
        Some(ColorType::Rgb16)
    } else if depth == Depth::F32 && channels == 3 {
        Some(ColorType::Rgb32F)
    } else {
        None
    }
}

/// `image` stands for `mat`: the typed buffer that it holds does.
pub open spec fn spec_decodes_dynamic(mat: &Mat, image: &DynamicImage) -> bool {
    match image {
        DynamicImage::ImageLuma8(buffer) => spec_decodes(mat, buffer),
        DynamicImage::ImageLuma16(buffer) => spec_decodes(mat, buffer),
        DynamicImage::ImageRgb8(buffer) => spec_decodes(mat, buffer),
        DynamicImage::ImageRgb16(buffer) => spec_decodes(mat, buffer),
        DynamicImage::ImageRgb32F(buffer) => spec_decodes(mat, buffer),
        _ => false,
    }
}

/// What converting `mat` into the image that fits it best gives: the image
/// of the kind that the depth and the channel count select, or the reason
/// why there is none.
pub open spec fn spec_decode_dynamic_result(
    mat: &Mat,
    result: Result<DynamicImage, Error>,
) -> bool {
    match result {
        Ok(image) => mat.spec_rows() != -1 && mat.spec_cols() != -1 && spec_dispatch(
            mat.spec_depth(),
            mat.spec_channels(),
        ) == Some(image.spec_color()) && spec_decodes_dynamic(mat, &image),
        Err(e) => if mat.spec_rows() == -1 || mat.spec_cols() == -1 {
            e == Error::UnsupportedDimensions
        } else {
            spec_dispatch(mat.spec_depth(), mat.spec_channels()) is None && e
                == (Error::UnsupportedType {
                depth: mat.spec_depth(),
                channels: mat.spec_channels(),
            })
        },
    }
}

/// Selects the kind of image for a matrix of the given depth and channel
/// count.
#[verifier::when_used_as_spec(spec_dispatch)]
pub fn dispatch(depth: Depth, channels: i32) -> (color: Option<ColorType>)
    ensures
        color == spec_dispatch(depth, channels),
{
    match (depth, channels) {
        (Depth::U8, 1) => Some(ColorType::L8),
        (Depth::U16, 1) => Some(ColorType::L16),
        (Depth::U8, 3) => Some(ColorType::Rgb8),
        (Depth::U16, 3) => Some(ColorType::Rgb16),
        (Depth::F32, 3) => Some(ColorType::Rgb32F),
        _ => None,
    }
}

/// Builds the matrix that stands for `image`, by one copy of the whole
/// backing store into a matrix made for it. It fails only where a side of
/// the image is too long to be a matrix dimension.
pub fn encode<P: Pixel, T: OpenCvElement>(image: &ImageBuffer<P, T>) -> (result: Result<Mat, Error>)
    ensures
        spec_encode_result(image, result),
{
    let (width, height) = image.dimensions();
    if width > i32::MAX as u32 || height > i32::MAX as u32 {
        return Err(Error::Allocation);
    }
    let channels: u8 = P::channel_count();
    proof {
        use_type_invariant(image);
        P::lemma_channel_count_bounds();
        assert(width * height * channels == height * (width * channels)) by (nonlinear_arith);
    }
    let data = slice_to_vec(image.as_raw().as_slice());
    let mat = Mat::from_vec::<T>(height as i32, width as i32, channels as i32, data).unwrap();
    Ok(mat)
}

/// Builds the matrix that stands for the typed buffer that `image` holds.
pub fn encode_dynamic(image: &DynamicImage) -> (result: Result<Mat, Error>)
    ensures
        spec_encode_dynamic_result(image, result),
{
    match image {
        DynamicImage::ImageLuma8(buffer) => encode(buffer),
        DynamicImage::ImageLumaA8(buffer) => encode(buffer),
        DynamicImage::ImageRgb8(buffer) => encode(buffer),
        DynamicImage::ImageRgba8(buffer) => encode(buffer),
        DynamicImage::ImageLuma16(buffer) => encode(buffer),
        DynamicImage::ImageLumaA16(buffer) => encode(buffer),
        DynamicImage::ImageRgb16(buffer) => encode(buffer),
        DynamicImage::ImageRgba16(buffer) => encode(buffer),
        DynamicImage::ImageRgb32F(buffer) => encode(buffer),
        DynamicImage::ImageRgba32F(buffer) => encode(buffer),
    }
}

/// Builds the image of kind `P` over `T` that stands for `mat`, once its
/// dimensions, its channel count and its element type are found to fit, in
/// this order. Nothing is read from the matrix before all three fit.
pub fn decode<P: Pixel, T: OpenCvElement>(mat: &Mat) -> (result: Result<ImageBuffer<P, T>, Error>)
    ensures
        spec_decode_result::<P, T>(mat, result),
{
    let rows: i32 = mat.rows();
    let cols: i32 = mat.cols();
    proof {
        use_type_invariant(mat);
        P::lemma_channel_count_bounds();
    }
    if rows == -1 || cols == -1 {
        return Err(Error::UnsupportedDimensions);
    }
    let depth = mat.depth();
    let n_channels: i32 = mat.channels();
    let width: u32 = cols as u32;
    let height: u32 = rows as u32;

    let expected_channels: i32 = P::channel_count() as i32;
    if n_channels != expected_channels {
        return Err(Error::ChannelMismatch { expected_channels, actual_channels: n_channels });
    }
    if !is_depth_of::<T>(depth) {
        return Err(Error::DepthMismatch { expected_depth: T::depth(), actual_depth: depth });
    }
    let image = mat_to_image_buffer::<P, T>(mat, width, height);
    Ok(image)
}

/// Builds the image that fits `mat` best: the kind that its depth and
/// channel count select. Nothing is read from a matrix of more than two
/// dimensions or of a depth and channel count that select no kind.
pub fn decode_dynamic(mat: &Mat) -> (result: Result<DynamicImage, Error>)
    ensures
        spec_decode_dynamic_result(mat, result),
{
    let rows: i32 = mat.rows();
    let cols: i32 = mat.cols();
    proof {
        use_type_invariant(mat);
    }
    if rows == -1 || cols == -1 {
        return Err(Error::UnsupportedDimensions);
    }
    let depth = mat.depth();
    let n_channels: i32 = mat.channels();
    let width: u32 = cols as u32;
    let height: u32 = rows as u32;

    let image = match dispatch(depth, n_channels) {
        Some(ColorType::L8) => DynamicImage::ImageLuma8(
            mat_to_image_buffer_gray::<u8>(mat, width, height),
        ),
        Some(ColorType::L16) => DynamicImage::ImageLuma16(
            mat_to_image_buffer_gray::<u16>(mat, width, height),
        ),
        Some(ColorType::Rgb8) => DynamicImage::ImageRgb8(
            mat_to_image_buffer_rgb::<u8>(mat, width, height),
        ),
        Some(ColorType::Rgb16) => DynamicImage::ImageRgb16(
            mat_to_image_buffer_rgb::<u16>(mat, width, height),
        ),
        Some(ColorType::Rgb32F) => DynamicImage::ImageRgb32F(
            mat_to_image_buffer_rgb::<Float32>(mat, width, height),
        ),
        _ => {
            return Err(Error::UnsupportedType { depth, channels: n_channels });
        },
    };
    Ok(image)
}

impl<P: Pixel, T: OpenCvElement> TryToCv<Mat> for ImageBuffer<P, T> {
    type Error = Error;

    fn try_to_cv(&self) -> (result: Result<Mat, Error>)
        ensures
            spec_encode_result(self, result),
    {
        encode(self)
    }
}

impl TryToCv<Mat> for DynamicImage {
    type Error = Error;

    fn try_to_cv(&self) -> (result: Result<Mat, Error>)
        ensures
            spec_encode_dynamic_result(self, result),
    {
        encode_dynamic(self)
    }
}

impl TryToCv<DynamicImage> for Mat {
    type Error = Error;

    fn try_to_cv(&self) -> (result: Result<DynamicImage, Error>)
        ensures
            spec_decode_dynamic_result(self, result),
    {
        decode_dynamic(self)
    }
}

impl<P: Pixel, T: OpenCvElement> TryToCv<ImageBuffer<P, T>> for Mat {
    type Error = Error;

    fn try_to_cv(&self) -> (result: Result<ImageBuffer<P, T>, Error>)
        ensures
            spec_decode_result::<P, T>(self, result),
    {
        decode::<P, T>(self)
    }
}

} // verus!
