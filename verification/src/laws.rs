//! What holds of the conversions taken together.

use vstd::prelude::*;
use vstd::arithmetic::div_mod::{lemma_div_pos_is_pos, lemma_fundamental_div_mod, lemma_mod_bound};
use crate::element::OpenCvElement;
use crate::error::Error;
use crate::image_buffer::{DynamicImage, ImageBuffer};
use crate::mat::Mat;
use crate::pixel::Pixel;
use crate::convert::{
    spec_decode_dynamic_result,
    spec_decode_result,
    spec_decodes,
    spec_dispatch,
    spec_encode_result,
    spec_encodes,
};

verus! {

/// An image whose sides are short enough for a matrix comes back unchanged
/// from the matrix made of it: the conversion into a matrix succeeds, the
/// conversion back succeeds, and the image that comes back has the size and
/// the backing store of the first.
pub proof fn lemma_image_round_trip<P: Pixel, T: OpenCvElement>(
    image: &ImageBuffer<P, T>,
    encoded: Result<Mat, Error>,
    decoded: Result<ImageBuffer<P, T>, Error>,
)
    requires
        image.inv(),
        image.spec_width() <= i32::MAX,
        image.spec_height() <= i32::MAX,
        spec_encode_result(image, encoded),
        encoded matches Ok(mat) ==> mat.inv() && spec_decode_result::<P, T>(&mat, decoded),
    ensures
        encoded is Ok,
        decoded matches Ok(back) && back.spec_width() == image.spec_width() && back.spec_height()
            == image.spec_height() && back@ == image@,
{
    let mat = encoded->Ok_0;
    P::lemma_channel_count_bounds();
    mat.lemma_continuous_pixels::<T>();
}

/// A matrix and the image made of it hold the same element at the same
/// place: channel `c` of the pixel in column `x` of row `y` of the image is
/// channel `c` of the element in row `y` and column `x` of the matrix.
pub proof fn lemma_decoded_pixels<P: Pixel, T: OpenCvElement>(
    mat: &Mat,
    image: &ImageBuffer<P, T>,
    x: int,
    y: int,
    c: int,
)
    requires
        mat.inv(),
        mat.spec_dims() == 2,
        mat.spec_channels() == P::spec_channel_count(),
        spec_decodes(mat, image),
        0 <= x < image.spec_width(),
        0 <= y < image.spec_height(),
        0 <= c < P::spec_channel_count(),
    ensures
        image.spec_get(x, y, c) == mat.spec_at::<T>(y, x, c),
{
    mat.lemma_pixels_at::<T>(y, x, c);
    let channels = mat.spec_channels() as int;
    let cols = mat.spec_cols() as int;
    assert((y * cols + x) * channels == y * (cols * channels) + x * channels)
        by (nonlinear_arith);
}

/// An image and the matrix made of it hold the same element at the same
/// place.
pub proof fn lemma_encoded_pixels<P: Pixel, T: OpenCvElement>(
    image: &ImageBuffer<P, T>,
    mat: &Mat,
    x: int,
    y: int,
    c: int,
)
    requires
        spec_encodes(image, mat),
        0 <= x < image.spec_width(),
        0 <= y < image.spec_height(),
        0 <= c < P::spec_channel_count(),
    ensures
        mat.spec_at::<T>(y, x, c) == image.spec_get(x, y, c),
{
    let channels = mat.spec_channels() as int;
    let cols = mat.spec_cols() as int;
    assert((y * cols + x) * channels == y * (cols * channels) + x * channels)
        by (nonlinear_arith);
}

/// A matrix comes back from the image made of it with its content
/// unchanged and its rows back to back: the matrix that comes back has the
/// size, the channel count, the element type and the content of the first.
pub proof fn lemma_mat_round_trip<P: Pixel, T: OpenCvElement>(
    mat: &Mat,
    decoded: Result<ImageBuffer<P, T>, Error>,
    encoded: Result<Mat, Error>,
)
    requires
        mat.inv(),
        spec_decode_result::<P, T>(mat, decoded),
        decoded matches Ok(image) ==> spec_encode_result(&image, encoded),
        decoded is Ok,
    ensures
        encoded matches Ok(back) && back.spec_is_continuous() && back.spec_rows()
            == mat.spec_rows() && back.spec_cols() == mat.spec_cols() && back.spec_channels()
            == mat.spec_channels() && back.spec_depth() == mat.spec_depth()
            && back.spec_elements::<T>() == mat.spec_pixels::<T>(),
{
}

/// Reading a matrix in one run and reading it position by position agree
/// wherever the first is possible: when the rows lie back to back, the
/// element store and the content are the same sequence.
pub proof fn lemma_fast_path_is_fallback<T: OpenCvElement>(mat: &Mat)
    requires
        mat.inv(),
        mat.spec_is_continuous(),
        mat.spec_depth() == T::spec_depth(),
    ensures
        mat.spec_elements::<T>() == mat.spec_pixels::<T>(),
{
    mat.lemma_continuous_pixels::<T>();
}

/// The content of a matrix does not depend on how far apart its rows lie:
/// two matrices of the same size that hold the same element at every
/// position have the same content.
pub proof fn lemma_content_is_layout_independent<T: OpenCvElement>(a: &Mat, b: &Mat)
    requires
        a.inv(),
        b.inv(),
        a.spec_dims() == 2,
        b.spec_dims() == 2,
        a.spec_rows() == b.spec_rows(),
        a.spec_cols() == b.spec_cols(),
        a.spec_channels() == b.spec_channels(),
        forall|row: int, col: int, ch: int|
            0 <= row < a.spec_rows() && 0 <= col < a.spec_cols() && 0 <= ch < a.spec_channels()
                ==> #[trigger] a.spec_at::<T>(row, col, ch) == b.spec_at::<T>(row, col, ch),
    ensures
        a.spec_pixels::<T>() == b.spec_pixels::<T>(),
{
    let channels = a.spec_channels() as int;
    let cols = a.spec_cols() as int;
    let rows = a.spec_rows() as int;
    let row_len = a.spec_row_len();
    assert forall|i: int| 0 <= i < a.spec_total() implies a.spec_pixels::<T>()[i]
        == b.spec_pixels::<T>()[i] by {
        assert(row_len > 0) by (nonlinear_arith)
            requires
                0 <= i < rows * row_len,
                0 <= rows,
                row_len == cols * channels,
                0 <= cols,
                1 <= channels,
        ;
        let row = i / row_len;
        let rest = i % row_len;
        let col = rest / channels;
        let ch = rest % channels;
        lemma_fundamental_div_mod(i, row_len);
        lemma_mod_bound(i, row_len);
        lemma_div_pos_is_pos(i, row_len);
        lemma_fundamental_div_mod(rest, channels);
        lemma_mod_bound(rest, channels);
        lemma_div_pos_is_pos(rest, channels);
        assert(row < rows) by (nonlinear_arith)
            requires
                i == row_len * row + rest,
                0 <= rest,
                i < rows * row_len,
                0 < row_len,
        ;
        assert(col < cols) by (nonlinear_arith)
            requires
                rest == channels * col + ch,
                0 <= ch,
                rest < cols * channels,
                0 < channels,
        ;
        assert(i == row * row_len + col * channels + ch) by (nonlinear_arith)
            requires
                i == row_len * row + rest,
                rest == channels * col + ch,
        ;
        a.lemma_pixels_at::<T>(row, col, ch);
        b.lemma_pixels_at::<T>(row, col, ch);
    }
    assert(a.spec_pixels::<T>() =~= b.spec_pixels::<T>());
}

/// Converting a matrix into an image does not depend on how far apart its
/// rows lie: two matrices of the same size, channel count and element type
/// that hold the same element at every position are refused for the same
/// reason or become images of the same size with the same backing store.
pub proof fn lemma_decode_is_layout_independent<P: Pixel, T: OpenCvElement>(
    a: &Mat,
    b: &Mat,
    from_a: Result<ImageBuffer<P, T>, Error>,
    from_b: Result<ImageBuffer<P, T>, Error>,
)
    requires
        a.inv(),
        b.inv(),
        a.spec_dims() == 2,
        b.spec_dims() == 2,
        a.spec_rows() == b.spec_rows(),
        a.spec_cols() == b.spec_cols(),
        a.spec_channels() == b.spec_channels(),
        a.spec_depth() == b.spec_depth(),
        forall|row: int, col: int, ch: int|
            0 <= row < a.spec_rows() && 0 <= col < a.spec_cols() && 0 <= ch < a.spec_channels()
                ==> #[trigger] a.spec_at::<T>(row, col, ch) == b.spec_at::<T>(row, col, ch),
        spec_decode_result::<P, T>(a, from_a),
        spec_decode_result::<P, T>(b, from_b),
    ensures
        match (from_a, from_b) {
            (Ok(image_a), Ok(image_b)) => image_a.spec_width() == image_b.spec_width()
                && image_a.spec_height() == image_b.spec_height() && image_a@ == image_b@,
            (Err(error_a), Err(error_b)) => error_a == error_b,
            _ => false,
        },
{
    lemma_content_is_layout_independent::<T>(a, b);
}

/// The choice of an image for a matrix is total and exact: a matrix of two
/// dimensions becomes an image exactly when its depth and channel count are
/// one of the five pairs, the image is then of the kind that the pair
/// selects, and every other matrix of two dimensions is refused as of an
/// unsupported type.
pub proof fn lemma_dispatch_total(mat: &Mat, result: Result<DynamicImage, Error>)
    requires
        mat.inv(),
        mat.spec_dims() == 2,
        spec_decode_dynamic_result(mat, result),
    ensures
        result is Ok <==> spec_dispatch(mat.spec_depth(), mat.spec_channels()) is Some,
        result matches Ok(image) ==> Some(image.spec_color()) == spec_dispatch(
            mat.spec_depth(),
            mat.spec_channels(),
        ),
        result matches Err(e) ==> e == (Error::UnsupportedType {
            depth: mat.spec_depth(),
            channels: mat.spec_channels(),
        }),
{
}

/// A matrix of more than two dimensions is refused for its dimensions by
/// both conversions into an image, whatever its depth and channel count.
pub proof fn lemma_more_dimensions_refused<P: Pixel, T: OpenCvElement>(
    mat: &Mat,
    typed: Result<ImageBuffer<P, T>, Error>,
    dynamic: Result<DynamicImage, Error>,
)
    requires
        mat.inv(),
        mat.spec_dims() > 2,
        spec_decode_result::<P, T>(mat, typed),
        spec_decode_dynamic_result(mat, dynamic),
    ensures
        typed == Err::<ImageBuffer<P, T>, Error>(Error::UnsupportedDimensions),
        dynamic == Err::<DynamicImage, Error>(Error::UnsupportedDimensions),
{
}

} // verus!
