//! Statically typed image buffers: a rectangle of pixels of one kind over one
//! element type, stored row by row with the channels of a pixel side by side.

use vstd::prelude::*;
use vstd::slice::slice_to_vec;
use core::marker::PhantomData;
use crate::element::Float32;
use crate::pixel::{Luma, LumaA, Pixel, Rgb, Rgba};

verus! {

/// An image of `width` by `height` pixels of kind `P` over elements of type
/// `T`, backed by exactly `width * height * channels` elements.
#[derive(Debug, PartialEq, Eq)]
pub struct ImageBuffer<P: Pixel, T: Copy> {
    width: u32,
    height: u32,
    data: Vec<T>,
    kind: PhantomData<P>,
}

impl<P: Pixel, T: Copy> View for ImageBuffer<P, T> {
    type V = Seq<T>;

    /// The backing store: rows from top to bottom, pixels from left to right,
    /// the channels of each pixel in order.
    closed spec fn view(&self) -> Seq<T> {
        self.data@
    }
}

/// The number of elements behind an image of the given size.
pub open spec fn spec_buffer_len(width: u32, height: u32, channels: u8) -> int {
    width * height * channels
}

/// Where channel `c` of the pixel in column `x` of row `y` lies in the
/// backing store of an image `width` pixels wide.
pub open spec fn spec_pixel_index(width: int, channels: int, x: int, y: int, c: int) -> int {
    (y * width + x) * channels + c
}

/// A pixel position inside the image has its place inside the backing store.
pub proof fn lemma_pixel_index_in_range(
    width: int,
    height: int,
    channels: int,
    x: int,
    y: int,
    c: int,
)
    requires
        0 <= x < width,
        0 <= y < height,
        0 <= c < channels,
    ensures
        0 <= spec_pixel_index(width, channels, x, y, c) < width * height * channels,
{
    assert(0 <= y * width + x < width * height) by (nonlinear_arith)
        requires
            0 <= x < width,
            0 <= y < height,
    ;
    assert(0 <= (y * width + x) * channels + c < width * height * channels) by (nonlinear_arith)
        requires
            0 <= y * width + x < width * height,
            0 <= c < channels,
    ;
}

impl<P: Pixel, T: Copy> Clone for ImageBuffer<P, T> {
    fn clone(&self) -> (copy: Self)
        ensures
            copy.spec_width() == self.spec_width(),
            copy.spec_height() == self.spec_height(),
            copy@ == self@,
    {
        proof {
            use_type_invariant(self);
        }
        ImageBuffer {
            width: self.width,
            height: self.height,
            data: slice_to_vec(self.data.as_slice()),
            kind: PhantomData,
        }
    }
}

impl<P: Pixel, T: Copy> ImageBuffer<P, T> {
    pub closed spec fn spec_width(&self) -> u32 {
        self.width
    }

    pub closed spec fn spec_height(&self) -> u32 {
        self.height
    }

    /// The backing store holds one element for each channel of each pixel.
    #[verifier::type_invariant]
    pub open spec fn inv(&self) -> bool {
        self@.len() == spec_buffer_len(
            self.spec_width(),
            self.spec_height(),
            P::spec_channel_count(),
        )
    }

    /// Channel `c` of the pixel in column `x` of row `y`.
    pub open spec fn spec_get(&self, x: int, y: int, c: int) -> T {
        self@[spec_pixel_index(self.spec_width() as int, P::spec_channel_count() as int, x, y, c)]
    }

    /// Builds an image from its backing store. The store must hold exactly
    /// one element for each channel of each pixel.
    pub fn from_vec(width: u32, height: u32, data: Vec<T>) -> (image: Option<Self>)
        ensures
            image is Some <==> data@.len() == spec_buffer_len(
                width,
                height,
                P::spec_channel_count(),
            ),
            image matches Some(img) ==> img.spec_width() == width && img.spec_height() == height
                && img@ == data@,
    {
        let channels: u8 = P::channel_count();
        proof {
            P::lemma_channel_count_bounds();
            assert(width * height * channels <= 0xffff_ffff * 0xffff_ffff * 4) by (nonlinear_arith)
                requires
                    0 <= width <= 0xffff_ffff,
                    0 <= height <= 0xffff_ffff,
                    0 <= channels <= 4,
            ;
            assert(width * height <= 0xffff_ffff * 0xffff_ffff) by (nonlinear_arith)
                requires
                    0 <= width <= 0xffff_ffff,
                    0 <= height <= 0xffff_ffff,
            ;
        }
        let expected: u128 = (width as u128) * (height as u128) * (channels as u128);
        if data.len() as u128 == expected {
            Some(ImageBuffer { width, height, data, kind: PhantomData })
        } else {
            None
        }
    }

    #[verifier::when_used_as_spec(spec_width)]
    pub fn width(&self) -> (width: u32)
        ensures
            width == self.spec_width(),
    {
        self.width
    }

    #[verifier::when_used_as_spec(spec_height)]
    pub fn height(&self) -> (height: u32)
        ensures
            height == self.spec_height(),
    {
        self.height
    }

    /// The width and the height, in this order.
    pub fn dimensions(&self) -> (dims: (u32, u32))
        ensures
            dims == (self.spec_width(), self.spec_height()),
    {
        (self.width, self.height)
    }

    /// The backing store.
    pub fn as_raw(&self) -> (data: &Vec<T>)
        ensures
            data@ == self@,
    {
        &self.data
    }

    /// Gives up the image for its backing store.
    pub fn into_raw(self) -> (data: Vec<T>)
        ensures
            data@ == self@,
    {
        self.data
    }

    /// Channel `c` of the pixel in column `x` of row `y`, or `None` outside
    /// the image.
    pub fn get(&self, x: u32, y: u32, c: u8) -> (value: Option<T>)
        ensures
            value == if x < self.spec_width() && y < self.spec_height()
                && c < P::spec_channel_count() {
                Some(self.spec_get(x as int, y as int, c as int))
            } else {
                None
            },
    {
        let channels: u8 = P::channel_count();
        if x < self.width && y < self.height && c < channels {
            proof {
                use_type_invariant(self);
                P::lemma_channel_count_bounds();
                let w: int = self.width as int;
                let h: int = self.height as int;
                let n: int = channels as int;
                lemma_pixel_index_in_range(w, h, n, x as int, y as int, c as int);
                assert(0 <= y * w <= y * w + x < w * h <= w * h * n) by (nonlinear_arith)
                    requires
                        0 <= x < w,
                        0 <= y < h,
                        1 <= n,
                ;
                assert(w * h * n == self.data.len());
            }
            let row_start: usize = (y as usize) * (self.width as usize);
            let pixel: usize = row_start + (x as usize);
            let index: usize = pixel * (channels as usize) + (c as usize);
            Some(self.data[index])
        } else {
            None
        }
    }
}

/// An 8-bit grayscale image.
pub type GrayImage = ImageBuffer<Luma, u8>;

/// An 8-bit red, green, blue image.
pub type RgbImage = ImageBuffer<Rgb, u8>;

/// The pixel kind and element type of an image whose type is known only at
/// run time.
#[derive(Debug, Clone, Copy, PartialEq, Eq, Structural)]
pub enum ColorType {
    L8,
    La8,
    Rgb8,
    Rgba8,
    L16,
    La16,
    Rgb16,
    Rgba16,
    Rgb32F,
    Rgba32F,
}

/// An image whose pixel kind and element type are known only at run time:
/// one of ten typed buffers.
#[derive(Debug, PartialEq, Eq)]
pub enum DynamicImage {
    ImageLuma8(ImageBuffer<Luma, u8>),
    ImageLumaA8(ImageBuffer<LumaA, u8>),
    ImageRgb8(ImageBuffer<Rgb, u8>),
    ImageRgba8(ImageBuffer<Rgba, u8>),
    ImageLuma16(ImageBuffer<Luma, u16>),
    ImageLumaA16(ImageBuffer<LumaA, u16>),
    ImageRgb16(ImageBuffer<Rgb, u16>),
    ImageRgba16(ImageBuffer<Rgba, u16>),
    ImageRgb32F(ImageBuffer<Rgb, Float32>),
    ImageRgba32F(ImageBuffer<Rgba, Float32>),
}

impl DynamicImage {
    pub open spec fn spec_color(&self) -> ColorType {
        match self {
            DynamicImage::ImageLuma8(_) => ColorType::L8,
            DynamicImage::ImageLumaA8(_) => ColorType::La8,
            DynamicImage::ImageRgb8(_) => ColorType::Rgb8,
            DynamicImage::ImageRgba8(_) => ColorType::Rgba8,
            DynamicImage::ImageLuma16(_) => ColorType::L16,
            DynamicImage::ImageLumaA16(_) => ColorType::La16,
            DynamicImage::ImageRgb16(_) => ColorType::Rgb16,
            DynamicImage::ImageRgba16(_) => ColorType::Rgba16,
            DynamicImage::ImageRgb32F(_) => ColorType::Rgb32F,
            DynamicImage::ImageRgba32F(_) => ColorType::Rgba32F,
        }
    }

    pub open spec fn spec_width(&self) -> u32 {
        match self {
            DynamicImage::ImageLuma8(image) => image.spec_width(),
            DynamicImage::ImageLumaA8(image) => image.spec_width(),
            DynamicImage::ImageRgb8(image) => image.spec_width(),
            DynamicImage::ImageRgba8(image) => image.spec_width(),
            DynamicImage::ImageLuma16(image) => image.spec_width(),
            DynamicImage::ImageLumaA16(image) => image.spec_width(),
            DynamicImage::ImageRgb16(image) => image.spec_width(),
            DynamicImage::ImageRgba16(image) => image.spec_width(),
            DynamicImage::ImageRgb32F(image) => image.spec_width(),
            DynamicImage::ImageRgba32F(image) => image.spec_width(),
        }
    }

    pub open spec fn spec_height(&self) -> u32 {
        match self {
            DynamicImage::ImageLuma8(image) => image.spec_height(),
            DynamicImage::ImageLumaA8(image) => image.spec_height(),
            DynamicImage::ImageRgb8(image) => image.spec_height(),
            DynamicImage::ImageRgba8(image) => image.spec_height(),
            DynamicImage::ImageLuma16(image) => image.spec_height(),
            DynamicImage::ImageLumaA16(image) => image.spec_height(),
            DynamicImage::ImageRgb16(image) => image.spec_height(),
            DynamicImage::ImageRgba16(image) => image.spec_height(),
            DynamicImage::ImageRgb32F(image) => image.spec_height(),
            DynamicImage::ImageRgba32F(image) => image.spec_height(),
        }
    }

    /// Which of the ten typed buffers this image holds.
    #[verifier::when_used_as_spec(spec_color)]
    pub fn color(&self) -> (color: ColorType)
        ensures
            color == self.spec_color(),
    {
        match self {
            DynamicImage::ImageLuma8(_) => ColorType::L8,
            DynamicImage::ImageLumaA8(_) => ColorType::La8,
            DynamicImage::ImageRgb8(_) => ColorType::Rgb8,
            DynamicImage::ImageRgba8(_) => ColorType::Rgba8,
            DynamicImage::ImageLuma16(_) => ColorType::L16,
            DynamicImage::ImageLumaA16(_) => ColorType::La16,
            DynamicImage::ImageRgb16(_) => ColorType::Rgb16,
            DynamicImage::ImageRgba16(_) => ColorType::Rgba16,
            DynamicImage::ImageRgb32F(_) => ColorType::Rgb32F,
            DynamicImage::ImageRgba32F(_) => ColorType::Rgba32F,
        }
    }

    #[verifier::when_used_as_spec(spec_width)]
    pub fn width(&self) -> (width: u32)
        ensures
            width == self.spec_width(),
    {
        match self {
            DynamicImage::ImageLuma8(image) => image.width(),
            DynamicImage::ImageLumaA8(image) => image.width(),
            DynamicImage::ImageRgb8(image) => image.width(),
            DynamicImage::ImageRgba8(image) => image.width(),
            DynamicImage::ImageLuma16(image) => image.width(),
            DynamicImage::ImageLumaA16(image) => image.width(),
            DynamicImage::ImageRgb16(image) => image.width(),
            DynamicImage::ImageRgba16(image) => image.width(),
            DynamicImage::ImageRgb32F(image) => image.width(),
            DynamicImage::ImageRgba32F(image) => image.width(),
        }
    }

    #[verifier::when_used_as_spec(spec_height)]
    pub fn height(&self) -> (height: u32)
        ensures
            height == self.spec_height(),
    {
        match self {
            DynamicImage::ImageLuma8(image) => image.height(),
            DynamicImage::ImageLumaA8(image) => image.height(),
            DynamicImage::ImageRgb8(image) => image.height(),
            DynamicImage::ImageRgba8(image) => image.height(),
            DynamicImage::ImageLuma16(image) => image.height(),
            DynamicImage::ImageLumaA16(image) => image.height(),
            DynamicImage::ImageRgb16(image) => image.height(),
            DynamicImage::ImageRgba16(image) => image.height(),
            DynamicImage::ImageRgb32F(image) => image.height(),
            DynamicImage::ImageRgba32F(image) => image.height(),
        }
    }
}

} // verus!
