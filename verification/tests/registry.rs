use cv_convert::element::{
    is_depth_of, Depth, Elements, Float32, Float64, OpenCvElement, CV_16S, CV_16U, CV_32F, CV_32S,
    CV_64F, CV_8S, CV_8U,
};
use cv_convert::image_buffer::{GrayImage, ImageBuffer, RgbImage};
use cv_convert::mat::Mat;
use cv_convert::pixel::{Luma, LumaA, Pixel, Rgb, Rgba};

#[test]
fn depth_tags_are_those_of_the_matrix_library() {
    assert_eq!((CV_8U, CV_8S, CV_16U, CV_16S, CV_32S, CV_32F, CV_64F), (0, 1, 2, 3, 4, 5, 6));
    assert_eq!(Depth::U8.tag(), 0);
    assert_eq!(Depth::S8.tag(), 1);
    assert_eq!(Depth::U16.tag(), 2);
    assert_eq!(Depth::S16.tag(), 3);
    assert_eq!(Depth::S32.tag(), 4);
    assert_eq!(Depth::F32.tag(), 5);
    assert_eq!(Depth::F64.tag(), 6);
}

#[test]
fn depth_is_found_again_from_its_tag() {
    for depth in [Depth::U8, Depth::S8, Depth::U16, Depth::S16, Depth::S32, Depth::F32, Depth::F64]
    {
        assert_eq!(Depth::from_tag(depth.tag()), Some(depth));
    }
    assert_eq!(Depth::from_tag(-1), None);
    assert_eq!(Depth::from_tag(7), None);
    assert_eq!(Depth::from_tag(i32::MAX), None);
    assert_eq!(Depth::from_tag(i32::MIN), None);
}

#[test]
fn byte_width_is_the_size_of_the_element_type() {
    assert_eq!(Depth::U8.byte_width(), 1);
    assert_eq!(Depth::S8.byte_width(), 1);
    assert_eq!(Depth::U16.byte_width(), 2);
    assert_eq!(Depth::S16.byte_width(), 2);
    assert_eq!(Depth::S32.byte_width(), 4);
    assert_eq!(Depth::F32.byte_width(), 4);
    assert_eq!(Depth::F64.byte_width(), 8);
    assert_eq!(<u8 as OpenCvElement>::depth().byte_width(), std::mem::size_of::<u8>());
    assert_eq!(<i8 as OpenCvElement>::depth().byte_width(), std::mem::size_of::<i8>());
    assert_eq!(<u16 as OpenCvElement>::depth().byte_width(), std::mem::size_of::<u16>());
    assert_eq!(<i16 as OpenCvElement>::depth().byte_width(), std::mem::size_of::<i16>());
    assert_eq!(<i32 as OpenCvElement>::depth().byte_width(), std::mem::size_of::<i32>());
    assert_eq!(<Float32 as OpenCvElement>::depth().byte_width(), std::mem::size_of::<f32>());
    assert_eq!(<Float64 as OpenCvElement>::depth().byte_width(), std::mem::size_of::<f64>());
}

#[test]
fn each_element_type_has_its_own_depth() {
    assert_eq!(<u8 as OpenCvElement>::depth(), Depth::U8);
    assert_eq!(<i8 as OpenCvElement>::depth(), Depth::S8);
    assert_eq!(<u16 as OpenCvElement>::depth(), Depth::U16);
    assert_eq!(<i16 as OpenCvElement>::depth(), Depth::S16);
    assert_eq!(<i32 as OpenCvElement>::depth(), Depth::S32);
    assert_eq!(<Float32 as OpenCvElement>::depth(), Depth::F32);
    assert_eq!(<Float64 as OpenCvElement>::depth(), Depth::F64);
    assert!(is_depth_of::<u8>(Depth::U8));
    assert!(!is_depth_of::<u8>(Depth::S8));
    assert!(!is_depth_of::<u16>(Depth::S16));
    assert!(is_depth_of::<Float32>(Depth::F32));
    assert!(!is_depth_of::<Float32>(Depth::F64));
    assert!(!is_depth_of::<i32>(Depth::F32));
}

#[test]
fn element_store_is_typed_by_its_own_depth_only() {
    let store = <u16 as OpenCvElement>::into_elements(vec![1, 2, 3]);
    assert_eq!(store, Elements::U16(vec![1, 2, 3]));
    assert_eq!(store.depth(), Depth::U16);
    assert_eq!(store.len(), 3);
    assert_eq!(<u16 as OpenCvElement>::typed(&store), Some(&vec![1u16, 2, 3]));
    assert_eq!(<i16 as OpenCvElement>::typed(&store), None);
    assert_eq!(<u8 as OpenCvElement>::typed(&store), None);
    assert_eq!(<Float32 as OpenCvElement>::typed(&store), None);

    let store = <Float64 as OpenCvElement>::into_elements(vec![Float64::from_bits(9)]);
    assert_eq!(store.depth(), Depth::F64);
    assert_eq!(<Float64 as OpenCvElement>::typed(&store).unwrap()[0].to_bits(), 9);
    assert_eq!(<i32 as OpenCvElement>::typed(&store), None);

    let store = <i8 as OpenCvElement>::into_elements(vec![-1]);
    assert_eq!(<i8 as OpenCvElement>::typed(&store), Some(&vec![-1i8]));
    let store = <i16 as OpenCvElement>::into_elements(vec![-2]);
    assert_eq!(<i16 as OpenCvElement>::typed(&store), Some(&vec![-2i16]));
    let store = <i32 as OpenCvElement>::into_elements(vec![-3]);
    assert_eq!(<i32 as OpenCvElement>::typed(&store), Some(&vec![-3i32]));
    let store = <u8 as OpenCvElement>::into_elements(vec![4]);
    assert_eq!(<u8 as OpenCvElement>::typed(&store), Some(&vec![4u8]));
    let store = <Float32 as OpenCvElement>::into_elements(vec![Float32::from_bits(5)]);
    assert_eq!(<Float32 as OpenCvElement>::typed(&store).unwrap()[0].to_bits(), 5);
    assert_eq!(store.clone(), store);
}

#[test]
fn pixel_kinds_have_one_to_four_channels() {
    assert_eq!(Luma::channel_count(), 1);
    assert_eq!(LumaA::channel_count(), 2);
    assert_eq!(Rgb::channel_count(), 3);
    assert_eq!(Rgba::channel_count(), 4);
}

#[test]
fn image_needs_exactly_one_element_for_each_channel_of_each_pixel() {
    assert!(GrayImage::from_vec(3, 2, vec![0; 6]).is_some());
    assert!(GrayImage::from_vec(3, 2, vec![0; 5]).is_none());
    assert!(GrayImage::from_vec(3, 2, vec![0; 7]).is_none());
    assert!(RgbImage::from_vec(3, 2, vec![0; 18]).is_some());
    assert!(RgbImage::from_vec(3, 2, vec![0; 6]).is_none());
    assert!(ImageBuffer::<LumaA, u16>::from_vec(3, 2, vec![0; 12]).is_some());
    assert!(ImageBuffer::<Rgba, u16>::from_vec(3, 2, vec![0; 24]).is_some());
    assert!(ImageBuffer::<Rgba, u16>::from_vec(3, 2, vec![0; 23]).is_none());
    assert!(GrayImage::from_vec(0, 0, Vec::new()).is_some());
    assert!(GrayImage::from_vec(u32::MAX, u32::MAX, Vec::new()).is_none());
    assert!(RgbImage::from_vec(u32::MAX, 0, Vec::new()).is_some());
}

#[test]
fn image_clone_is_the_same_image() {
    let image = RgbImage::from_vec(2, 1, vec![1, 2, 3, 4, 5, 6]).unwrap();
    let copy = image.clone();
    assert_eq!(copy, image);
    assert_eq!(copy.dimensions(), (2, 1));
    assert_eq!(copy.into_raw(), vec![1, 2, 3, 4, 5, 6]);
}

#[test]
fn matrix_needs_whole_rows_a_step_apart() {
    assert!(Mat::from_vec(2, 3, 1, vec![0u8; 6]).is_some());
    assert!(Mat::from_vec(2, 3, 1, vec![0u8; 5]).is_none());
    assert!(Mat::from_vec(2, 3, 2, vec![0u8; 12]).is_some());
    assert!(Mat::from_vec(-1, 3, 1, Vec::<u8>::new()).is_none());
    assert!(Mat::from_vec(2, -3, 1, vec![0u8; 6]).is_none());
    assert!(Mat::from_vec(2, 3, 0, Vec::<u8>::new()).is_none());
    assert!(Mat::from_vec(0, 0, 1, Vec::<u8>::new()).is_some());

    assert!(Mat::from_vec_with_step(2, 3, 1, 4, vec![0u8; 8]).is_some());
    assert!(Mat::from_vec_with_step(2, 3, 1, 3, vec![0u8; 6]).is_some());
    assert!(Mat::from_vec_with_step(2, 3, 1, 2, vec![0u8; 4]).is_none());
    assert!(Mat::from_vec_with_step(2, 3, 1, 4, vec![0u8; 7]).is_none());
    assert!(Mat::from_vec_with_step(2, 3, 2, 5, vec![0u8; 10]).is_none());
    assert!(Mat::from_vec_with_step(0, 3, 1, u64::MAX, Vec::<u8>::new()).is_some());
    assert!(Mat::from_vec_with_step(-2, 3, 1, 4, vec![0u8; 8]).is_none());
    assert!(Mat::from_vec_with_step(2, 3, -1, 4, vec![0u8; 8]).is_none());

    assert!(Mat::new_nd(3, 1, Elements::U8(Vec::new())).is_some());
    assert!(Mat::new_nd(2, 1, Elements::U8(Vec::new())).is_none());
    assert!(Mat::new_nd(3, 0, Elements::U8(Vec::new())).is_none());
}

#[test]
fn matrix_reports_what_it_was_built_with() {
    let mat = Mat::from_vec_with_step(2, 3, 2, 7, vec![0i32; 14]).unwrap();
    assert_eq!(mat.dims(), 2);
    assert_eq!(mat.rows(), 2);
    assert_eq!(mat.cols(), 3);
    assert_eq!(mat.channels(), 2);
    assert_eq!(mat.step(), 7);
    assert_eq!(mat.depth(), Depth::S32);
    assert!(!mat.is_continuous());
    let copy = mat.clone();
    assert_eq!(copy, mat);

    let mat = Mat::from_vec(2, 3, 2, vec![0i32; 12]).unwrap();
    assert_eq!(mat.step(), 6);
    assert!(mat.is_continuous());
    assert_eq!(mat.as_slice::<i32>(), Some(&[0i32; 12][..]));
    assert_eq!(mat.as_slice::<u8>(), None);
}
