use thermal_printer::commands_esc_pos::image_escpos::image_code::{
    picture_size, Image, ImageAlignment, ImageMode,
};
use thermal_printer::commands_esc_pos::image_escpos::image_processor::ImageProcessor;
use thermal_printer::commands_esc_pos::image_escpos::logo::Logo;
use thermal_printer::commands_esc_pos::image_escpos::raster::{scale_height, GrayImage, Raster};
use thermal_printer::error::{DecodeError, EncodeError};

const RGBA_2X2: &str = "iVBORw0KGgoAAAANSUhEUgAAAAIAAAACCAYAAABytg0kAAAAGElEQVR4nGNgYGD4DwIM/xkYUurr6/8DAEs4CNuFh2w5AAAAAElFTkSuQmCC";
const RGB_8X2: &str = "iVBORw0KGgoAAAANSUhEUgAAAAgAAAACCAIAAADq9gq6AAAAJUlEQVR4nGNgYGBQUFBwcHBISEhoaGhYsGDBgQMHHjx4wIBLAgCuwRUB2gVjAAAAAABJRU5ErkJggg==";
const RGB_3X2: &str = "iVBORw0KGgoAAAANSUhEUgAAAAMAAAACCAIAAAASFvFNAAAAGUlEQVR4nGNIAYMTJ04wGBkZNTU11dXVAQBSIghHbrYssQAAAABJRU5ErkJggg==";
const NOT_AN_IMAGE: &str = "aGVsbG8gd29ybGQsIG5vdCBhbiBpbWFnZQ==";

fn gray(width: u32, height: u32, pixels: Vec<u8>) -> GrayImage {
    GrayImage { width, height, pixels }
}

#[test]
fn base64_text_is_decoded_to_pixels() {
    let raster = ImageProcessor::base64_to_image(RGBA_2X2).unwrap();
    assert_eq!((raster.width, raster.height), (2, 2));
    assert_eq!(
        raster.rgba,
        vec![0, 0, 0, 255, 255, 255, 255, 255, 255, 0, 0, 100, 127, 127, 127, 255]
    );
}

#[test]
fn opaque_pictures_get_full_alpha() {
    let raster = ImageProcessor::base64_to_image(RGB_3X2).unwrap();
    assert_eq!((raster.width, raster.height), (3, 2));
    assert_eq!(&raster.rgba[..8], &[100, 100, 100, 255, 100, 100, 100, 255]);
    assert_eq!(raster.rgba.len(), 24);
}

#[test]
fn data_url_prefix_is_skipped() {
    let with_prefix = format!("data:image/png;base64,{}", RGBA_2X2);
    let raster = ImageProcessor::base64_to_image(&with_prefix).unwrap();
    assert_eq!((raster.width, raster.height), (2, 2));
    let with_tail = format!("data:image/png;base64,{},ignored", RGBA_2X2);
    assert!(ImageProcessor::base64_to_image(&with_tail).is_ok());
}

#[test]
fn malformed_text_is_refused() {
    assert_eq!(ImageProcessor::base64_to_image("***").err(), Some(DecodeError::Base64));
    assert_eq!(ImageProcessor::base64_to_image(NOT_AN_IMAGE).err(), Some(DecodeError::Image));
    assert_eq!(ImageProcessor::base64_to_image("").err(), Some(DecodeError::Image));
    assert_eq!(
        ImageProcessor::process_image("data:,***", 100, true).err(),
        Some(DecodeError::Base64)
    );
}

#[test]
fn grayscale_weighs_the_colours() {
    let raster = Raster {
        width: 4,
        height: 1,
        rgba: vec![255, 0, 0, 255, 0, 255, 0, 255, 0, 0, 255, 255, 10, 20, 30, 128],
    };
    let gray = ImageProcessor::to_grayscale(&raster);
    assert_eq!((gray.width, gray.height), (4, 1));
    assert_eq!(gray.pixels, vec![76, 149, 29, 18]);
}

#[test]
fn transparent_pixels_are_white() {
    let raster = Raster { width: 2, height: 1, rgba: vec![0, 0, 0, 127, 0, 0, 0, 128] };
    assert_eq!(ImageProcessor::to_grayscale(&raster).pixels, vec![255, 0]);
    let decoded = ImageProcessor::base64_to_image(RGBA_2X2).unwrap();
    assert_eq!(ImageProcessor::to_grayscale(&decoded).pixels, vec![0, 255, 255, 127]);
}

#[test]
fn flatten_blends_onto_white() {
    let raster = Raster {
        width: 3,
        height: 1,
        rgba: vec![0, 0, 0, 0, 0, 100, 200, 255, 100, 0, 255, 128],
    };
    let flat = raster.flatten();
    assert_eq!(flat.rgba, vec![255, 255, 255, 255, 0, 100, 200, 255, 177, 127, 255, 255]);
}

#[test]
fn threshold_is_127() {
    let binary = ImageProcessor::to_binary_simple(&gray(4, 1, vec![0, 126, 127, 255]));
    assert_eq!(binary.pixels, vec![0, 0, 255, 255]);
    assert_eq!(binary.dimensions(), (4, 1));
}

#[test]
fn dithering_diffuses_the_error() {
    let source = gray(3, 2, vec![100, 100, 200, 50, 130, 126]);
    let dithered = ImageProcessor::to_binary_with_dithering(&source);
    assert_eq!(dithered.pixels, vec![0, 255, 255, 0, 0, 255]);
    assert_eq!(ImageProcessor::to_binary_simple(&source).pixels, vec![0, 0, 255, 0, 255, 0]);
}

#[test]
fn dithering_of_flat_gray_alternates() {
    let source = gray(4, 1, vec![128, 128, 128, 128]);
    assert_eq!(ImageProcessor::to_binary_with_dithering(&source).pixels, vec![255, 0, 255, 0]);
    let dark = gray(4, 1, vec![64, 64, 64, 64]);
    assert_eq!(ImageProcessor::to_binary_with_dithering(&dark).pixels, vec![0, 0, 0, 0]);
    let light = gray(4, 1, vec![200, 200, 200, 200]);
    assert_eq!(ImageProcessor::to_binary_with_dithering(&light).pixels, vec![255, 255, 255, 255]);
}

#[test]
fn dithering_is_deterministic() {
    let pixels: Vec<u8> = (0..35 * 9).map(|i| ((i * 37 + 11) % 256) as u8).collect();
    let first = ImageProcessor::to_binary_with_dithering(&gray(35, 9, pixels.clone()));
    let second = ImageProcessor::to_binary_with_dithering(&gray(35, 9, pixels));
    assert_eq!(first.pixels, second.pixels);
    assert_eq!(
        ImageProcessor::image_to_bytes(&first),
        ImageProcessor::image_to_bytes(&second)
    );
    assert!(first.pixels.iter().all(|p| *p == 0 || *p == 255));
    let once = ImageProcessor::process_image(RGB_3X2, 100, true).unwrap();
    let again = ImageProcessor::process_image(RGB_3X2, 100, true).unwrap();
    assert_eq!(once.pixels, again.pixels);
}

#[test]
fn dithering_of_empty_pictures() {
    assert_eq!(ImageProcessor::to_binary_with_dithering(&gray(0, 0, vec![])).pixels, vec![]);
    assert_eq!(ImageProcessor::to_binary_with_dithering(&gray(0, 3, vec![])).pixels, vec![]);
    assert_eq!(ImageProcessor::to_binary_with_dithering(&gray(3, 0, vec![])).pixels, vec![]);
}

#[test]
fn rows_are_packed_from_the_high_bit() {
    let binary = gray(3, 2, vec![0, 255, 255, 0, 0, 255]);
    assert_eq!(ImageProcessor::image_to_bytes(&binary), vec![0x80, 0xC0]);
    let wide = gray(10, 1, vec![0, 255, 0, 255, 0, 255, 0, 255, 0, 0]);
    assert_eq!(ImageProcessor::image_to_bytes(&wide), vec![0xAA, 0xC0]);
    let exact = gray(8, 1, vec![0; 8]);
    assert_eq!(ImageProcessor::image_to_bytes(&exact), vec![0xFF]);
    assert_eq!(ImageProcessor::image_to_bytes(&gray(0, 0, vec![])), Vec::<u8>::new());
}

#[test]
fn packing_treats_values_below_127_as_black() {
    let mixed = gray(4, 1, vec![126, 127, 10, 200]);
    assert_eq!(ImageProcessor::image_to_bytes(&mixed), vec![0xA0]);
}

#[test]
fn narrow_pictures_are_not_scaled() {
    let raster = ImageProcessor::base64_to_image(RGB_8X2).unwrap();
    assert_eq!(ImageProcessor::resize_target(&raster, 8), None);
    assert_eq!(ImageProcessor::resize_target(&raster, 100), None);
    let same = ImageProcessor::resize_image(&raster, 8);
    assert_eq!((same.width, same.height), (8, 2));
    assert_eq!(same.rgba, raster.rgba);
}

#[test]
fn wide_pictures_are_scaled_to_the_limit() {
    let raster = ImageProcessor::base64_to_image(RGB_8X2).unwrap();
    assert_eq!(ImageProcessor::resize_target(&raster, 4), Some((4, 1)));
    let scaled = ImageProcessor::resize_image(&raster, 4);
    assert_eq!((scaled.width, scaled.height), (4, 1));
    assert_eq!(scaled.rgba.len(), 16);
    assert!(scaled.rgba != raster.rgba);
    let binary = ImageProcessor::process_image(RGB_8X2, 4, false).unwrap();
    assert_eq!((binary.width, binary.height), (4, 1));
    assert_eq!(binary.pixels.len(), 4);
}

#[test]
fn scaled_height_keeps_proportions() {
    assert_eq!(scale_height(1000, 500, 576), 288);
    assert_eq!(scale_height(577, 1, 576), 0);
    assert_eq!(scale_height(800, 600, 384), 288);
    assert_eq!(scale_height(4_000_000_000, 4_000_000_000, 2_000_000_000), 2_000_000_000);
}

#[test]
fn picture_size_is_little_endian() {
    assert_eq!(picture_size(576, 300), vec![72, 0, 0x2C, 0x01]);
    assert_eq!(picture_size(3, 2), vec![1, 0, 2, 0]);
    assert_eq!(picture_size(2049, 65536), vec![1, 1, 0, 0]);
}

#[test]
fn image_command_frames_the_raster() {
    let image = Image::new(RGBA_2X2, 576).unwrap();
    assert_eq!(image.alignment, ImageAlignment::Center);
    assert_eq!(image.mode, ImageMode::Normal);
    assert!(image.use_dithering);
    assert_eq!(
        image.get_command().unwrap(),
        vec![
            0x1B, 0x61, 0x01, 0x1D, 0x76, 0x00, 0x00, 0x01, 0x00, 0x02, 0x00, 0x80, 0x00, 0x1B,
            0x61, 0x00
        ]
    );
}

#[test]
fn image_setters_change_the_command() {
    let image = Image::new(RGB_3X2, 576)
        .unwrap()
        .set_alignment(ImageAlignment::Right)
        .set_mode(ImageMode::Quadruple)
        .set_use_dithering(false);
    assert_eq!(
        image.get_command().unwrap(),
        vec![
            0x1B, 0x61, 0x02, 0x1D, 0x76, 0x00, 0x03, 0x01, 0x00, 0x02, 0x00, 0xC0, 0xA0, 0x1B,
            0x61, 0x00
        ]
    );
    let dithered = Image::new(RGB_3X2, 576).unwrap().set_alignment(ImageAlignment::Left);
    assert_eq!(&dithered.get_command().unwrap()[11..13], &[0x80, 0xC0]);
    assert_eq!(ImageAlignment::Left.value(), 0);
    assert_eq!(ImageMode::DoubleWidth.value(), 1);
    assert_eq!(ImageMode::DoubleHeight.value(), 2);
}

#[test]
fn image_command_for_a_given_picture() {
    let image = Image::new("", 10).unwrap();
    let binary = gray(9, 1, vec![0; 9]);
    assert_eq!(
        image.command_for(&binary),
        vec![
            0x1B, 0x61, 0x01, 0x1D, 0x76, 0x00, 0x00, 0x02, 0x00, 0x01, 0x00, 0xFF, 0x80, 0x1B,
            0x61, 0x00
        ]
    );
}

#[test]
fn image_that_cannot_be_read_is_refused() {
    let image = Image::new(NOT_AN_IMAGE, 576).unwrap();
    assert_eq!(image.get_command(), Err(EncodeError::Decode(DecodeError::Image)));
    let image = Image::new("not base64!", 576).unwrap();
    assert_eq!(image.get_command(), Err(EncodeError::Decode(DecodeError::Base64)));
}

#[test]
fn logo_commands() {
    let logo = Logo::new(7);
    assert_eq!(logo.key_code(), 7);
    assert_eq!(logo.mode(), ImageMode::Normal);
    assert_eq!(logo.get_print_command(), vec![0x1C, 0x70, 7, 0]);
    let logo = logo.set_mode(ImageMode::DoubleHeight);
    assert_eq!(logo.get_print_command(), vec![0x1C, 0x70, 7, 2]);
    assert_eq!(Logo::get_delete_command(9), vec![0x1C, 0x71, 9, 0x00]);
    assert_eq!(Logo::get_delete_all_command(), vec![0x1C, 0x71, 0x00]);
    assert_eq!(
        Logo::get_define_command(3, &[0xAA, 0x55], 8, 2),
        vec![0x1C, 0x71, 3, 1, 0, 2, 0, 0xAA, 0x55]
    );
}

#[test]
fn logo_from_base64() {
    assert_eq!(
        Logo::define_from_base64(5, RGB_3X2, 100, false).unwrap(),
        vec![0x1C, 0x71, 5, 1, 0, 2, 0, 0xC0, 0xA0]
    );
    assert_eq!(
        Logo::define_from_base64(5, "@@", 100, false),
        Err(EncodeError::Decode(DecodeError::Base64))
    );
}

#[test]
fn pictures_are_checked_when_made() {
    assert!(GrayImage::new(2, 2, vec![0; 4]).is_some());
    assert!(GrayImage::new(2, 2, vec![0; 3]).is_none());
    assert!(GrayImage::new(0, 7, vec![]).is_some());
    assert!(Raster::new(1, 2, vec![0; 8]).is_some());
    assert!(Raster::new(1, 2, vec![0; 2]).is_none());
    assert!(Raster::new(4_000_000_000, 4_000_000_000, vec![0; 4]).is_none());
}

#[test]
fn scaled_pictures_have_the_size_of_the_filter() {
    let raster = Raster::new(9, 3, vec![200; 9 * 3 * 4]).unwrap();
    assert_eq!(ImageProcessor::resize_target(&raster, 3), Some((3, 1)));
    let scaled = ImageProcessor::resize_image(&raster, 3);
    assert_eq!((scaled.width, scaled.height), (3, 1));
    let flat = Raster::new(10, 1, vec![0; 40]).unwrap();
    assert_eq!(ImageProcessor::resize_target(&flat, 3), Some((3, 0)));
    let scaled = ImageProcessor::resize_image(&flat, 3);
    assert_eq!((scaled.width, scaled.height), (1, 1));
    assert_eq!(scaled.rgba.len(), 4);
}
