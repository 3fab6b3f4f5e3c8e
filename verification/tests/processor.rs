use unimage::decoder::{ContainerFormat, DecodedImage};
use unimage::laws::clone_then_transform;
use unimage::{UnimageErrorKind, UnimageFormat, UnimageProcessor};

/// An 8 x 8 RGB image filled with 0xFF.
fn white() -> UnimageProcessor {
    let mut processor = UnimageProcessor::new();
    let data = vec![0xFFu8; 8 * 8 * 3];
    processor.load_raw(&data, 8, 8, UnimageFormat::RGB).unwrap();
    processor
}

/// A `width` x `height` image whose byte at position `k` is `k % 251`.
fn numbered(width: i32, height: i32, format: UnimageFormat) -> UnimageProcessor {
    let depth = format.bytes_per_pixel();
    let len = width as usize * height as usize * depth;
    let data: Vec<u8> = (0..len).map(|k| (k % 251) as u8).collect();
    let mut processor = UnimageProcessor::new();
    processor.load_raw(&data, width, height, format).unwrap();
    processor
}

fn never(_: ContainerFormat, _: &[u8]) -> Result<DecodedImage, String> {
    panic!("the codec must not run")
}

const PNG_HEADER: [u8; 8] = [0x89, 0x50, 0x4e, 0x47, 0x0d, 0x0a, 0x1a, 0x0a];

#[test]
fn new_processor_is_empty() {
    let processor = UnimageProcessor::new();
    assert_eq!(processor.get_width(), 0);
    assert_eq!(processor.get_height(), 0);
    assert_eq!(processor.get_format(), UnimageFormat::Absent);
    assert_eq!(processor.get_error_message(), "");
    assert!(processor.get_buffer().is_none());
    assert_eq!(processor.buffer().byte_size(), 0);
}

#[test]
fn load_raw_of_white_square() {
    let processor = white();
    assert_eq!(processor.get_width(), 8);
    assert_eq!(processor.get_height(), 8);
    assert_eq!(processor.get_format(), UnimageFormat::RGB);
    assert_eq!(processor.buffer().byte_size(), 192);
    assert_eq!(processor.get_buffer().unwrap(), &[0xFFu8; 192][..]);
    assert_eq!(processor.get_error_message(), "");
}

#[test]
fn clip_inside_white_square() {
    let mut processor = white();
    assert!(processor.clip(2, 2, 4, 4).is_ok());
    assert_eq!(processor.get_width(), 4);
    assert_eq!(processor.get_height(), 4);
    assert_eq!(processor.get_format(), UnimageFormat::RGB);
    assert_eq!(processor.get_buffer().unwrap().len(), 48);
    assert_eq!(processor.buffer().byte_size(), 48);
}

#[test]
fn clip_outside_after_clip_fails() {
    let mut processor = white();
    processor.clip(2, 2, 4, 4).unwrap();
    let before = processor.get_buffer().unwrap().to_vec();
    let error = processor.clip(6, 6, 4, 4).unwrap_err();
    assert_eq!(error.kind(), UnimageErrorKind::OutOfBounds);
    assert_eq!(processor.get_width(), 4);
    assert_eq!(processor.get_height(), 4);
    assert!(!processor.get_error_message().is_empty());
    assert_eq!(
        processor.get_error_message(),
        "clip rectangle x=6, y=6, width=4, height=4 does not lie inside the image of 4 x 4 pixels"
    );
    assert_eq!(error.message(), processor.get_error_message());
    assert_eq!(error.to_string(), processor.get_error_message());
    assert_eq!(processor.get_buffer().unwrap(), &before[..]);
}

#[test]
fn clip_takes_the_rows_of_the_rectangle() {
    let mut processor = numbered(5, 4, UnimageFormat::RGB);
    processor.clip(1, 2, 3, 2).unwrap();
    // Row 2 starts at byte 30, row 3 at byte 45; column 1 is 3 bytes in.
    let expected: Vec<u8> = (33..42).chain(48..57).collect();
    assert_eq!(processor.get_buffer().unwrap(), &expected[..]);
    assert_eq!(processor.get_width(), 3);
    assert_eq!(processor.get_height(), 2);
}

#[test]
fn clip_of_rgba_keeps_four_bytes_per_pixel() {
    let mut processor = numbered(3, 3, UnimageFormat::RGBA);
    processor.clip(2, 0, 1, 3).unwrap();
    let expected: Vec<u8> = vec![8, 9, 10, 11, 20, 21, 22, 23, 32, 33, 34, 35];
    assert_eq!(processor.get_buffer().unwrap(), &expected[..]);
    assert_eq!(processor.get_format(), UnimageFormat::RGBA);
}

#[test]
fn clip_to_whole_extent_is_identity() {
    let mut processor = numbered(7, 5, UnimageFormat::RGBA);
    let before = processor.get_buffer().unwrap().to_vec();
    processor.clip(0, 0, 7, 5).unwrap();
    assert_eq!(processor.get_width(), 7);
    assert_eq!(processor.get_height(), 5);
    assert_eq!(processor.get_format(), UnimageFormat::RGBA);
    assert_eq!(processor.get_buffer().unwrap(), &before[..]);
    assert_eq!(processor.get_error_message(), "");
}

#[test]
fn clip_exceeding_extent_leaves_buffer() {
    let cases = [
        (-1, 0, 2, 2),
        (0, -1, 2, 2),
        (0, 0, 0, 2),
        (0, 0, 2, 0),
        (0, 0, 5, 2),
        (0, 0, 2, 4),
        (3, 0, 2, 1),
        (0, 2, 1, 2),
        (4, 3, 1, 1),
        (1, 1, i32::MAX, 1),
        (i32::MAX, i32::MAX, i32::MAX, i32::MAX),
        (0, 0, i32::MIN, i32::MIN),
    ];
    for (x, y, width, height) in cases {
        let mut processor = numbered(4, 3, UnimageFormat::RGB);
        let before = processor.get_buffer().unwrap().to_vec();
        let error = processor.clip(x, y, width, height).unwrap_err();
        assert_eq!(error.kind(), UnimageErrorKind::OutOfBounds);
        assert_eq!(processor.get_width(), 4);
        assert_eq!(processor.get_height(), 3);
        assert_eq!(processor.get_format(), UnimageFormat::RGB);
        assert_eq!(processor.get_buffer().unwrap(), &before[..]);
        assert_eq!(processor.get_error_message(), error.message());
    }
}

#[test]
fn clip_message_gives_negative_coordinates() {
    let mut processor = numbered(4, 3, UnimageFormat::RGB);
    processor.clip(-2, i32::MIN, 1, i32::MAX).unwrap_err();
    assert_eq!(
        processor.get_error_message(),
        "clip rectangle x=-2, y=-2147483648, width=1, height=2147483647 does not lie inside the image of 4 x 3 pixels"
    );
}

#[test]
fn clip_without_image_fails() {
    let mut processor = UnimageProcessor::new();
    let error = processor.clip(0, 0, 1, 1).unwrap_err();
    assert_eq!(error.kind(), UnimageErrorKind::NoImageLoaded);
    assert_eq!(processor.get_error_message(), "no image is loaded");
    assert_eq!(processor.get_format(), UnimageFormat::Absent);
}

#[test]
fn resize_without_image_fails() {
    let mut processor = UnimageProcessor::new();
    let error = processor.resize(4, 4).unwrap_err();
    assert_eq!(error.kind(), UnimageErrorKind::NoImageLoaded);
    assert_eq!(error.message(), "no image is loaded");
    assert_eq!(processor.get_error_message(), "no image is loaded");
    assert_eq!(processor.get_width(), 0);
}

#[test]
fn resize_to_less_than_one_fails() {
    for (width, height) in [(0, 4), (4, 0), (-1, 4), (4, i32::MIN), (0, 0)] {
        let mut processor = numbered(4, 3, UnimageFormat::RGB);
        let before = processor.get_buffer().unwrap().to_vec();
        let error = processor.resize(width, height).unwrap_err();
        assert_eq!(error.kind(), UnimageErrorKind::InvalidDimensions);
        assert_eq!(processor.get_width(), 4);
        assert_eq!(processor.get_height(), 3);
        assert_eq!(processor.get_buffer().unwrap(), &before[..]);
        assert_eq!(processor.get_error_message(), error.message());
    }
    let mut processor = numbered(4, 3, UnimageFormat::RGB);
    processor.resize(0, -7).unwrap_err();
    assert_eq!(
        processor.get_error_message(),
        "cannot resize to 0 x -7 pixels: width and height must be at least 1"
    );
}

#[test]
fn resize_beyond_addressable_fails() {
    let mut processor = numbered(2, 2, UnimageFormat::RGBA);
    let error = processor.resize(i32::MAX, i32::MAX).unwrap_err();
    assert_eq!(error.kind(), UnimageErrorKind::InvalidDimensions);
    assert_eq!(
        error.message(),
        "an image of 2147483647 x 2147483647 pixels takes more bytes than can be addressed"
    );
    assert_eq!(processor.get_width(), 2);
    assert_eq!(processor.get_buffer().unwrap().len(), 16);
}

#[test]
fn resize_to_same_size_is_identity() {
    for format in [UnimageFormat::RGB, UnimageFormat::RGBA] {
        let mut processor = numbered(6, 5, format);
        let before = processor.get_buffer().unwrap().to_vec();
        processor.resize(6, 5).unwrap();
        assert_eq!(processor.get_width(), 6);
        assert_eq!(processor.get_height(), 5);
        assert_eq!(processor.get_format(), format);
        assert_eq!(processor.buffer().byte_size(), before.len());
        assert_eq!(processor.get_buffer().unwrap(), &before[..]);
        processor.resize(6, 5).unwrap();
        assert_eq!(processor.get_buffer().unwrap(), &before[..]);
    }
}

#[test]
fn resize_doubles_each_pixel() {
    let mut processor = UnimageProcessor::new();
    let data = [1u8, 2, 3, 4, 5, 6, 7, 8, 9, 10, 11, 12];
    processor.load_raw(&data, 2, 2, UnimageFormat::RGB).unwrap();
    processor.resize(4, 4).unwrap();
    let a = [1u8, 2, 3];
    let b = [4u8, 5, 6];
    let c = [7u8, 8, 9];
    let d = [10u8, 11, 12];
    let expected: Vec<u8> =
        [a, a, b, b, a, a, b, b, c, c, d, d, c, c, d, d].iter().flatten().copied().collect();
    assert_eq!(processor.get_width(), 4);
    assert_eq!(processor.get_height(), 4);
    assert_eq!(processor.get_buffer().unwrap(), &expected[..]);
}

#[test]
fn resize_takes_the_nearest_pixel_to_the_left() {
    let mut processor = UnimageProcessor::new();
    // One row of five RGBA pixels whose channels all hold the column.
    let data: Vec<u8> = (0..5u8).flat_map(|x| [x, x, x, x]).collect();
    processor.load_raw(&data, 5, 1, UnimageFormat::RGBA).unwrap();
    processor.resize(3, 2).unwrap();
    // Columns 0, 1, 2 of 3 come from columns 0 * 5 / 3, 1 * 5 / 3, 2 * 5 / 3 of 5.
    let row: Vec<u8> = [0u8, 1, 3].iter().flat_map(|&x| [x, x, x, x]).collect();
    let expected: Vec<u8> = row.iter().chain(row.iter()).copied().collect();
    assert_eq!(processor.get_width(), 3);
    assert_eq!(processor.get_height(), 2);
    assert_eq!(processor.get_format(), UnimageFormat::RGBA);
    assert_eq!(processor.get_buffer().unwrap(), &expected[..]);
}

#[test]
fn resize_of_image_without_pixels_gives_zeros() {
    let mut processor = UnimageProcessor::new();
    processor.load_raw(&[], 0, 3, UnimageFormat::RGB).unwrap();
    assert_eq!(processor.get_format(), UnimageFormat::RGB);
    assert_eq!(processor.get_buffer().unwrap().len(), 0);
    processor.resize(2, 2).unwrap();
    assert_eq!(processor.get_width(), 2);
    assert_eq!(processor.get_height(), 2);
    assert_eq!(processor.get_buffer().unwrap(), &[0u8; 12][..]);
}

#[test]
fn success_keeps_stale_message() {
    let mut processor = white();
    processor.clip(6, 6, 4, 4).unwrap_err();
    let message = processor.get_error_message();
    assert!(!message.is_empty());
    processor.clip(0, 0, 2, 2).unwrap();
    assert_eq!(processor.get_error_message(), message);
    processor.resize(3, 3).unwrap();
    assert_eq!(processor.get_error_message(), message);
    processor.resize(0, 0).unwrap_err();
    assert_ne!(processor.get_error_message(), message);
}

#[test]
fn load_raw_with_wrong_length_fails() {
    let mut processor = white();
    let data = vec![1u8; 47];
    let error = processor.load_raw(&data, 4, 4, UnimageFormat::RGB).unwrap_err();
    assert_eq!(error.kind(), UnimageErrorKind::SizeMismatch);
    assert_eq!(
        error.message(),
        "pixel data of 47 bytes does not match width 4, height 4 at 3 bytes per pixel"
    );
    assert_eq!(processor.get_error_message(), error.message());
    assert_eq!(processor.get_width(), 8);
    assert_eq!(processor.get_buffer().unwrap(), &[0xFFu8; 192][..]);
}

#[test]
fn load_raw_with_negative_side_fails() {
    let mut processor = white();
    let data = vec![1u8; 12];
    let error = processor.load_raw(&data, -2, 2, UnimageFormat::RGB).unwrap_err();
    assert_eq!(error.kind(), UnimageErrorKind::SizeMismatch);
    // Two negative sides take as many bytes as the data has.
    let error = processor.load_raw(&data, -2, -2, UnimageFormat::RGB).unwrap_err();
    assert_eq!(error.kind(), UnimageErrorKind::InvalidDimensions);
    assert_eq!(error.message(), "width must not be negative, but is -2");
    let error = processor.load_raw(&[], 0, -5, UnimageFormat::RGBA).unwrap_err();
    assert_eq!(error.kind(), UnimageErrorKind::InvalidDimensions);
    assert_eq!(error.message(), "height must not be negative, but is -5");
    assert_eq!(processor.get_error_message(), "height must not be negative, but is -5");
    assert_eq!(processor.get_width(), 8);
    assert_eq!(processor.get_buffer().unwrap().len(), 192);
}

#[test]
fn load_raw_without_format_fails() {
    let mut processor = white();
    let error = processor.load_raw(&[], 3, 3, UnimageFormat::Absent).unwrap_err();
    assert_eq!(error.kind(), UnimageErrorKind::InvalidDimensions);
    assert_eq!(error.message(), "pixel format must be RGB or RGBA");
    let error = processor.load_raw(&[1, 2, 3], 1, 1, UnimageFormat::Absent).unwrap_err();
    assert_eq!(error.kind(), UnimageErrorKind::SizeMismatch);
    assert_eq!(
        error.message(),
        "pixel data of 3 bytes does not match width 1, height 1 at 0 bytes per pixel"
    );
    assert_eq!(processor.get_format(), UnimageFormat::RGB);
    assert_eq!(processor.get_width(), 8);
}

#[test]
fn load_raw_replaces_the_image() {
    let mut processor = white();
    processor.load_raw(&[1, 2, 3, 4, 5, 6, 7, 8], 1, 2, UnimageFormat::RGBA).unwrap();
    assert_eq!(processor.get_width(), 1);
    assert_eq!(processor.get_height(), 2);
    assert_eq!(processor.get_format(), UnimageFormat::RGBA);
    assert_eq!(processor.get_buffer().unwrap(), &[1u8, 2, 3, 4, 5, 6, 7, 8][..]);
}

#[test]
fn load_raw_from_vec_and_slice_leave_data() {
    let mut data = vec![9u8; 24];
    let mut processor = UnimageProcessor::new();
    processor.load_raw_from_vec(&mut data, 4, 2, UnimageFormat::RGB).unwrap();
    assert_eq!(data, vec![9u8; 24]);
    assert_eq!(processor.get_width(), 4);
    assert_eq!(processor.get_height(), 2);
    assert_eq!(processor.get_buffer().unwrap(), &data[..]);
    let mut other = [7u8; 16];
    processor.load_raw_from_slice(&mut other, 2, 2, UnimageFormat::RGBA).unwrap();
    assert_eq!(other, [7u8; 16]);
    assert_eq!(processor.get_format(), UnimageFormat::RGBA);
    assert_eq!(processor.get_buffer().unwrap(), &other[..]);
    let error = processor.load_raw_from_vec(&mut data, 4, 2, UnimageFormat::RGBA).unwrap_err();
    assert_eq!(error.kind(), UnimageErrorKind::SizeMismatch);
    let error = processor.load_raw_from_slice(&mut other, 2, 2, UnimageFormat::RGB).unwrap_err();
    assert_eq!(error.kind(), UnimageErrorKind::SizeMismatch);
    assert_eq!(processor.get_buffer().unwrap(), &other[..]);
}

#[test]
fn load_of_garbage_keeps_the_image() {
    let streams: [&[u8]; 6] = [
        &[],
        &[0x89],
        &[0x00, 0x01, 0x02, 0x03],
        &[0x89, 0x50, 0x4e, 0x47, 0x0d, 0x0a, 0x1a],
        &[0x47, 0x49, 0x46, 0x38, 0x38, 0x61],
        &[0x52, 0x49, 0x46, 0x46, 0, 0, 0, 0, 0x57, 0x45, 0x42],
    ];
    for stream in streams {
        let mut processor = numbered(3, 2, UnimageFormat::RGB);
        let before = processor.get_buffer().unwrap().to_vec();
        let error = processor.load(stream, never).unwrap_err();
        assert_eq!(error.kind(), UnimageErrorKind::DecodeFailed);
        assert_eq!(error.message(), "unrecognized image signature");
        assert_eq!(processor.get_error_message(), "unrecognized image signature");
        assert_eq!(processor.get_width(), 3);
        assert_eq!(processor.get_height(), 2);
        assert_eq!(processor.get_format(), UnimageFormat::RGB);
        assert_eq!(processor.get_buffer().unwrap(), &before[..]);
    }
}

#[test]
fn load_of_truncated_stream_keeps_the_image() {
    let mut processor = numbered(3, 2, UnimageFormat::RGBA);
    let before = processor.get_buffer().unwrap().to_vec();
    let codec = |container: ContainerFormat, stream: &[u8]| -> Result<DecodedImage, String> {
        assert_eq!(container, ContainerFormat::Png);
        Err(format!("stream ends after {} bytes", stream.len()))
    };
    let error = processor.load(&PNG_HEADER, codec).unwrap_err();
    assert_eq!(error.kind(), UnimageErrorKind::DecodeFailed);
    assert_eq!(error.message(), "stream ends after 8 bytes");
    assert_eq!(processor.get_error_message(), "stream ends after 8 bytes");
    assert_eq!(processor.get_width(), 3);
    assert_eq!(processor.get_height(), 2);
    assert_eq!(processor.get_format(), UnimageFormat::RGBA);
    assert_eq!(processor.get_buffer().unwrap(), &before[..]);
}

#[test]
fn load_runs_the_codec_of_the_container() {
    let mut processor = white();
    processor.clip(9, 9, 1, 1).unwrap_err();
    let message = processor.get_error_message();
    let codec = |container: ContainerFormat, stream: &[u8]| -> Result<DecodedImage, String> {
        assert_eq!(container, ContainerFormat::Jpeg);
        assert_eq!(stream, &[0xff, 0xd8, 0xff, 0xe0, 5, 6]);
        Ok(DecodedImage {
            pixels: vec![stream[4]; 6],
            width: 2,
            height: 1,
            format: UnimageFormat::RGB,
        })
    };
    processor.load(&[0xff, 0xd8, 0xff, 0xe0, 5, 6], codec).unwrap();
    assert_eq!(processor.get_width(), 2);
    assert_eq!(processor.get_height(), 1);
    assert_eq!(processor.get_format(), UnimageFormat::RGB);
    assert_eq!(processor.get_buffer().unwrap(), &[5u8; 6][..]);
    assert_eq!(processor.get_error_message(), message);
}

#[test]
fn load_refuses_what_cannot_be_a_buffer() {
    let mut processor = white();
    let short = |_: ContainerFormat, _: &[u8]| -> Result<DecodedImage, String> {
        Ok(DecodedImage { pixels: vec![0; 5], width: 2, height: 1, format: UnimageFormat::RGB })
    };
    let error = processor.load(&PNG_HEADER, short).unwrap_err();
    assert_eq!(error.kind(), UnimageErrorKind::DecodeFailed);
    assert_eq!(
        error.message(),
        "decoder returned an invalid image: pixel data of 5 bytes does not match width 2, height 1 at 3 bytes per pixel"
    );
    assert_eq!(processor.get_error_message(), error.message());
    let formless = |_: ContainerFormat, _: &[u8]| -> Result<DecodedImage, String> {
        Ok(DecodedImage { pixels: vec![], width: 2, height: 1, format: UnimageFormat::Absent })
    };
    let error = processor.load(&PNG_HEADER, formless).unwrap_err();
    assert_eq!(error.kind(), UnimageErrorKind::DecodeFailed);
    assert_eq!(
        error.message(),
        "decoder returned an invalid image: pixel format must be RGB or RGBA"
    );
    assert_eq!(processor.get_width(), 8);
    assert_eq!(processor.get_format(), UnimageFormat::RGB);
    assert_eq!(processor.get_buffer().unwrap(), &[0xFFu8; 192][..]);
}

#[test]
fn load_from_vec_and_slice_leave_data() {
    let codec = |_: ContainerFormat, stream: &[u8]| -> Result<DecodedImage, String> {
        Ok(DecodedImage {
            pixels: stream.to_vec(),
            width: 1,
            height: 1,
            format: UnimageFormat::RGBA,
        })
    };
    let mut data = vec![0x42u8, 0x4d, 1, 2];
    let mut processor = UnimageProcessor::new();
    processor.load_from_vec(&mut data, codec).unwrap();
    assert_eq!(data, vec![0x42u8, 0x4d, 1, 2]);
    assert_eq!(processor.get_buffer().unwrap(), &data[..]);
    let mut other = [0xffu8, 0xd8, 0xff, 9];
    processor.load_from_slice(&mut other, codec).unwrap();
    assert_eq!(other, [0xffu8, 0xd8, 0xff, 9]);
    assert_eq!(processor.get_buffer().unwrap(), &other[..]);
    let mut garbage = vec![1u8, 2, 3];
    assert!(processor.load_from_vec(&mut garbage, never).is_err());
    assert!(processor.load_from_slice(&mut garbage[..], never).is_err());
    assert_eq!(processor.get_buffer().unwrap(), &other[..]);
    assert_eq!(processor.get_error_message(), "unrecognized image signature");
}

#[test]
fn load_decoded_takes_the_outcome() {
    let mut processor = UnimageProcessor::new();
    let image =
        DecodedImage { pixels: vec![3; 24], width: 2, height: 3, format: UnimageFormat::RGBA };
    processor.load_decoded(Ok(image)).unwrap();
    assert_eq!(processor.get_width(), 2);
    assert_eq!(processor.get_height(), 3);
    assert_eq!(processor.get_format(), UnimageFormat::RGBA);
    let error = processor.load_decoded(Err(String::from("bad checksum"))).unwrap_err();
    assert_eq!(error.kind(), UnimageErrorKind::DecodeFailed);
    assert_eq!(error.message(), "bad checksum");
    assert_eq!(processor.get_error_message(), "bad checksum");
    assert_eq!(processor.get_buffer().unwrap(), &[3u8; 24][..]);
}

#[test]
fn get_buffer_as_mut_writes_the_image() {
    let mut processor = numbered(2, 2, UnimageFormat::RGB);
    {
        let bytes = processor.get_buffer_as_mut().unwrap();
        assert_eq!(bytes.len(), 12);
        assert_eq!(bytes[5], 5);
        bytes[5] = 200;
        bytes[11] = 201;
    }
    let expected = [0u8, 1, 2, 3, 4, 200, 6, 7, 8, 9, 10, 201];
    assert_eq!(processor.get_buffer().unwrap(), &expected[..]);
    assert_eq!(processor.get_width(), 2);
    assert_eq!(processor.get_height(), 2);
    processor.clip(1, 1, 1, 1).unwrap();
    assert_eq!(processor.get_buffer().unwrap(), &[9u8, 10, 201][..]);
    let mut empty = UnimageProcessor::new();
    assert!(empty.get_buffer_as_mut().is_none());
}

#[test]
fn try_clone_matches_the_source() {
    let mut source = numbered(4, 3, UnimageFormat::RGBA);
    source.resize(0, 0).unwrap_err();
    let copy = source.try_clone().unwrap();
    assert_eq!(copy.get_width(), 4);
    assert_eq!(copy.get_height(), 3);
    assert_eq!(copy.get_format(), UnimageFormat::RGBA);
    assert_eq!(copy.get_buffer().unwrap(), source.get_buffer().unwrap());
    assert_eq!(copy.get_error_message(), source.get_error_message());
    let empty = UnimageProcessor::new().try_clone().unwrap();
    assert_eq!(empty.get_format(), UnimageFormat::Absent);
    assert!(empty.get_buffer().is_none());
}

#[test]
fn clone_is_independent_of_its_source() {
    let mut source = numbered(4, 4, UnimageFormat::RGB);
    let before = source.get_buffer().unwrap().to_vec();
    let mut copy = source.try_clone().unwrap();
    copy.clip(1, 1, 2, 2).unwrap();
    copy.get_buffer_as_mut().unwrap()[0] = 255;
    copy.clip(5, 5, 1, 1).unwrap_err();
    assert_eq!(source.get_width(), 4);
    assert_eq!(source.get_height(), 4);
    assert_eq!(source.get_buffer().unwrap(), &before[..]);
    assert_eq!(source.get_error_message(), "");
    let clipped = copy.get_buffer().unwrap().to_vec();
    source.resize(2, 1).unwrap();
    source.get_buffer_as_mut().unwrap()[0] = 254;
    assert_eq!(copy.get_width(), 2);
    assert_eq!(copy.get_height(), 2);
    assert_eq!(copy.get_buffer().unwrap(), &clipped[..]);
}

#[test]
fn clone_then_transform_keeps_both_apart() {
    let mut source = numbered(4, 4, UnimageFormat::RGB);
    let mut expected_copy = numbered(4, 4, UnimageFormat::RGB);
    expected_copy.clip(2, 0, 2, 3).unwrap();
    let mut expected_source = numbered(4, 4, UnimageFormat::RGB);
    expected_source.resize(8, 2).unwrap();
    let copy = clone_then_transform(&mut source, 2, 0, 2, 3, 8, 2).unwrap();
    assert_eq!(copy.get_width(), 2);
    assert_eq!(copy.get_height(), 3);
    assert_eq!(copy.get_buffer().unwrap(), expected_copy.get_buffer().unwrap());
    assert_eq!(source.get_width(), 8);
    assert_eq!(source.get_height(), 2);
    assert_eq!(source.get_buffer().unwrap(), expected_source.get_buffer().unwrap());
}

#[test]
fn clone_without_storage_fails() {
    let mut source = white();
    source.clip(9, 9, 1, 1).unwrap_err();
    let message = source.get_error_message();
    let error = match source.clone_with_storage(None) {
        Ok(_) => panic!("a clone was made without storage"),
        Err(error) => error,
    };
    assert_eq!(error.kind(), UnimageErrorKind::CloneFailed);
    assert_eq!(error.message(), message);
    assert_eq!(source.get_width(), 8);
    let copy = source.clone_with_storage(Some(vec![1, 2, 3])).unwrap();
    assert_eq!(copy.get_buffer().unwrap(), source.get_buffer().unwrap());
    assert_eq!(copy.get_error_message(), message);
}
