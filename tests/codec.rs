use png_adapter::codec::{decode, decode_outcome, encode, encode_outcome, ImageError, PixelBuffer, PixelFormat};

fn buffer(width: u32, height: u32, format: PixelFormat, data: Vec<u8>) -> PixelBuffer {
    PixelBuffer::from_vec(width, height, format, data).expect("shape matches")
}

#[test]
fn rgba_two_by_two_round_trip() {
    let samples = vec![255, 0, 0, 255, 0, 255, 0, 255, 0, 0, 255, 255, 255, 255, 255, 255];
    let img = buffer(2, 2, PixelFormat::Rgba, samples.clone());
    let png = encode(&img).expect("encodes");
    assert_ne!(png, samples);
    let back = decode(&png, PixelFormat::Rgba).expect("decodes");
    assert_eq!(back.width(), 2);
    assert_eq!(back.height(), 2);
    assert_eq!(back.format(), PixelFormat::Rgba);
    assert_eq!(back.pixels(), &samples[..]);
    assert_eq!(back, img);
}

#[test]
fn gray_one_by_three_round_trip() {
    let img = buffer(1, 3, PixelFormat::Gray, vec![0, 128, 255]);
    let png = encode(&img).expect("encodes");
    let back = decode(&png, PixelFormat::Gray).expect("decodes");
    assert_eq!(back.width(), 1);
    assert_eq!(back.height(), 3);
    assert_eq!(back.into_pixels(), vec![0, 128, 255]);
}

#[test]
fn round_trip_with_transparency_and_odd_sizes() {
    let mut samples = Vec::new();
    for i in 0..(5u32 * 3 * 4) {
        samples.push((i * 37 % 256) as u8);
    }
    let img = buffer(5, 3, PixelFormat::Rgba, samples.clone());
    let back = decode(&encode(&img).unwrap(), PixelFormat::Rgba).unwrap();
    assert_eq!(back.pixels(), &samples[..]);
    assert_eq!((back.width(), back.height()), (5, 3));
}

#[test]
fn repeated_round_trips_stay_exact() {
    let img = buffer(3, 2, PixelFormat::Gray, vec![1, 2, 3, 4, 5, 6]);
    for _ in 0..2000 {
        let png = encode(&img).unwrap();
        let back = decode(&png, PixelFormat::Gray).unwrap();
        assert_eq!(back, img);
    }
}

#[test]
fn decoded_buffer_length_matches_shape() {
    let img = buffer(4, 2, PixelFormat::Gray, vec![9, 8, 7, 6, 5, 4, 3, 2]);
    let png = encode(&img).unwrap();
    let rgba = decode(&png, PixelFormat::Rgba).unwrap();
    assert_eq!(rgba.pixels().len(), 4 * 2 * 4);
    assert_eq!(&rgba.pixels()[0..4], &[9, 9, 9, 255]);
    let gray = decode(&png, PixelFormat::Gray).unwrap();
    assert_eq!(gray.pixels().len(), 4 * 2);
}

#[test]
fn text_is_not_png() {
    let r = decode(b"this is not a png file", PixelFormat::Rgba);
    assert_eq!(r, Err(ImageError::Codec("Failed to decode png data".to_string())));
}

#[test]
fn png_header_followed_by_garbage_is_rejected() {
    let img = buffer(2, 2, PixelFormat::Gray, vec![10, 20, 30, 40]);
    let png = encode(&img).unwrap();
    let mut bad = png[..10].to_vec();
    bad.extend_from_slice(&[0xde, 0xad, 0xbe, 0xef, 1, 2, 3, 4, 5, 6, 7, 8]);
    assert!(matches!(decode(&bad, PixelFormat::Gray), Err(ImageError::Codec(_))));
    let truncated = &png[..png.len() / 2];
    assert!(matches!(decode(truncated, PixelFormat::Rgba), Err(ImageError::Codec(_))));
}

#[test]
fn empty_input_is_rejected() {
    assert!(matches!(decode(&[], PixelFormat::Gray), Err(ImageError::Codec(_))));
}

#[test]
fn from_vec_checks_sample_count() {
    assert!(PixelBuffer::from_vec(2, 2, PixelFormat::Rgba, vec![0; 15]).is_none());
    assert!(PixelBuffer::from_vec(2, 2, PixelFormat::Rgba, vec![0; 17]).is_none());
    assert!(PixelBuffer::from_vec(2, 2, PixelFormat::Gray, vec![0; 4]).is_some());
    assert!(PixelBuffer::from_vec(0, 0, PixelFormat::Gray, vec![]).is_some());
    assert!(PixelBuffer::from_vec(u32::MAX, u32::MAX, PixelFormat::Rgba, vec![]).is_none());
}

#[test]
fn from_decoded_accepts_matching_shape() {
    let b = PixelBuffer::from_decoded(PixelFormat::Rgba, 1, 2, vec![1, 2, 3, 4, 5, 6, 7, 8]).unwrap();
    assert_eq!((b.width(), b.height(), b.format()), (1, 2, PixelFormat::Rgba));
    assert_eq!(b.pixels(), &[1, 2, 3, 4, 5, 6, 7, 8]);
}

#[test]
fn from_decoded_rejects_bad_shapes() {
    let shape = Err(ImageError::BufferShape);
    assert_eq!(PixelBuffer::from_decoded(PixelFormat::Gray, 0, 3, vec![]), shape);
    assert_eq!(PixelBuffer::from_decoded(PixelFormat::Gray, 3, 0, vec![]), shape);
    assert_eq!(PixelBuffer::from_decoded(PixelFormat::Gray, 2, 2, vec![0; 3]), shape);
    assert_eq!(PixelBuffer::from_decoded(PixelFormat::Rgba, 2, 2, vec![0; 4]), shape);
    assert_eq!(PixelBuffer::from_decoded(PixelFormat::Gray, usize::MAX, usize::MAX, vec![]), shape);
    let too_wide = u32::MAX as usize + 1;
    assert_eq!(PixelBuffer::from_decoded(PixelFormat::Gray, too_wide, 1, vec![0; 4]), shape);
}

#[test]
fn channel_counts() {
    assert_eq!(PixelFormat::Rgba.channels(), 4);
    assert_eq!(PixelFormat::Gray.channels(), 1);
}

#[test]
fn decoder_failure_is_codec_error() {
    let r = decode_outcome(PixelFormat::Gray, Err(lodepng::Error::new(83)));
    assert_eq!(r, Err(ImageError::Codec("Failed to decode png data".to_string())));
}

#[test]
fn decoder_output_goes_through_shape_check() {
    let ok = decode_outcome(PixelFormat::Gray, Ok((2, 1, vec![7, 8]))).unwrap();
    assert_eq!((ok.width(), ok.height(), ok.pixels()), (2, 1, &[7u8, 8][..]));
    let bad = decode_outcome(PixelFormat::Rgba, Ok((2, 1, vec![7, 8])));
    assert_eq!(bad, Err(ImageError::BufferShape));
}

#[test]
fn encoder_output_is_passed_on() {
    assert_eq!(encode_outcome(Ok(vec![1, 2, 3])), Ok(vec![1, 2, 3]));
    let r = encode_outcome(Err(lodepng::Error::new(83)));
    assert_eq!(r, Err(ImageError::Codec("Failed to encode png data".to_string())));
}

#[test]
fn encode_returns_the_codec_stream() {
    let img = buffer(2, 1, PixelFormat::Gray, vec![3, 200]);
    let direct = lodepng::encode_memory(&[3u8, 200][..], 2, 1, lodepng::ColorType::GREY, 8).unwrap();
    assert_eq!(encode(&img).unwrap(), direct);
    assert_eq!(&direct[1..4], b"PNG");
}
