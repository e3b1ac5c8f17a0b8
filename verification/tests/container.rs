use wavrec::{encode_wav, finalize_image, parse_wav, CaptureBuffer, ContainerError, SampleBlock,
    StreamFormat};

fn mono_16_44100() -> StreamFormat {
    StreamFormat { channel_count: 1, sample_rate: 44100, bits_per_sample: 16 }
}

#[test]
fn zero_blocks_gives_44_byte_silence_file() {
    let fmt = mono_16_44100();
    let buffer = CaptureBuffer::new();
    let image = finalize_image(&fmt, buffer).unwrap();
    assert_eq!(image.len(), 44);
    // data size field is zero
    assert_eq!(&image[40..44], &[0, 0, 0, 0]);
    // the whole header, byte for byte
    let expected: Vec<u8> = vec![
        0x52, 0x49, 0x46, 0x46, // "RIFF"
        0x24, 0x00, 0x00, 0x00, // overall size 36
        0x57, 0x41, 0x56, 0x45, // "WAVE"
        0x66, 0x6d, 0x74, 0x20, // "fmt "
        0x10, 0x00, 0x00, 0x00, // subchunk size 16
        0x01, 0x00, // PCM
        0x01, 0x00, // 1 channel
        0x44, 0xac, 0x00, 0x00, // 44100 Hz
        0x88, 0x58, 0x01, 0x00, // byte rate 88200
        0x02, 0x00, // block align
        0x10, 0x00, // 16 bits
        0x64, 0x61, 0x74, 0x61, // "data"
        0x00, 0x00, 0x00, 0x00, // data size 0
    ];
    assert_eq!(image, expected);
}

#[test]
fn one_block_of_three_i16_samples() {
    let fmt = mono_16_44100();
    let mut buffer = CaptureBuffer::new();
    buffer.append(&SampleBlock::Int16(vec![100, -200, 300]));
    let image = finalize_image(&fmt, buffer).unwrap();
    assert_eq!(image.len(), 50);
    // data size field is 6
    assert_eq!(&image[40..44], &[6, 0, 0, 0]);
    // the three samples, little-endian, in order
    assert_eq!(&image[44..50], &[0x64, 0x00, 0x38, 0xff, 0x2c, 0x01]);
}

#[test]
fn byte_rate_field_is_rate_times_channels_times_width() {
    let image = encode_wav(&mono_16_44100(), &vec![]);
    // 44100 * 1 * 16 / 8 = 88200 = 0x00015888
    assert_eq!(&image[28..32], &[0x88, 0x58, 0x01, 0x00]);

    let stereo8 = StreamFormat { channel_count: 2, sample_rate: 8000, bits_per_sample: 8 };
    let image2 = encode_wav(&stereo8, &vec![]);
    // 8000 * 2 * 8 / 8 = 16000 = 0x3e80
    assert_eq!(&image2[28..32], &[0x80, 0x3e, 0x00, 0x00]);
}

#[test]
fn odd_payload_gets_one_pad_byte_excluded_from_data_size() {
    let fmt = StreamFormat { channel_count: 1, sample_rate: 8000, bits_per_sample: 8 };
    let image = encode_wav(&fmt, &vec![1, 2, 3]);
    // header + 3 data bytes + exactly one pad byte
    assert_eq!(image.len(), 48);
    assert_eq!(*image.last().unwrap(), 0);
    // data size field excludes the pad byte
    assert_eq!(&image[40..44], &[3, 0, 0, 0]);
    // overall size field includes it: 36 + 3 + 1 = 40
    assert_eq!(&image[4..8], &[40, 0, 0, 0]);
}

#[test]
fn even_payload_gets_no_pad_byte() {
    let fmt = mono_16_44100();
    let image = encode_wav(&fmt, &vec![10, 11, 12, 13]);
    // header + 4 data bytes, nothing after
    assert_eq!(image.len(), 48);
    assert_eq!(&image[44..48], &[10, 11, 12, 13]);
    assert_eq!(&image[40..44], &[4, 0, 0, 0]);
    // overall size = data size + 36
    assert_eq!(&image[4..8], &[4 + 36, 0, 0, 0]);
}

#[test]
fn round_trip_reproduces_samples_byte_for_byte() {
    let fmt = mono_16_44100();
    let mut buffer = CaptureBuffer::new();
    buffer.append(&SampleBlock::Int16(vec![100, -200, 300]));
    buffer.append(&SampleBlock::Int16(vec![-1, 0, 1, i16::MIN, i16::MAX]));
    let mut reference = CaptureBuffer::new();
    reference.append(&SampleBlock::Int16(vec![100, -200, 300]));
    reference.append(&SampleBlock::Int16(vec![-1, 0, 1, i16::MIN, i16::MAX]));
    let original = reference.drain();

    let image = finalize_image(&fmt, buffer).unwrap();
    let (parsed_fmt, parsed_data) = parse_wav(&image).unwrap();
    assert_eq!(parsed_fmt, fmt);
    assert_eq!(parsed_data, original);
}

#[test]
fn round_trip_with_32_bit_samples_and_padding() {
    let fmt = StreamFormat { channel_count: 2, sample_rate: 48000, bits_per_sample: 32 };
    let block = SampleBlock::Int32(vec![-1, 7, i32::MIN, i32::MAX]);
    let data = block.to_bytes();
    let image = encode_wav(&fmt, &data);
    let (parsed_fmt, parsed_data) = parse_wav(&image).unwrap();
    assert_eq!(parsed_fmt, fmt);
    assert_eq!(parsed_data, data);

    let odd_fmt = StreamFormat { channel_count: 1, sample_rate: 8000, bits_per_sample: 8 };
    let odd = vec![9, 8, 7, 6, 5];
    let odd_image = encode_wav(&odd_fmt, &odd);
    let (_, odd_data) = parse_wav(&odd_image).unwrap();
    assert_eq!(odd_data, odd);
}

#[test]
fn finalizing_the_same_capture_twice_is_byte_identical() {
    let fmt = mono_16_44100();
    let mut first = CaptureBuffer::new();
    let mut second = CaptureBuffer::new();
    for buffer in [&mut first, &mut second] {
        buffer.append(&SampleBlock::Int16(vec![5, -5, 1000]));
        buffer.append(&SampleBlock::Int16(vec![42]));
    }
    let image_a = finalize_image(&fmt, first).unwrap();
    let image_b = finalize_image(&fmt, second).unwrap();
    assert_eq!(image_a, image_b);

    // and encoding one drained byte sequence twice, as if to two paths
    let data = vec![1, 2, 3, 4];
    assert_eq!(encode_wav(&fmt, &data), encode_wav(&fmt, &data));
}

#[test]
fn interleaved_appends_keep_every_block_contiguous_and_ordered() {
    // two producers with distinct, tagged content, their appends
    // serialized by the buffer's critical section in arrival order
    let producer_a = [vec![0x1Au8, 0x2A], vec![0x3A, 0x4A]];
    let producer_b = [vec![0x1Bu8, 0x2B], vec![0x3B, 0x4B]];
    let mut buffer = CaptureBuffer::new();
    buffer.append(&SampleBlock::Int8(vec![0x1A, 0x2A]));
    buffer.append(&SampleBlock::Int8(vec![0x1B, 0x2B]));
    buffer.append(&SampleBlock::Int8(vec![0x3A, 0x4A]));
    buffer.append(&SampleBlock::Int8(vec![0x3B, 0x4B]));
    let drained = buffer.drain();
    // exactly the arrival-order concatenation: no loss, no interleaving
    assert_eq!(drained, vec![0x1A, 0x2A, 0x1B, 0x2B, 0x3A, 0x4A, 0x3B, 0x4B]);
    // consistent with each producer's internal order
    let pos_a: Vec<usize> = (0..drained.len())
        .filter(|&i| drained[i] == producer_a[0][0] || drained[i] == producer_a[1][0])
        .collect();
    assert!(pos_a[0] < pos_a[1]);
    let pos_b: Vec<usize> = (0..drained.len())
        .filter(|&i| drained[i] == producer_b[0][0] || drained[i] == producer_b[1][0])
        .collect();
    assert!(pos_b[0] < pos_b[1]);
}

#[test]
fn parse_accepts_a_hand_built_image() {
    // 8000 Hz, mono, 8-bit, two data bytes, laid down field by field
    let image: Vec<u8> = vec![
        0x52, 0x49, 0x46, 0x46, // "RIFF"
        0x26, 0x00, 0x00, 0x00, // overall size 38
        0x57, 0x41, 0x56, 0x45, // "WAVE"
        0x66, 0x6d, 0x74, 0x20, // "fmt "
        0x10, 0x00, 0x00, 0x00, // subchunk size 16
        0x01, 0x00, // PCM
        0x01, 0x00, // 1 channel
        0x40, 0x1f, 0x00, 0x00, // 8000 Hz
        0x40, 0x1f, 0x00, 0x00, // byte rate 8000
        0x01, 0x00, // block align
        0x08, 0x00, // 8 bits
        0x64, 0x61, 0x74, 0x61, // "data"
        0x02, 0x00, 0x00, 0x00, // data size 2
        0xab, 0xcd, // samples
    ];
    let (fmt, data) = parse_wav(&image).unwrap();
    assert_eq!(
        fmt,
        StreamFormat { channel_count: 1, sample_rate: 8000, bits_per_sample: 8 }
    );
    assert_eq!(data, vec![0xab, 0xcd]);
}

#[test]
fn parse_rejects_short_image() {
    assert_eq!(parse_wav(&vec![0x52, 0x49, 0x46, 0x46]), Err(ContainerError::TooShort));
}

#[test]
fn parse_rejects_wrong_tag() {
    let mut image = encode_wav(&mono_16_44100(), &vec![]);
    image[0] = 0x51;
    assert_eq!(parse_wav(&image), Err(ContainerError::BadTag));
}

#[test]
fn parse_rejects_inconsistent_format_block() {
    // a bit depth the format block cannot describe
    let mut image = encode_wav(&mono_16_44100(), &vec![]);
    image[34] = 7;
    assert_eq!(parse_wav(&image), Err(ContainerError::BadFormat));

    // a byte-rate field that disagrees with the other fields
    let mut image2 = encode_wav(&mono_16_44100(), &vec![]);
    image2[28] = image2[28].wrapping_add(1);
    assert_eq!(parse_wav(&image2), Err(ContainerError::BadFormat));
}

#[test]
fn parse_rejects_wrong_length_fields() {
    // data-size field claims more than is present
    let mut image = encode_wav(&mono_16_44100(), &vec![1, 2, 3, 4]);
    image[40] = 6;
    assert_eq!(parse_wav(&image), Err(ContainerError::BadSize));

    // overall-size field off by one
    let mut image2 = encode_wav(&mono_16_44100(), &vec![1, 2, 3, 4]);
    image2[4] = image2[4].wrapping_add(1);
    assert_eq!(parse_wav(&image2), Err(ContainerError::BadSize));
}

#[test]
fn finalize_refuses_format_it_cannot_serialize() {
    let bad = StreamFormat { channel_count: 1, sample_rate: 44100, bits_per_sample: 12 };
    let buffer = CaptureBuffer::new();
    assert!(finalize_image(&bad, buffer).is_none());
}
