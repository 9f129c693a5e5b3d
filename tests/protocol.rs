use ip_display_client::{FrameData, FrameFormat, HeaderFault, PacketHeader, ProtocolError, HEADER_SIZE, MAGIC, VERSION};

fn header(width: u32, height: u32, format: FrameFormat, size: u32) -> PacketHeader {
    PacketHeader {
        magic: MAGIC,
        version: VERSION,
        width,
        height,
        format,
        timestamp: 0x0102_0304_0506_0708,
        size,
        reserved: 0xdead_beef,
    }
}

#[test]
fn test_header_serialization() {
    let header = PacketHeader::new(1920, 1080, FrameFormat::Rgba32, 1024);
    let bytes = header.to_bytes();
    let parsed = PacketHeader::from_bytes(&bytes).unwrap();

    assert_eq!(header.magic, parsed.magic);
    assert_eq!(header.width, parsed.width);
    assert_eq!(header.height, parsed.height);
    assert_eq!(header.format, parsed.format);
    assert_eq!(header.size, parsed.size);
}

#[test]
fn test_frame_validation() {
    let header = PacketHeader::new(1920, 1080, FrameFormat::Rgba32, 1920 * 1080 * 4);
    let data = vec![0u8; 1920 * 1080 * 4];
    let frame = FrameData::new(header, data).unwrap();

    assert!(frame.validate().is_ok());
}

#[test]
fn test_rgb24_to_rgba32() {
    let header = PacketHeader::new(2, 2, FrameFormat::Rgb24, 12);
    let data = vec![255, 0, 0, 0, 255, 0, 0, 0, 255, 255, 255, 255];
    let frame = FrameData::new(header, data).unwrap();

    let rgba = frame.to_rgba32().unwrap();
    assert_eq!(rgba.len(), 16);
    assert_eq!(rgba[0..4], [255, 0, 0, 255]);
    assert_eq!(rgba[4..8], [0, 255, 0, 255]);
}

#[test]
fn new_header_carries_protocol_constants() {
    let h = PacketHeader::new(640, 480, FrameFormat::H265, 99);
    assert_eq!(h.magic, 0x49504453);
    assert_eq!(h.version, 1);
    assert_eq!(h.reserved, 0);
    assert_eq!((h.width, h.height, h.format, h.size), (640, 480, FrameFormat::H265, 99));
}

#[test]
fn header_encodes_big_endian_in_field_order() {
    let h = header(2, 3, FrameFormat::Rgb24, 18);
    let bytes = h.to_bytes();
    assert_eq!(bytes.len(), HEADER_SIZE);
    assert_eq!(
        bytes,
        vec![
            0x49, 0x50, 0x44, 0x53, 0, 0, 0, 1, 0, 0, 0, 2, 0, 0, 0, 3, 0, 0, 0, 1, 1, 2, 3, 4, 5,
            6, 7, 8, 0, 0, 0, 18, 0xde, 0xad, 0xbe, 0xef,
        ]
    );
}

#[test]
fn round_trip_keeps_every_field() {
    for format in [FrameFormat::Rgba32, FrameFormat::Rgb24, FrameFormat::H264, FrameFormat::H265] {
        let h = PacketHeader {
            magic: MAGIC,
            version: VERSION,
            width: u32::MAX,
            height: 0,
            format,
            timestamp: u64::MAX,
            size: 7,
            reserved: 0x8000_0001,
        };
        assert_eq!(PacketHeader::from_bytes(&h.to_bytes()), Ok(h));
    }
}

#[test]
fn decode_ignores_bytes_after_the_header() {
    let h = header(4, 4, FrameFormat::Rgba32, 64);
    let mut bytes = h.to_bytes();
    bytes.extend_from_slice(&[9, 9, 9]);
    assert_eq!(PacketHeader::from_bytes(&bytes), Ok(h));
}

#[test]
fn short_input_is_a_length_error() {
    let bytes = header(4, 4, FrameFormat::Rgba32, 64).to_bytes();
    assert_eq!(PacketHeader::from_bytes(&bytes[..35]), Err(ProtocolError::TooShort(35)));
    assert_eq!(PacketHeader::from_bytes(&[]), Err(ProtocolError::TooShort(0)));
}

#[test]
fn wrong_magic_is_malformed_whatever_else() {
    let mut h = header(0, 9999, FrameFormat::H264, 0);
    h.magic = 0x1234_5678;
    h.version = 42;
    let expected = Err(ProtocolError::Malformed(HeaderFault::Magic(0x1234_5678)));
    assert_eq!(PacketHeader::from_bytes(&h.to_bytes()), expected);
    assert_eq!(h.validate(), Err(ProtocolError::Malformed(HeaderFault::Magic(0x1234_5678))));
}

#[test]
fn wrong_version_is_malformed() {
    let mut h = header(2, 2, FrameFormat::Rgb24, 12);
    h.version = 2;
    assert_eq!(
        PacketHeader::from_bytes(&h.to_bytes()),
        Err(ProtocolError::Malformed(HeaderFault::Version(2)))
    );
    assert_eq!(h.validate(), Err(ProtocolError::Malformed(HeaderFault::Version(2))));
}

#[test]
fn unknown_format_tag_is_malformed() {
    let mut bytes = header(2, 2, FrameFormat::Rgb24, 12).to_bytes();
    bytes[19] = 4;
    assert_eq!(
        PacketHeader::from_bytes(&bytes),
        Err(ProtocolError::Malformed(HeaderFault::Format(4)))
    );
    assert_eq!(FrameFormat::from_tag(3), Ok(FrameFormat::H265));
    assert_eq!(FrameFormat::H264.tag(), 2);
}

#[test]
fn zero_width_or_tall_height_is_a_bounds_error() {
    let h = header(0, 100, FrameFormat::Rgba32, 0);
    assert_eq!(h.validate(), Err(ProtocolError::Bounds { width: 0, height: 100 }));
    let h = header(100, 7681, FrameFormat::Rgba32, 0);
    assert_eq!(h.validate(), Err(ProtocolError::Bounds { width: 100, height: 7681 }));
    let h = header(7681, 100, FrameFormat::Rgba32, 0);
    assert_eq!(h.validate(), Err(ProtocolError::Bounds { width: 7681, height: 100 }));
    let h = header(100, 0, FrameFormat::Rgba32, 0);
    assert_eq!(h.validate(), Err(ProtocolError::Bounds { width: 100, height: 0 }));
}

#[test]
fn largest_dimensions_are_accepted() {
    let h = header(7680, 4320, FrameFormat::Rgba32, 0);
    assert_eq!(h.validate(), Ok(()));
    let h = header(7680, 4321, FrameFormat::Rgba32, 0);
    assert_eq!(h.validate(), Err(ProtocolError::Bounds { width: 7680, height: 4321 }));
}

#[test]
fn info_packet_is_size_zero() {
    assert!(header(1, 1, FrameFormat::Rgba32, 0).is_info_packet());
    assert!(!header(1, 1, FrameFormat::Rgba32, 4).is_info_packet());
}

#[test]
fn payload_must_match_declared_size() {
    let h = header(2, 2, FrameFormat::Rgb24, 12);
    let r = FrameData::new(h, vec![0; 11]);
    assert_eq!(r.err(), Some(ProtocolError::Integrity { expected: 12, actual: 11 }));
}

#[test]
fn raw_payload_must_match_pixel_count() {
    let h = header(2, 2, FrameFormat::Rgba32, 12);
    let frame = FrameData::new(h, vec![0; 12]).unwrap();
    assert_eq!(frame.expected_size(), 16);
    assert_eq!(frame.validate(), Err(ProtocolError::Integrity { expected: 16, actual: 12 }));
}

#[test]
fn codec_payload_has_no_fixed_size() {
    let h = header(1920, 1080, FrameFormat::H264, 5);
    let frame = FrameData::new(h, vec![1, 2, 3, 4, 5]).unwrap();
    assert_eq!(frame.expected_size(), 5);
    assert_eq!(frame.validate(), Ok(()));
    assert_eq!(frame.to_rgba32(), Err(ProtocolError::UnsupportedFormat(FrameFormat::H264)));
}

#[test]
fn frame_validation_checks_header_first() {
    let h = header(0, 2, FrameFormat::Rgb24, 3);
    let frame = FrameData::new(h, vec![0; 3]).unwrap();
    assert_eq!(frame.validate(), Err(ProtocolError::Bounds { width: 0, height: 2 }));
}

#[test]
fn rgba_payload_is_copied_unchanged() {
    let h = header(1, 2, FrameFormat::Rgba32, 8);
    let frame = FrameData::new(h, vec![1, 2, 3, 4, 5, 6, 7, 8]).unwrap();
    assert_eq!(frame.to_rgba32(), Ok(vec![1, 2, 3, 4, 5, 6, 7, 8]));
}

#[test]
fn rgb_expansion_is_opaque_every_fourth_byte() {
    let data: Vec<u8> = (0..30u8).collect();
    let h = header(5, 2, FrameFormat::Rgb24, 30);
    let rgba = FrameData::new(h, data).unwrap().to_rgba32().unwrap();
    assert_eq!(rgba.len(), 40);
    for (i, b) in rgba.iter().enumerate() {
        if i % 4 == 3 {
            assert_eq!(*b, 255);
        } else {
            assert_eq!(*b as usize, (i / 4) * 3 + i % 4);
        }
    }
}

#[test]
fn only_stream_errors_are_fatal() {
    assert!(ProtocolError::Io.is_fatal());
    assert!(ProtocolError::ConnectionClosed.is_fatal());
    assert!(!ProtocolError::Bounds { width: 0, height: 0 }.is_fatal());
    assert!(!ProtocolError::UnsupportedFormat(FrameFormat::H265).is_fatal());
    assert!(!ProtocolError::NotConnected.is_fatal());
}
