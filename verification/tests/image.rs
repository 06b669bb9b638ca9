use clipboard_transport::{ClipboardError, ErrorKind, ImageBuffer};

#[test]
fn image_of_two_pixels() {
    let bytes = vec![255, 0, 0, 255, 0, 255, 0, 255];
    let image = ImageBuffer::new(2, 1, bytes.clone()).unwrap();
    assert_eq!(image.width(), 2);
    assert_eq!(image.height(), 1);
    assert_eq!(image.bytes(), &bytes);
    assert_eq!(image.into_bytes(), bytes);
}

#[test]
fn image_with_too_few_bytes_is_refused() {
    let error = ImageBuffer::new(2, 1, vec![0; 7]).unwrap_err();
    assert_eq!(error.kind(), ErrorKind::PlatformFailure);
    assert_eq!(error.message(), "image data does not match its dimensions");
}

#[test]
fn image_with_too_many_bytes_is_refused() {
    assert_eq!(
        ImageBuffer::new(2, 1, vec![0; 9]),
        Err(ClipboardError::PlatformFailure(
            "image data does not match its dimensions".to_string()
        ))
    );
}

#[test]
fn image_with_bytes_for_three_channels_is_refused() {
    assert!(ImageBuffer::new(2, 2, vec![0; 12]).is_err());
}

#[test]
fn image_without_pixels() {
    let image = ImageBuffer::new(0, 0, Vec::new()).unwrap();
    assert_eq!(image.width(), 0);
    assert_eq!(image.height(), 0);
    assert!(image.bytes().is_empty());
    assert!(ImageBuffer::new(0, 5, Vec::new()).is_ok());
    assert!(ImageBuffer::new(5, 0, vec![0; 4]).is_err());
}

#[test]
fn image_whose_size_passes_every_integer() {
    assert!(ImageBuffer::new(u32::MAX, u32::MAX, vec![0; 4]).is_err());
    assert!(ImageBuffer::new(u32::MAX, u32::MAX, Vec::new()).is_err());
    assert!(ImageBuffer::new(1 << 31, 1 << 31, Vec::new()).is_err());
    assert!(ImageBuffer::new(1 << 16, 1 << 16, Vec::new()).is_err());
}

#[test]
fn image_from_a_platform() {
    let image = ImageBuffer::from_platform(3, 2, vec![7; 24]).unwrap();
    assert_eq!(image.width(), 3);
    assert_eq!(image.height(), 2);
    assert_eq!(image.bytes().len(), 24);
}

#[test]
fn image_from_a_platform_with_wrong_length_is_refused() {
    let error = ImageBuffer::from_platform(3, 2, vec![7; 23]).unwrap_err();
    assert_eq!(error.kind(), ErrorKind::PlatformFailure);
}

#[test]
fn image_from_a_platform_with_a_side_beyond_32_bits_is_refused() {
    let wide = (u32::MAX as usize).wrapping_add(1);
    if wide != 0 {
        assert!(ImageBuffer::from_platform(wide, 0, Vec::new()).is_err());
        assert!(ImageBuffer::from_platform(0, wide, Vec::new()).is_err());
    }
    assert!(ImageBuffer::from_platform(u32::MAX as usize, 0, Vec::new()).is_ok());
}

#[test]
fn image_copy_is_equal() {
    let image = ImageBuffer::new(1, 2, vec![1, 2, 3, 4, 5, 6, 7, 8]).unwrap();
    let copy = image.clone();
    assert_eq!(copy, image);
    assert_eq!(copy.into_bytes(), vec![1, 2, 3, 4, 5, 6, 7, 8]);
}

#[test]
fn error_kinds_and_messages() {
    let all = [
        (ErrorKind::PlatformFailure, ClipboardError::PlatformFailure("a".to_string())),
        (ErrorKind::SubprocessSpawnFailed, ClipboardError::SubprocessSpawnFailed("b".to_string())),
        (
            ErrorKind::SubprocessIoUnavailable,
            ClipboardError::SubprocessIoUnavailable("c".to_string()),
        ),
        (ErrorKind::SubprocessExitFailure, ClipboardError::SubprocessExitFailure("d".to_string())),
        (ErrorKind::UnsupportedOperation, ClipboardError::UnsupportedOperation("e".to_string())),
    ];
    for (kind, error) in all {
        assert_eq!(error.kind(), kind);
        assert_eq!(ClipboardError::new(kind, error.message().to_string()), error);
    }
    assert_eq!(ClipboardError::UnsupportedOperation("e".to_string()).message(), "e");
}
