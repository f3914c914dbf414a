use rust_virtual_camera::bytes::{read_u32, read_u64, write_u32};
use rust_virtual_camera::config::CameraConfig;
use rust_virtual_camera::shared::{
    check_shared_file_size, checked_frame_length, heartbeat, inactive_sequence, mark_inactive,
    published_sequence, stamp_header, write_frame_body, writing_sequence, FrameError,
    SharedFileError, SHARED_FRAME_FILE_SIZE, SHARED_FRAME_HEADER_SIZE,
};

#[test]
fn u32_is_written_little_endian_and_read_back() {
    let mut bytes = vec![9u8; 8];
    write_u32(&mut bytes, 2, 0x4D43_5652);
    assert_eq!(bytes, vec![9, 9, 0x52, 0x56, 0x43, 0x4D, 9, 9]);
    assert_eq!(read_u32(&bytes, 2), 0x4D43_5652);
    let words = [1u8, 2, 3, 4, 5, 6, 7, 8];
    assert_eq!(read_u64(&words, 0), 0x0807_0605_0403_0201);
}

#[test]
fn header_is_stamped_with_magic_and_version() {
    let mut block = vec![0u8; 16];
    stamp_header(&mut block);
    assert_eq!(&block[..8], &[0x52, 0x56, 0x43, 0x4D, 1, 0, 0, 0]);
    assert_eq!(&block[8..], &[0; 8]);
}

#[test]
fn frame_length_must_match_and_fit() {
    let mut config = CameraConfig::default();
    config.width = 4;
    config.height = 2;
    assert_eq!(checked_frame_length(&config, 32), Ok(32));
    assert_eq!(checked_frame_length(&config, 31), Err(FrameError::InvalidFrameSize));
    config.width = 3840;
    config.height = 2160;
    assert_eq!(checked_frame_length(&config, 3840 * 2160 * 4), Ok(3840 * 2160 * 4));
    config.height = 2164;
    assert_eq!(
        checked_frame_length(&config, 3840 * 2164 * 4),
        Err(FrameError::InvalidFrameSize)
    );
    assert_eq!(FrameError::InvalidFrameSize.message(), "생성된 프레임 크기가 올바르지 않습니다.");
}

#[test]
fn sequence_is_odd_while_writing_and_even_after() {
    assert_eq!(writing_sequence(0), 1);
    assert_eq!(writing_sequence(4), 5);
    assert_eq!(writing_sequence(5), 7);
    assert_eq!(writing_sequence(u64::MAX), 1);
    assert_eq!(writing_sequence(u64::MAX - 1), u64::MAX);
    assert_eq!(published_sequence(7), 8);
    assert_eq!(published_sequence(u64::MAX), 0);
    assert_eq!(inactive_sequence(4), 6);
    assert_eq!(inactive_sequence(5), 6);
    assert_eq!(inactive_sequence(u64::MAX), 0);
}

#[test]
fn frame_body_is_read_back() {
    let mut config = CameraConfig::default();
    config.width = 2;
    config.height = 1;
    config.fps = 24;
    let mut block = vec![0xAAu8; SHARED_FRAME_FILE_SIZE];
    stamp_header(&mut block);
    let frame = [1, 2, 3, 4, 5, 6, 7, 8];
    write_frame_body(&mut block, &config, &frame);
    assert_eq!(read_u32(&block, 0), 0x4D43_5652);
    assert_eq!(read_u32(&block, 16), 2);
    assert_eq!(read_u32(&block, 20), 1);
    assert_eq!(read_u32(&block, 24), 8);
    assert_eq!(read_u32(&block, 28), 8);
    assert_eq!(read_u32(&block, 32), 24);
    assert_eq!(read_u32(&block, 36), 1);
    assert_eq!(&block[8..16], &[0xAA; 8]);
    assert_eq!(&block[40..64], &[0xAA; 24]);
    assert_eq!(&block[SHARED_FRAME_HEADER_SIZE..SHARED_FRAME_HEADER_SIZE + 8], &frame);
    assert_eq!(block[SHARED_FRAME_HEADER_SIZE + 8], 0xAA);
    mark_inactive(&mut block);
    assert_eq!(read_u32(&block, 36), 0);
}

#[test]
fn heartbeat_reads_bytes_forty_to_forty_eight() {
    let mut block = vec![0u8; 64];
    block[40] = 0x10;
    block[47] = 0x01;
    assert_eq!(heartbeat(&block), 0x0100_0000_0000_0010);
}

#[test]
fn shared_file_must_hold_the_largest_frame() {
    assert_eq!(SHARED_FRAME_FILE_SIZE, 64 + 3840 * 2160 * 4);
    assert_eq!(check_shared_file_size(SHARED_FRAME_FILE_SIZE as u64), Ok(()));
    assert_eq!(
        check_shared_file_size(SHARED_FRAME_FILE_SIZE as u64 - 1),
        Err(SharedFileError::TooSmall)
    );
}
