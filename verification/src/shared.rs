//! The shared-memory frame block read by the Media Foundation camera.
//!
//! Layout, all integers little-endian: magic at 0, version at 4, a 64-bit
//! sequence counter at 8, width at 16, height at 20, row stride at 24,
//! pixel byte count at 28, frame rate at 32, an active flag at 36, a
//! 64-bit heartbeat written by the reader at 40, and the BGRA pixels from
//! byte 64 on. The sequence counter is odd while a frame is being written.
use vstd::prelude::*;
use crate::bytes::{u32_le, le_value, splice, write_u32, read_u64, lemma_u32_le_round_trip, lemma_write_then_read};
use crate::config::{config_valid, lemma_valid_frame_bounds};
use crate::config::CameraConfig;

verus! {

pub const SHARED_FRAME_MAGIC: u32 = 0x4D43_5652;

pub const SHARED_FRAME_VERSION: u32 = 1;

pub const SHARED_FRAME_HEADER_SIZE: usize = 64;

pub const SHARED_FRAME_MAX_WIDTH: usize = 3840;

pub const SHARED_FRAME_MAX_HEIGHT: usize = 2160;

/// Size of the whole block: the header and the largest frame.
pub const SHARED_FRAME_FILE_SIZE: usize = SHARED_FRAME_HEADER_SIZE + SHARED_FRAME_MAX_WIDTH
    * SHARED_FRAME_MAX_HEIGHT * 4;

/// A generated frame does not have the size the configuration announces,
/// or does not fit in the block.
#[derive(Debug, Clone, Copy, PartialEq, Eq, Structural)]
pub enum FrameError {
    InvalidFrameSize,
}

impl FrameError {
    /// The message shown to the user.
    pub fn message(&self) -> (text: String)
        ensures
            text@ == "생성된 프레임 크기가 올바르지 않습니다."@,
    {
        "생성된 프레임 크기가 올바르지 않습니다.".to_owned()
    }
}

/// The shared block is smaller than the layout needs.
#[derive(Debug, Clone, Copy, PartialEq, Eq, Structural)]
pub enum SharedFileError {
    TooSmall,
}

impl SharedFileError {
    /// The message shown to the user.
    pub fn message(&self) -> (text: String)
        ensures
            text@ == "공유 프레임 파일 크기가 올바르지 않습니다. 다시 설치해 주세요."@,
    {
        "공유 프레임 파일 크기가 올바르지 않습니다. 다시 설치해 주세요.".to_owned()
    }
}

/// Accepts a shared block file of `file_len` bytes when it can hold the
/// header and the largest frame.
pub fn check_shared_file_size(file_len: u64) -> (checked: Result<(), SharedFileError>)
    ensures
        checked is Ok <==> file_len >= SHARED_FRAME_FILE_SIZE,
{
    if file_len < SHARED_FRAME_FILE_SIZE as u64 {
        Err(SharedFileError::TooSmall)
    } else {
        Ok(())
    }
}

/// Writes the magic number and the layout version at the start of the block.
pub fn stamp_header(map: &mut [u8])
    requires
        8 <= old(map)@.len(),
    ensures
        final(map)@ == splice(
            splice(old(map)@, 0, u32_le(SHARED_FRAME_MAGIC)),
            4,
            u32_le(SHARED_FRAME_VERSION),
        ),
{
    write_u32(map, 0, SHARED_FRAME_MAGIC);
    write_u32(map, 4, SHARED_FRAME_VERSION);
}

/// After stamping, the block reads back the magic number and the version.
pub proof fn lemma_stamp_read_back(map: Seq<u8>)
    requires
        8 <= map.len(),
    ensures
        ({
            let stamped = splice(splice(map, 0, u32_le(SHARED_FRAME_MAGIC)), 4, u32_le(SHARED_FRAME_VERSION));
            &&& le_value(stamped.subrange(0, 4)) == SHARED_FRAME_MAGIC
            &&& le_value(stamped.subrange(4, 8)) == SHARED_FRAME_VERSION
            &&& stamped.subrange(8, map.len() as int) == map.subrange(8, map.len() as int)
        }),
{
    let first = splice(map, 0, u32_le(SHARED_FRAME_MAGIC));
    let stamped = splice(first, 4, u32_le(SHARED_FRAME_VERSION));
    lemma_write_then_read(map, 0, SHARED_FRAME_MAGIC);
    lemma_write_then_read(first, 4, SHARED_FRAME_VERSION);
    assert(stamped.subrange(0, 4) =~= first.subrange(0, 4));
    assert(stamped.subrange(8, map.len() as int) =~= map.subrange(8, map.len() as int));
}

/// The number of pixel bytes that `config` announces.
pub open spec fn expected_frame_len(config: CameraConfig) -> int {
    config.width * config.height * 4
}

/// Checks that a frame of `frame_len` bytes matches `config` and fits in
/// the block, returning its length.
pub fn checked_frame_length(config: &CameraConfig, frame_len: usize) -> (length: Result<usize, FrameError>)
    requires
        expected_frame_len(*config) <= usize::MAX,
    ensures
        match length {
            Ok(n) => n == expected_frame_len(*config) && frame_len == n && n
                <= SHARED_FRAME_FILE_SIZE - SHARED_FRAME_HEADER_SIZE,
            Err(_) => frame_len != expected_frame_len(*config) || expected_frame_len(*config)
                > SHARED_FRAME_FILE_SIZE - SHARED_FRAME_HEADER_SIZE,
        },
{
    let expected = config.width as usize * config.height as usize * 4;
    if frame_len != expected || expected > SHARED_FRAME_FILE_SIZE - SHARED_FRAME_HEADER_SIZE {
        Err(FrameError::InvalidFrameSize)
    } else {
        Ok(expected)
    }
}

/// `value + step`, wrapped around at `2^64`.
pub open spec fn wrapped_add(value: u64, step: u64) -> u64 {
    ((value + step) % 0x1_0000_0000_0000_0000) as u64
}

/// The sequence value that marks a write in progress, given the current one.
pub open spec fn spec_writing_sequence(current: u64) -> u64 {
    if current % 2 == 0 {
        wrapped_add(current, 1)
    } else {
        wrapped_add(current, 2)
    }
}

/// The sequence value to store before a frame is written: the next odd
/// value after `current`.
pub fn writing_sequence(current: u64) -> (writing: u64)
    ensures
        writing == spec_writing_sequence(current),
{
    assert((current & 1 == 0) == (current % 2 == 0)) by (bit_vector);
    if current & 1 == 0 {
        current.wrapping_add(1)
    } else {
        current.wrapping_add(2)
    }
}

/// The sequence value to store once the frame is written.
pub fn published_sequence(writing: u64) -> (published: u64)
    ensures
        published == wrapped_add(writing, 1),
{
    writing.wrapping_add(1)
}

/// The sequence value to store when the camera stops: the even value
/// after `current | 1`.
pub fn inactive_sequence(current: u64) -> (inactive: u64)
    ensures
        inactive == wrapped_add((current | 1) as u64, 1),
{
    (current | 1).wrapping_add(1)
}

/// While a frame is written the sequence is odd; once it is published, or
/// the camera is marked inactive, it is even.
pub proof fn lemma_sequence_parity(current: u64)
    ensures
        spec_writing_sequence(current) % 2 == 1,
        wrapped_add(spec_writing_sequence(current), 1) % 2 == 0,
        wrapped_add((current | 1) as u64, 1) % 2 == 0,
{
    assert((current | 1) % 2 == 1) by (bit_vector);
}

/// The 24 header bytes at offset 16 that describe a frame of `length` bytes.
pub open spec fn frame_fields(config: CameraConfig, length: u32) -> Seq<u8> {
    u32_le(config.width) + u32_le(config.height) + u32_le((config.width * 4) as u32) + u32_le(length)
        + u32_le(config.fps) + u32_le(1)
}

/// The block after a frame has been written into it.
pub open spec fn with_frame(map: Seq<u8>, config: CameraConfig, frame: Seq<u8>) -> Seq<u8> {
    splice(splice(map, 16, frame_fields(config, frame.len() as u32)), SHARED_FRAME_HEADER_SIZE as int, frame)
}

/// Writes the frame description and the pixels of `frame` into the block.
pub fn write_frame_body(map: &mut [u8], config: &CameraConfig, frame: &[u8])
    requires
        SHARED_FRAME_FILE_SIZE <= old(map)@.len(),
        frame@.len() == expected_frame_len(*config),
        frame@.len() <= SHARED_FRAME_FILE_SIZE - SHARED_FRAME_HEADER_SIZE,
        config.width * 4 <= u32::MAX,
    ensures
        final(map)@ == with_frame(old(map)@, *config, frame@),
{
    let ghost o = map@;
    let length = frame.len();
    write_u32(map, 16, config.width);
    write_u32(map, 20, config.height);
    write_u32(map, 24, config.width * 4);
    write_u32(map, 28, length as u32);
    write_u32(map, 32, config.fps);
    write_u32(map, 36, 1);
    let ghost described = map@;
    proof {
        assert(described =~= splice(o, 16, frame_fields(*config, length as u32)));
    }
    let mut k: usize = 0;
    while k < length
        invariant
            length == frame@.len(),
            length <= SHARED_FRAME_FILE_SIZE - SHARED_FRAME_HEADER_SIZE,
            map@.len() == described.len(),
            SHARED_FRAME_FILE_SIZE <= described.len(),
            0 <= k <= length,
            forall|i: int|
                0 <= i < described.len() ==> map@[i] == if SHARED_FRAME_HEADER_SIZE <= i
                    < SHARED_FRAME_HEADER_SIZE + k {
                    frame@[i - SHARED_FRAME_HEADER_SIZE]
                } else {
                    described[i]
                },
        decreases length - k,
    {
        map[SHARED_FRAME_HEADER_SIZE + k] = frame[k];
        k = k + 1;
    }
    assert(map@ =~= with_frame(o, *config, frame@));
}

/// Reading the header back after a frame was written gives the frame's
/// description; the pixels read back are the frame; the identity, the
/// sequence counter and the heartbeat are left as they were.
pub proof fn lemma_frame_read_back(map: Seq<u8>, config: CameraConfig, frame: Seq<u8>)
    requires
        SHARED_FRAME_FILE_SIZE <= map.len(),
        frame.len() <= SHARED_FRAME_FILE_SIZE - SHARED_FRAME_HEADER_SIZE,
        config.width * 4 <= u32::MAX,
    ensures
        le_value(with_frame(map, config, frame).subrange(16, 20)) == config.width,
        le_value(with_frame(map, config, frame).subrange(20, 24)) == config.height,
        le_value(with_frame(map, config, frame).subrange(24, 28)) == config.width * 4,
        le_value(with_frame(map, config, frame).subrange(28, 32)) == frame.len(),
        le_value(with_frame(map, config, frame).subrange(32, 36)) == config.fps,
        le_value(with_frame(map, config, frame).subrange(36, 40)) == 1,
        with_frame(map, config, frame).subrange(64, 64 + frame.len() as int) == frame,
        with_frame(map, config, frame).subrange(0, 16) == map.subrange(0, 16),
        with_frame(map, config, frame).subrange(40, 64) == map.subrange(40, 64),
        with_frame(map, config, frame).len() == map.len(),
{
    let m = with_frame(map, config, frame);
    let fields = frame_fields(config, frame.len() as u32);
    lemma_u32_le_round_trip(config.width);
    lemma_u32_le_round_trip(config.height);
    lemma_u32_le_round_trip((config.width * 4) as u32);
    lemma_u32_le_round_trip(frame.len() as u32);
    lemma_u32_le_round_trip(config.fps);
    lemma_u32_le_round_trip(1);
    assert(m.subrange(16, 20) =~= u32_le(config.width));
    assert(m.subrange(20, 24) =~= u32_le(config.height));
    assert(m.subrange(24, 28) =~= u32_le((config.width * 4) as u32));
    assert(m.subrange(28, 32) =~= u32_le(frame.len() as u32));
    assert(m.subrange(32, 36) =~= u32_le(config.fps));
    assert(m.subrange(36, 40) =~= u32_le(1));
    assert(m.subrange(64, 64 + frame.len() as int) =~= frame);
    assert(m.subrange(0, 16) =~= map.subrange(0, 16));
    assert(m.subrange(40, 64) =~= map.subrange(40, 64));
}

/// Clears the active flag.
pub fn mark_inactive(map: &mut [u8])
    requires
        40 <= old(map)@.len(),
    ensures
        final(map)@ == splice(old(map)@, 36, u32_le(0)),
{
    write_u32(map, 36, 0);
}

/// The heartbeat counter that the reading side advances while it uses the
/// camera.
pub fn heartbeat(map: &[u8]) -> (beat: u64)
    requires
        48 <= map@.len(),
    ensures
        beat == le_value(map@.subrange(40, 48)),
{
    read_u64(map, 40)
}

/// The frames of a configuration that passes validation fit in the block,
/// so writing one of the announced size is never refused.
pub proof fn lemma_valid_frames_fit(config: CameraConfig)
    requires
        config_valid(config),
    ensures
        expected_frame_len(config) <= SHARED_FRAME_FILE_SIZE - SHARED_FRAME_HEADER_SIZE,
        config.width * 4 <= u32::MAX,
{
    lemma_valid_frame_bounds(config);
}

} // verus!
