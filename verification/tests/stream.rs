use sim86::stream::{ByteStream, StreamError};
use sim86::word::{as_signed, as_unsigned, low_byte, sign_extend8, sign_extend8_u16, word_le};

#[test]
fn read_byte_advances_and_fails_at_the_end() {
    let mut stream = ByteStream::new(vec![0x12, 0x34]);
    assert!(stream.has_more());
    assert_eq!(stream.read_byte(), Ok(0x12));
    assert_eq!(stream.read_byte(), Ok(0x34));
    assert!(!stream.has_more());
    assert_eq!(stream.read_byte(), Err(StreamError::UnexpectedEndOfStream));
    assert_eq!(stream.stream_position(), 2);
}

#[test]
fn read_word_is_little_endian() {
    let mut stream = ByteStream::new(vec![0xcd, 0xab]);
    assert_eq!(stream.read_word(), Ok(0xabcd));
    assert_eq!(stream.stream_position(), 2);
}

#[test]
fn read_word_fails_without_moving_when_one_byte_remains() {
    let mut stream = ByteStream::new(vec![0xcd]);
    assert_eq!(stream.read_word(), Err(StreamError::UnexpectedEndOfStream));
    assert_eq!(stream.stream_position(), 0);
}

#[test]
fn one_byte_immediates_are_sign_extended() {
    let mut stream = ByteStream::new(vec![0xfe, 0x05]);
    assert_eq!(stream.read_immediate(true), Ok(-2));
    assert_eq!(stream.read_immediate(true), Ok(5));
}

#[test]
fn two_byte_immediates_are_little_endian_signed_words() {
    let mut stream = ByteStream::new(vec![0x05, 0x00, 0xff, 0xff]);
    assert_eq!(stream.read_immediate(false), Ok(5));
    assert_eq!(stream.read_immediate(false), Ok(-1));
}

#[test]
fn seek_relative_moves_both_ways_and_rejects_negative_targets() {
    let mut stream = ByteStream::new(vec![0; 16]);
    assert_eq!(stream.seek_relative(10), Ok(()));
    assert_eq!(stream.stream_position(), 10);
    assert_eq!(stream.seek_relative(-7), Ok(()));
    assert_eq!(stream.stream_position(), 3);
    assert_eq!(stream.seek_relative(-4), Err(StreamError::SeekOutOfRange));
    assert_eq!(stream.stream_position(), 3);
}

#[test]
fn a_forward_seek_may_pass_the_end() {
    let mut stream = ByteStream::new(vec![0; 4]);
    assert_eq!(stream.seek_relative(9), Ok(()));
    assert_eq!(stream.stream_position(), 9);
    assert!(!stream.has_more());
    assert_eq!(stream.read_byte(), Err(StreamError::UnexpectedEndOfStream));
}

#[test]
fn word_helpers_match_twos_complement() {
    assert_eq!(word_le(0x34, 0x12), 0x1234);
    assert_eq!(sign_extend8(0x7f), 127);
    assert_eq!(sign_extend8(0x80), -128);
    assert_eq!(sign_extend8(0xfe), -2);
    assert_eq!(sign_extend8_u16(0xfe), 0xfffe);
    assert_eq!(sign_extend8_u16(0x05), 0x0005);
    assert_eq!(as_signed(0x8000), i16::MIN);
    assert_eq!(as_signed(0x7fff), i16::MAX);
    assert_eq!(as_signed(0xffff), -1);
    assert_eq!(as_unsigned(-1), 0xffff);
    assert_eq!(as_unsigned(0x1234), 0x1234);
    assert_eq!(low_byte(-1), 0xff);
    assert_eq!(low_byte(0x1234), 0x34);
    assert_eq!(low_byte(-0x1234), 0xcc);
}
