use std::io::{Read, Write};

use bz2::compressor::BZ2Compressor;
use bz2::decompressor::BZ2Decompressor;
use bz2::error::{Bz2Error, Late};

fn sample(len: usize, seed: u32) -> Vec<u8> {
    let mut state = seed;
    let mut bytes = Vec::with_capacity(len);
    for _ in 0..len {
        state = state.wrapping_mul(1664525).wrapping_add(1013904223);
        bytes.push((state >> 24) as u8);
    }
    bytes
}

fn text(len: usize) -> Vec<u8> {
    let line = b"the quick brown fox jumps over the lazy dog\n";
    let mut bytes = Vec::with_capacity(len);
    while bytes.len() < len {
        bytes.push(line[bytes.len() % line.len()]);
    }
    bytes
}

fn compressor(level: i32) -> BZ2Compressor {
    match BZ2Compressor::new(Some(level)) {
        Ok(session) => session,
        Err(e) => panic!("level {} refused: {:?}", level, e),
    }
}

fn compress_in_chunks(data: &[u8], level: i32, chunk: usize) -> Vec<u8> {
    let mut session = compressor(level);
    let mut stream = Vec::new();
    for piece in data.chunks(chunk) {
        stream.extend(session.compress(piece).unwrap());
    }
    stream.extend(session.flush().unwrap());
    stream
}

fn decompress_in_chunks(stream: &[u8], chunk: usize) -> Vec<u8> {
    let mut session = BZ2Decompressor::new();
    let mut data = Vec::new();
    for piece in stream.chunks(chunk) {
        data.extend(session.decompress(piece, None).unwrap());
    }
    assert!(session.eof());
    data
}

#[test]
fn round_trip_all_at_once() {
    let data = text(5000);
    let stream = compress_in_chunks(&data, 9, data.len());
    assert_eq!(decompress_in_chunks(&stream, stream.len()), data);
}

#[test]
fn round_trip_byte_by_byte() {
    let data = text(3000);
    let stream = compress_in_chunks(&data, 9, 1);
    assert_eq!(decompress_in_chunks(&stream, 1), data);
}

#[test]
fn round_trip_many_blocks() {
    let data = sample(350_000, 7);
    let stream = compress_in_chunks(&data, 1, 4096);
    assert_eq!(decompress_in_chunks(&stream, 1000), data);
}

#[test]
fn chunking_does_not_change_the_stream() {
    let data = sample(250_000, 11);
    let whole = compress_in_chunks(&data, 1, data.len());
    let small = compress_in_chunks(&data, 1, 1);
    let odd = compress_in_chunks(&data, 1, 7919);
    assert_eq!(whole.len(), small.len());
    assert_eq!(whole, small);
    assert_eq!(whole, odd);
    assert_eq!(decompress_in_chunks(&whole, 1), data);
    assert_eq!(decompress_in_chunks(&small, 333), data);
    assert_eq!(decompress_in_chunks(&odd, odd.len()), data);
}

#[test]
fn uneven_chunks_on_both_sides() {
    let data = sample(260_000, 99);
    let whole = compress_in_chunks(&data, 1, data.len());
    let mut sizes = 12345u32;
    let mut session = compressor(1);
    let mut stream = Vec::new();
    let mut at = 0;
    while at < data.len() {
        sizes = sizes.wrapping_mul(1664525).wrapping_add(1013904223);
        let len = ((sizes >> 16) as usize % 20_000).min(data.len() - at);
        stream.extend(session.compress(&data[at..at + len]).unwrap());
        at += len;
    }
    stream.extend(session.flush().unwrap());
    assert_eq!(stream, whole);
    let mut reader = BZ2Decompressor::new();
    let mut back = Vec::new();
    let mut at = 0;
    while at < stream.len() {
        sizes = sizes.wrapping_mul(1664525).wrapping_add(1013904223);
        let len = ((sizes >> 16) as usize % 5_000).min(stream.len() - at);
        back.extend(reader.decompress(&stream[at..at + len], None).unwrap());
        at += len;
    }
    assert!(reader.eof());
    assert_eq!(back, data);
}

#[test]
fn the_codec_reads_what_the_compressor_writes() {
    let data = sample(150_000, 41);
    for level in [1, 6, 9] {
        let stream = compress_in_chunks(&data, level, 3001);
        let mut back = Vec::new();
        bzip2::read::BzDecoder::new(&stream[..]).read_to_end(&mut back).unwrap();
        assert_eq!(back, data);
    }
}

#[test]
fn the_decompressor_reads_what_the_codec_writes() {
    let data = sample(150_000, 43);
    let mut writer = bzip2::write::BzEncoder::new(Vec::new(), bzip2::Compression::new(3));
    writer.write_all(&data).unwrap();
    let stream = writer.finish().unwrap();
    assert_eq!(decompress_in_chunks(&stream, 777), data);
    assert_eq!(compress_in_chunks(&data, 3, 5000), stream);
}

#[test]
fn every_limit_is_kept_exactly() {
    let data = text(40_000);
    let stream = compress_in_chunks(&data, 9, data.len());
    for limit in [1usize, 7, 100, 8191, 8192, 8193, 16_384, 39_999, 40_000, 40_001] {
        let mut session = BZ2Decompressor::new();
        let mut back = session.decompress(&stream, Some(limit as i32)).unwrap();
        assert_eq!(back.len(), limit.min(data.len()));
        let mut calls = 1;
        while !session.eof() {
            let part = session.decompress(b"", Some(limit as i32)).unwrap();
            assert_eq!(part.len(), limit.min(data.len() - back.len()));
            back.extend(part);
            calls += 1;
            assert!(calls <= data.len() / limit + 2);
            if limit == 1 && calls == 300 {
                break;
            }
        }
        if limit > 1 {
            assert_eq!(back, data);
            assert!(!session.needs_input());
        } else {
            assert_eq!(back, data[..300].to_vec());
        }
    }
}

#[test]
fn compress_returns_blocks_before_the_flush() {
    let data = sample(350_000, 3);
    let mut session = compressor(1);
    let early = session.compress(&data).unwrap();
    assert!(early.len() > 200_000);
    assert_eq!(&early[..4], b"BZh1");
    let late = session.flush().unwrap();
    assert!(!late.is_empty());
    let mut stream = early;
    stream.extend(late);
    assert_eq!(decompress_in_chunks(&stream, 5000), data);
}

#[test]
fn small_input_is_held_back_until_the_flush() {
    let mut session = compressor(9);
    assert_eq!(session.compress(b"hello").unwrap(), Vec::<u8>::new());
    let stream = session.flush().unwrap();
    assert_eq!(&stream[..4], b"BZh9");
    assert_eq!(decompress_in_chunks(&stream, stream.len()), b"hello".to_vec());
}

#[test]
fn flush_twice_is_refused() {
    let mut session = compressor(5);
    session.compress(b"abc").unwrap();
    assert!(!session.flushed());
    assert!(session.flush().is_ok());
    assert!(session.flushed());
    assert_eq!(session.flush(), Err(Bz2Error::StateError(Late::Flush)));
    assert_eq!(session.flush(), Err(Bz2Error::StateError(Late::Flush)));
    assert!(session.flushed());
}

#[test]
fn compress_after_flush_is_refused() {
    let mut session = compressor(5);
    session.flush().unwrap();
    assert_eq!(session.compress(b"abc"), Err(Bz2Error::StateError(Late::Compress)));
    assert_eq!(session.compress(b""), Err(Bz2Error::StateError(Late::Compress)));
    assert_eq!(session.flush(), Err(Bz2Error::StateError(Late::Flush)));
}

#[test]
fn levels_outside_one_to_nine_are_refused() {
    for level in [0, 10, -1, 100, i32::MIN, i32::MAX] {
        match BZ2Compressor::new(Some(level)) {
            Ok(_) => panic!("level {} accepted", level),
            Err(e) => assert_eq!(e, Bz2Error::ConfigError),
        }
    }
}

#[test]
fn levels_one_to_nine_are_accepted() {
    for level in 1..=9 {
        let mut session = compressor(level);
        let stream = session.flush().unwrap();
        assert_eq!(stream[3], b'0' + level as u8);
    }
}

#[test]
fn default_level_is_nine() {
    let mut session = match BZ2Compressor::new(None) {
        Ok(session) => session,
        Err(e) => panic!("{:?}", e),
    };
    let stream = session.flush().unwrap();
    assert_eq!(&stream[..4], b"BZh9");
}

#[test]
fn empty_input_gives_a_valid_stream() {
    let mut session = compressor(9);
    assert_eq!(session.compress(b""), Ok(Vec::new()));
    assert_eq!(session.compress(b""), Ok(Vec::new()));
    let stream = session.flush().unwrap();
    assert_eq!(
        stream,
        vec![0x42, 0x5a, 0x68, 0x39, 0x17, 0x72, 0x45, 0x38, 0x50, 0x90, 0, 0, 0, 0]
    );
    let mut reader = BZ2Decompressor::new();
    assert_eq!(reader.decompress(&stream, None), Ok(Vec::new()));
    assert!(reader.eof());
    assert!(reader.unused_data().is_empty());
}

#[test]
fn a_hundred_thousand_zeros_come_back_in_one_call() {
    let mut writer = compressor(9);
    let mut stream = writer.compress(&[0u8; 100000]).unwrap();
    stream.extend(writer.flush().unwrap());
    let mut session = BZ2Decompressor::new();
    assert_eq!(session.decompress(&stream, None), Ok(vec![0u8; 100000]));
    assert!(session.eof());
    assert!(session.unused_data().is_empty());
    assert!(!session.needs_input());
}

#[test]
fn the_first_byte_of_a_stream_gives_nothing_yet() {
    let mut session = BZ2Decompressor::new();
    assert_eq!(session.decompress(b"B", None), Ok(Vec::new()));
    assert!(!session.eof());
    assert!(session.unused_data().is_empty());
    assert!(session.needs_input());
}

#[test]
fn three_bytes_after_hello_are_kept() {
    let mut writer = compressor(9);
    let mut fed = writer.compress(b"hello").unwrap();
    fed.extend(writer.flush().unwrap());
    fed.extend_from_slice(b"xyz");
    let mut session = BZ2Decompressor::new();
    assert_eq!(session.decompress(&fed, None), Ok(b"hello".to_vec()));
    assert!(session.eof());
    assert_eq!(session.unused_data(), b"xyz");
    assert!(!session.needs_input());
}

#[test]
fn four_wrong_bytes_are_a_corrupt_stream() {
    let mut session = BZ2Decompressor::new();
    assert_eq!(session.decompress(b"XXXX", None), Err(Bz2Error::CorruptStreamError));
    assert!(!session.eof());
    assert!(!session.needs_input());
    assert!(session.unused_data().is_empty());
}

#[test]
fn a_wrong_header_is_refused_at_its_first_wrong_byte() {
    for start in [&b"X"[..], b"BX", b"BZx", b"BZh0", b"BZh:", b"bzh9", b"BZH9", b"\x00BZh9"] {
        let mut session = BZ2Decompressor::new();
        assert_eq!(session.decompress(start, None), Err(Bz2Error::CorruptStreamError));
        assert_eq!(session.decompress(b"", None), Err(Bz2Error::CorruptStreamError));
        let mut bounded = BZ2Decompressor::new();
        assert_eq!(bounded.decompress(start, Some(1)), Err(Bz2Error::CorruptStreamError));
    }
}

#[test]
fn a_right_header_is_taken() {
    for start in [&b"B"[..], b"BZ", b"BZh", b"BZh1", b"BZh5", b"BZh9"] {
        let mut session = BZ2Decompressor::new();
        assert_eq!(session.decompress(start, None), Ok(Vec::new()));
        assert!(session.needs_input());
        assert!(!session.eof());
    }
}

#[test]
fn a_wrong_header_waits_behind_a_limit_of_zero() {
    let mut session = BZ2Decompressor::new();
    assert_eq!(session.decompress(b"XXXX", Some(0)), Ok(Vec::new()));
    assert!(!session.needs_input());
    assert_eq!(session.decompress(b"", None), Err(Bz2Error::CorruptStreamError));
}

#[test]
fn a_prefix_of_a_stream_gives_all_it_holds() {
    let data = sample(350_000, 77);
    let stream = compress_in_chunks(&data, 1, data.len());
    let cut = stream.len() * 2 / 3;
    let mut session = BZ2Decompressor::new();
    let first = session.decompress(&stream[..cut], None).unwrap();
    assert!(first.len() > 8192);
    assert_eq!(first, data[..first.len()].to_vec());
    assert!(session.needs_input());
    assert!(!session.eof());
    assert_eq!(session.decompress(b"", None), Ok(Vec::new()));
    let second = session.decompress(&stream[cut..], None).unwrap();
    assert_eq!(second, data[first.len()..].to_vec());
    assert!(session.eof());
}

#[test]
fn a_new_decompressor_needs_input() {
    let session = BZ2Decompressor::new();
    assert!(session.needs_input());
    assert!(!session.eof());
    assert!(session.unused_data().is_empty());
}

#[test]
fn needs_input_until_a_block_is_complete() {
    let data = sample(350_000, 5);
    let stream = compress_in_chunks(&data, 1, data.len());
    let mut session = BZ2Decompressor::new();
    for i in 0..2000 {
        let out = session.decompress(&stream[i..i + 1], None).unwrap();
        assert!(out.is_empty());
        assert!(session.needs_input());
        assert!(!session.eof());
    }
    let mut out = session.decompress(&stream[2000..150_000], None).unwrap();
    assert!(!out.is_empty());
    assert!(session.needs_input());
    assert!(!session.eof());
    out.extend(session.decompress(&stream[150_000..], None).unwrap());
    assert!(session.eof());
    assert!(!session.needs_input());
    assert_eq!(out, data);
}

#[test]
fn trailing_bytes_become_unused_data() {
    let data = text(2000);
    let stream = compress_in_chunks(&data, 9, data.len());
    let trailing = b"what follows the stream";
    let mut both = stream.clone();
    both.extend_from_slice(trailing);
    let mut session = BZ2Decompressor::new();
    let out = session.decompress(&both, None).unwrap();
    assert_eq!(out, data);
    assert!(session.eof());
    assert!(!session.needs_input());
    assert_eq!(session.unused_data(), trailing);
}

#[test]
fn unused_data_is_empty_before_the_end() {
    let data = text(2000);
    let stream = compress_in_chunks(&data, 9, data.len());
    let mut session = BZ2Decompressor::new();
    session.decompress(&stream[..stream.len() - 1], None).unwrap();
    assert!(!session.eof());
    assert!(session.unused_data().is_empty());
    session.decompress(&stream[stream.len() - 1..], None).unwrap();
    assert!(session.eof());
    assert!(session.unused_data().is_empty());
}

#[test]
fn decompress_after_the_end_is_refused() {
    let stream = compress_in_chunks(b"abc", 9, 3);
    let mut session = BZ2Decompressor::new();
    assert_eq!(session.decompress(&stream, None), Ok(b"abc".to_vec()));
    assert!(session.eof());
    assert_eq!(session.decompress(b"more", None), Err(Bz2Error::StreamExhaustedError));
    assert_eq!(session.decompress(b"", None), Err(Bz2Error::StreamExhaustedError));
    assert!(session.unused_data().is_empty());
    assert!(session.eof());
}

#[test]
fn a_second_stream_is_left_alone() {
    let first = compress_in_chunks(b"first", 9, 5);
    let second = compress_in_chunks(b"second", 9, 6);
    let mut both = first.clone();
    both.extend_from_slice(&second);
    let mut session = BZ2Decompressor::new();
    assert_eq!(session.decompress(&both, None), Ok(b"first".to_vec()));
    assert!(session.eof());
    assert_eq!(session.unused_data(), &second[..]);
}

#[test]
fn the_stream_may_end_inside_a_chunk() {
    let data = text(4000);
    let stream = compress_in_chunks(&data, 9, data.len());
    let mut fed = stream.clone();
    fed.extend_from_slice(b"0123456789");
    let cut = stream.len() - 3;
    let mut session = BZ2Decompressor::new();
    let mut out = session.decompress(&fed[..cut], None).unwrap();
    assert!(!session.eof());
    assert!(session.needs_input());
    out.extend(session.decompress(&fed[cut..cut + 8], None).unwrap());
    assert!(session.eof());
    assert_eq!(out, data);
    assert_eq!(session.unused_data(), b"01234");
    assert_eq!(
        session.decompress(&fed[cut + 8..], None),
        Err(Bz2Error::StreamExhaustedError)
    );
    assert_eq!(session.unused_data(), b"01234");
}

#[test]
fn what_goes_in_comes_out_in_order() {
    let data = sample(300_000, 21);
    let mut session = compressor(2);
    let mut pieces = Vec::new();
    for piece in data.chunks(10_007) {
        pieces.push(session.compress(piece).unwrap());
    }
    pieces.push(session.flush().unwrap());
    let stream: Vec<u8> = pieces.concat();
    let mut reader = BZ2Decompressor::new();
    let mut back = Vec::new();
    for piece in &pieces {
        back.extend(reader.decompress(piece, Some(4000)).unwrap());
        while !reader.needs_input() && !reader.eof() {
            let more = reader.decompress(b"", Some(4000)).unwrap();
            assert!(more.len() <= 4000);
            back.extend(more);
        }
    }
    assert!(reader.eof());
    assert_eq!(back, data);
    assert_eq!(decompress_in_chunks(&stream, 1), data);
}

#[test]
fn a_truncated_stream_never_ends() {
    let data = text(4000);
    let stream = compress_in_chunks(&data, 9, data.len());
    let mut session = BZ2Decompressor::new();
    let out = session.decompress(&stream[..stream.len() / 2], None).unwrap();
    assert!(out.is_empty());
    assert!(session.needs_input());
    assert_eq!(session.decompress(b"", None), Ok(Vec::new()));
    assert!(session.needs_input());
    assert!(!session.eof());
}

#[test]
fn a_limit_as_wide_as_can_be() {
    let data = text(30_000);
    let stream = compress_in_chunks(&data, 9, data.len());
    let mut session = BZ2Decompressor::new();
    assert_eq!(session.decompress(&stream, Some(i32::MAX)), Ok(data));
    assert!(session.eof());
}

#[test]
fn output_is_bounded_by_max_length() {
    let data = text(100_000);
    let stream = compress_in_chunks(&data, 9, data.len());
    let mut session = BZ2Decompressor::new();
    let mut out = session.decompress(&stream, Some(10)).unwrap();
    assert_eq!(out, data[..10].to_vec());
    assert!(!session.needs_input());
    assert!(!session.eof());
    let mut calls = 0;
    while !session.eof() {
        let part = session.decompress(b"", Some(30_000)).unwrap();
        assert!(part.len() <= 30_000);
        out.extend(part);
        calls += 1;
        assert!(calls < 10);
    }
    assert_eq!(calls, 4);
    assert_eq!(out, data);
    assert!(session.unused_data().is_empty());
}

#[test]
fn bounded_output_keeps_the_trailing_bytes() {
    let data = text(20_000);
    let mut stream = compress_in_chunks(&data, 9, data.len());
    stream.extend_from_slice(b"tail");
    let mut session = BZ2Decompressor::new();
    let mut out = Vec::new();
    out.extend(session.decompress(&stream, Some(8192)).unwrap());
    assert_eq!(out.len(), 8192);
    assert!(session.unused_data().is_empty());
    while !session.eof() {
        out.extend(session.decompress(b"", Some(8192)).unwrap());
    }
    assert_eq!(out, data);
    assert_eq!(session.unused_data(), b"tail");
}

#[test]
fn max_length_zero_returns_nothing() {
    let stream = compress_in_chunks(b"abcdef", 9, 6);
    let mut session = BZ2Decompressor::new();
    assert_eq!(session.decompress(&stream, Some(0)), Ok(Vec::new()));
    assert!(!session.needs_input());
    assert!(!session.eof());
    assert_eq!(session.decompress(b"", Some(4)), Ok(b"abcd".to_vec()));
    assert_eq!(session.decompress(b"", Some(-1)), Ok(b"ef".to_vec()));
    assert!(session.eof());
}

#[test]
fn negative_max_length_is_unbounded() {
    let data = text(50_000);
    let stream = compress_in_chunks(&data, 9, data.len());
    let mut session = BZ2Decompressor::new();
    assert_eq!(session.decompress(&stream, Some(-5)), Ok(data));
    assert!(session.eof());
}

#[test]
fn garbage_is_a_corrupt_stream() {
    let mut session = BZ2Decompressor::new();
    assert_eq!(
        session.decompress(b"this is not a bzip2 stream", None),
        Err(Bz2Error::CorruptStreamError)
    );
    assert!(!session.eof());
    assert!(!session.needs_input());
    assert_eq!(session.decompress(b"", None), Err(Bz2Error::CorruptStreamError));
}

#[test]
fn a_damaged_block_is_a_corrupt_stream() {
    let data = text(5000);
    let mut stream = compress_in_chunks(&data, 9, data.len());
    let middle = stream.len() / 2;
    stream[middle] ^= 0xff;
    let mut session = BZ2Decompressor::new();
    assert_eq!(session.decompress(&stream, None), Err(Bz2Error::CorruptStreamError));
    assert!(!session.eof());
}

#[test]
fn sessions_show_their_names() {
    assert_eq!(compressor(9).repr(), "_bz2.BZ2Compressor");
    assert_eq!(BZ2Decompressor::new().repr(), "_bz2.BZ2Decompressor");
}

#[test]
fn state_errors_are_told_apart() {
    assert!(Bz2Error::StateError(Late::Compress).is_state_error());
    assert!(Bz2Error::StateError(Late::Flush).is_state_error());
    assert!(Bz2Error::StreamExhaustedError.is_state_error());
    assert!(!Bz2Error::ConfigError.is_state_error());
    assert!(!Bz2Error::CorruptStreamError.is_state_error());
}

#[test]
fn error_messages() {
    assert_eq!(Bz2Error::ConfigError.message(), "compresslevel must be between 1 and 9");
    assert_eq!(Bz2Error::StateError(Late::Compress).message(), "Compressor has been flushed");
    assert_eq!(Bz2Error::StateError(Late::Flush).message(), "Repeated call to flush()");
    assert_eq!(Bz2Error::StreamExhaustedError.message(), "End of stream already reached");
    assert_eq!(Bz2Error::CorruptStreamError.message(), "Invalid data stream");
}
