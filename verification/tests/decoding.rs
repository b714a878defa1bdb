//! The output decoder and the pump decision on crafted byte chunks.

use lara_code::decode::OutputDecoder;
use lara_code::errors::IoError;
use lara_code::pump::{pump_step, PumpAction};

#[test]
fn ascii_chunk_decodes_whole() {
    let mut dec = OutputDecoder::new();
    let complete = dec.absorb(b"hello");
    assert_eq!(complete, b"hello".to_vec());
    assert_eq!(dec.flush(), Vec::<u8>::new());
}

#[test]
fn multibyte_straddles_chunks_without_mangling() {
    // The euro sign is 0xE2 0x82 0xAC; split it across two reads.
    let mut dec = OutputDecoder::new();
    let first = dec.absorb(&[0xE2, 0x82]);
    assert_eq!(first, Vec::<u8>::new());
    let second = dec.absorb(&[0xAC, b'!']);
    assert_eq!(second, vec![0xE2, 0x82, 0xAC, b'!']);
    assert_eq!(String::from_utf8(second).unwrap(), "\u{20AC}!");
    assert_eq!(dec.flush(), Vec::<u8>::new());
}

#[test]
fn four_byte_character_split_three_ways() {
    // A four-byte encoding fed one byte at a time.
    let bytes = "\u{1F600}".as_bytes();
    assert_eq!(bytes.len(), 4);
    let mut dec = OutputDecoder::new();
    assert_eq!(dec.absorb(&bytes[0..1]), Vec::<u8>::new());
    assert_eq!(dec.absorb(&bytes[1..2]), Vec::<u8>::new());
    assert_eq!(dec.absorb(&bytes[2..3]), Vec::<u8>::new());
    assert_eq!(dec.absorb(&bytes[3..4]), bytes.to_vec());
}

#[test]
fn garbage_bytes_pass_through_for_lossy_decoding() {
    // 0xFF can never open an encoding: it must not be held back.
    let mut dec = OutputDecoder::new();
    let complete = dec.absorb(&[0xFF, 0xFE, b'a']);
    assert_eq!(complete, vec![0xFF, 0xFE, b'a']);
}

#[test]
fn flush_hands_back_the_carry() {
    let mut dec = OutputDecoder::new();
    let complete = dec.absorb(&[b'x', 0xE2]);
    assert_eq!(complete, vec![b'x']);
    assert_eq!(dec.flush(), vec![0xE2]);
    assert_eq!(dec.flush(), Vec::<u8>::new());
}

#[test]
fn pump_publishes_decoded_text() {
    let mut dec = OutputDecoder::new();
    match pump_step(&mut dec, Ok(b"shell says hi".to_vec())) {
        PumpAction::Publish(text) => assert_eq!(text, "shell says hi"),
        other => panic!("expected published text, got {other:?}"),
    }
}

#[test]
fn pump_continues_while_a_character_is_in_flight() {
    let mut dec = OutputDecoder::new();
    match pump_step(&mut dec, Ok(vec![0xE2, 0x82])) {
        PumpAction::Continue => {}
        other => panic!("expected a quiet continue, got {other:?}"),
    }
    match pump_step(&mut dec, Ok(vec![0xAC])) {
        PumpAction::Publish(text) => assert_eq!(text, "\u{20AC}"),
        other => panic!("expected the completed character, got {other:?}"),
    }
}

#[test]
fn pump_stops_on_end_of_stream() {
    let mut dec = OutputDecoder::new();
    match pump_step(&mut dec, Ok(Vec::new())) {
        PumpAction::Stop(text) => assert_eq!(text, ""),
        other => panic!("expected a stop, got {other:?}"),
    }
}

#[test]
fn pump_stops_on_read_error_and_flushes_the_carry() {
    let mut dec = OutputDecoder::new();
    match pump_step(&mut dec, Ok(vec![0xE2])) {
        PumpAction::Continue => {}
        other => panic!("expected a quiet continue, got {other:?}"),
    }
    match pump_step(&mut dec, Err(IoError { message: "gone".to_string() })) {
        PumpAction::Stop(text) => assert_eq!(text, "\u{FFFD}"),
        other => panic!("expected a stop, got {other:?}"),
    }
}

#[test]
fn pump_decodes_invalid_bytes_lossily() {
    let mut dec = OutputDecoder::new();
    match pump_step(&mut dec, Ok(vec![b'a', 0xFF, b'b'])) {
        PumpAction::Publish(text) => assert_eq!(text, "a\u{FFFD}b"),
        other => panic!("expected published text, got {other:?}"),
    }
}
