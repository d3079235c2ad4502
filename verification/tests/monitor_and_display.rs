use lib::hal::display::{
    CtaDataBlock, CtaDataBlockIterator, BitDepth, Descriptor, ExtendedTimingInformation, RawEdidBlock, ScreenGeometry as EdidScreenGeometry,
    VideoInputParameter, VideoInterface,
};
use lib::monitor::format::{to_binary, to_decimal_usize, to_hex_u8, to_hex_usize, Formatting, LeadingZeros};
use lib::monitor::parse::{from_hex_be_usize, ParseError};
use lib::monitor::tokenizer::{Token, TokenType, Tokenizer};
use lib::monitor::{memory_window, Command, CommandContext, CommandParseError, CursorType, Monitor, Writer};

#[test]
fn parse_commands() {
    assert!(matches!(Command::parse(b"8010"), Ok(Command::PrintMemory { start: 0x8010 })));
    assert!(matches!(Command::parse(b"  1a2B "), Ok(Command::PrintMemory { start: 0x1A2B })));
    assert!(matches!(Command::parse(b""), Ok(Command::PrintMemoryContinue)));
    assert!(matches!(Command::parse(b"   "), Ok(Command::PrintMemoryContinue)));
    assert!(matches!(Command::parse(b"R 8010"), Ok(Command::ExecuteMemory { start: 0x8010, params: (0, 0, 0, 0) })));
    assert!(matches!(Command::parse(b"r  ff "), Ok(Command::ExecuteMemory { start: 0xff, .. })));
    assert!(Command::parse(b"R").err() == Some(CommandParseError::IllegalToken { position: 0 }));
    assert!(Command::parse(b"R :").err() == Some(CommandParseError::IllegalToken { position: 2 }));
    assert!(Command::parse(b"Q 10").err() == Some(CommandParseError::IllegalToken { position: 0 }));
    assert!(Command::parse(b" x").err() == Some(CommandParseError::IllegalToken { position: 1 }));
    // seventeen digits do not fit 64 bits
    assert!(Command::parse(b"11111111111111111").err() == Some(CommandParseError::IllegalToken { position: 0 }));
}

#[test]
fn tokenizer_with_whitespace_tokens() {
    let mut t = Tokenizer::new(b"12 :AB.+-q?", false);
    assert!(t.next() == Some(Token { token_type: TokenType::USize(0x12), start: 0, end: 2 }));
    assert!(t.next() == Some(Token { token_type: TokenType::WhiteSpace, start: 2, end: 3 }));
    assert!(t.next() == Some(Token { token_type: TokenType::Colon, start: 3, end: 4 }));
    assert!(t.next() == Some(Token { token_type: TokenType::USize(0xAB), start: 4, end: 6 }));
    assert!(t.next() == Some(Token { token_type: TokenType::Dot, start: 6, end: 7 }));
    assert!(t.next() == Some(Token { token_type: TokenType::Plus, start: 7, end: 8 }));
    assert!(t.next() == Some(Token { token_type: TokenType::Minus, start: 8, end: 9 }));
    assert!(t.next() == Some(Token { token_type: TokenType::SingleLetter(b'q'), start: 9, end: 10 }));
    assert!(t.next() == Some(Token { token_type: TokenType::Unknown, start: 10, end: 11 }));
    assert!(t.next().is_none());
    let mut t = Tokenizer::new(b"  7", true);
    assert!(t.next() == Some(Token { token_type: TokenType::USize(7), start: 2, end: 3 }));
}

#[test]
fn hex_parsing() {
    assert!(from_hex_be_usize(b"ff") == Ok(255));
    assert!(from_hex_be_usize(b"DeadBeef") == Ok(0xDEAD_BEEF));
    assert!(from_hex_be_usize(b"") == Ok(0));
    assert!(from_hex_be_usize(b"fg") == Err(ParseError::InvalidDigit { position: 1 }));
    assert!(from_hex_be_usize(b"10000000000000000") == Err(ParseError::Overflow));
    // an overflow in the digits before a bad byte is reported as the overflow
    assert!(from_hex_be_usize(b"10000000000000000z") == Err(ParseError::Overflow));
    assert!(from_hex_be_usize(b"12 3") == Err(ParseError::InvalidDigit { position: 2 }));
}

#[test]
fn number_formatting() {
    assert_eq!(to_hex_u8(0xAB), b"AB".to_vec());
    assert_eq!(to_hex_u8(0x0A), b"0A".to_vec());
    assert_eq!(to_hex_usize(0x1234), b"0000000000001234".to_vec());
    assert_eq!(to_decimal_usize(42), b"00000000000000000042".to_vec());
    assert_eq!(to_decimal_usize(u64::MAX), b"18446744073709551615".to_vec());
    assert_eq!(to_binary(5), b"00000101".to_vec());
    assert!(Formatting::default().leading_zeros == LeadingZeros::Keep);
}

#[test]
fn writer_leading_zero_modes() {
    let mut w = Writer::new();
    w.hex_usize(0x1234, Some(Formatting { leading_zeros: LeadingZeros::Skip }));
    assert_eq!(w.sent, b"1234".to_vec());
    let mut w = Writer::new();
    w.hex_usize(0x1234, Some(Formatting { leading_zeros: LeadingZeros::Space }));
    assert_eq!(w.sent, b"            1234".to_vec());
    let mut w = Writer::new();
    w.hex_usize(0, Some(Formatting { leading_zeros: LeadingZeros::Space }));
    assert_eq!(w.sent, b"               0".to_vec());
    let mut w = Writer::new();
    w.decimal_usize(0, Some(Formatting { leading_zeros: LeadingZeros::Skip }));
    assert_eq!(w.sent, b"0".to_vec());
    let mut w = Writer::new();
    w.decimal_usize(907, None);
    assert_eq!(w.sent, b"00000000000000000907".to_vec());
    let mut w = Writer::new();
    w.putc_repeat(b'-', 3);
    w.puts(b"ab");
    w.newline();
    w.carriage_return();
    w.binary(0x81, None);
    w.hex(0xF0, None);
    assert_eq!(w.sent, b"---ab\n\r10000001F0".to_vec());
}

#[test]
fn cursor_types() {
    assert_eq!(CursorType::U32.byte_len(), 4);
    assert_eq!(CursorType::U128.align_of(), 16);
    assert!(CursorType::U8.wider() == CursorType::U16);
    assert!(CursorType::U128.wider() == CursorType::U128);
    assert!(CursorType::U64.slimmer() == CursorType::U32);
    assert!(CursorType::U8.slimmer() == CursorType::U8);
    assert!(CursorType::U32.wider().slimmer() == CursorType::U32);
}

#[test]
fn memory_windows() {
    assert_eq!(memory_window(0x8010, 8, CursorType::U32), (0x8010, 0x8018));
    // rows start at the address typed, aligned or not
    assert_eq!(memory_window(0x8016, 8, CursorType::U32), (0x8016, 0x801E));
    assert_eq!(memory_window(0x8011, 8, CursorType::U32), (0x8011, 0x8019));
    assert_eq!(memory_window(0x8013, 2, CursorType::U128), (0x8013, 0x8023));
}

#[test]
fn print_one_row() {
    let memory = [0x41u8, 0x42, 0x00, 0xFF, 0x20, 0x7E, 0x21, 0x0A];
    let mut out = Writer::new();
    let next = Command::PrintMemoryContinue.print_memory(&mut out, 0x8010, 8, CursorType::U8, &memory);
    assert_eq!(next, 0x8011);
    assert_eq!(String::from_utf8(out.sent).unwrap(), "            8010:(41)42 00 FF 20 7E 21 0A AB...~!. 01000001");
}

#[test]
fn print_starts_at_the_address_typed() {
    // an unaligned address: the row starts at it and shows the 8 bytes from it on
    let memory: Vec<u8> = (0x30u8..0x38).collect();
    let mut out = Writer::new();
    let next = Command::PrintMemoryContinue.print_memory(&mut out, 0x8016, 8, CursorType::U32, &memory);
    assert_eq!(next, 0x801A);
    assert_eq!(String::from_utf8(out.sent).unwrap(), "            8016:(30 31 32 33)34 35 36 37 01234567 00110000 00110001 00110010 00110011");
}

#[test]
fn print_two_rows() {
    let memory: Vec<u8> = (0x30u8..0x40).collect();
    let mut out = Writer::new();
    let next = Command::PrintMemoryContinue.print_memory(&mut out, 0x8016, 8, CursorType::U128, &memory);
    assert_eq!(next, 0x8026);
    assert_eq!(
        String::from_utf8(out.sent).unwrap(),
        "            8016:(30 31 32 33 34 35 36 37 01234567 00110000 00110001 00110010 00110011 00110100 00110101 00110110 00110111\n            801E: 38 39 3A 3B 3C 3D 3E 3F)89:;<=>? 00111000 00111001 00111010 00111011 00111100 00111101 00111110 00111111"
    );
}

#[test]
fn run_moves_the_last_address() {
    let memory = [0u8; 8];
    let mut out = Writer::new();
    let mut ctx = CommandContext { last_address: 0, length: 8, cursor_type: CursorType::U32 };
    Command::PrintMemory { start: 0x8010 }.run(&mut out, &mut ctx, &memory);
    assert_eq!(ctx.last_address, 0x8014);
    Command::PrintMemoryContinue.run(&mut out, &mut ctx, &memory[..8]);
    assert_eq!(ctx.last_address, 0x8018);
    let before = out.sent.len();
    Command::DoNothing.run(&mut out, &mut ctx, &[]);
    assert_eq!(out.sent.len(), before);
    assert_eq!(Command::PrintMemory { start: 5 }.print_address(&ctx), Some(5));
    assert_eq!(Command::DoNothing.print_address(&ctx), None);
}

#[test]
fn monitor_line_editing() {
    let mut m = Monitor::new();
    m.start();
    assert_eq!(m.writer.sent, vec![12, 10, b'0', b'>']);
    for c in b"80a0" {
        assert!(m.handle_input(*c).is_none());
    }
    assert_eq!(m.line_buffer, b"80A0".to_vec());
    assert!(m.handle_input(8).is_none());
    assert_eq!(m.line_buffer, b"80A".to_vec());
    assert!(m.handle_input(b'g').is_none());
    assert_eq!(*m.writer.sent.last().unwrap(), 7);
    assert!(m.handle_input(b'+').is_none());
    assert!(m.context.cursor_type == CursorType::U64);
    assert!(m.handle_input(b'-').is_none());
    assert!(m.handle_input(b'-').is_none());
    assert!(m.context.cursor_type == CursorType::U16);
    let command = m.handle_input(b'\r');
    assert!(matches!(command, Some(Command::PrintMemory { start: 0x80A })));
    assert_eq!(*m.writer.sent.last().unwrap(), 13);
    m.end_line();
    assert!(m.line_buffer.is_empty());
    assert!(m.writer.sent.ends_with(b"\n0>"));
}

#[test]
fn monitor_run_command_line() {
    let mut m = Monitor::new();
    for c in b"r 8010" {
        assert!(m.handle_input(*c).is_none());
    }
    assert_eq!(m.line_buffer, b"R 8010".to_vec());
    assert!(matches!(m.handle_input(b'\r'), Some(Command::ExecuteMemory { start: 0x8010, .. })));
}

#[test]
fn monitor_reports_a_bad_line() {
    let mut m = Monitor::new();
    for _ in 0..17 {
        m.handle_input(b'1');
    }
    let before = m.writer.sent.len();
    assert!(m.handle_input(b'\n').is_none());
    assert!(m.line_buffer.is_empty());
    let shown = m.writer.sent[before..].to_vec();
    assert_eq!(String::from_utf8(shown).unwrap(), "\r11111111111111111\n^! Error\n0>");
}

#[test]
fn edid_header_fields() {
    let edid = RawEdidBlock::test_block();
    assert_eq!(&edid.manufacturer_id(), b"AOC");
    assert_eq!(edid.manufacturer_product_code(), 0x1909);
    assert_eq!(edid.serial_number(), 0x0101_0101);
    assert_eq!(edid.week_of_manufacture(), 0);
    assert_eq!(edid.year_of_manufacture(), 2010);
    assert_eq!((edid.edid_version(), edid.edid_revision()), (1, 3));
    assert!(edid.video_input_parameter() == VideoInputParameter::Digital {
        bit_depth: BitDepth::from_u8(0),
        video_interface: VideoInterface::from_u8(0),
    });
    assert!(edid.screen_geometry() == EdidScreenGeometry::SizeInCentimeters { h: 64, v: 36 });
    assert_eq!(edid.extension_len(), 1);
    assert!(edid.standard_timing_information().iter().all(|t| t.is_none()));
}

#[test]
fn edid_descriptors() {
    let edid = RawEdidBlock::test_block();
    let descriptors = edid.descriptors();
    assert_eq!(descriptors.len(), 4);
    match &descriptors[0] {
        Some(Descriptor::DetailedTiming { pixel_clock_10khz, horizontal_active_pixels, vertical_active_lines, .. }) => {
            assert_eq!((*pixel_clock_10khz, *horizontal_active_pixels, *vertical_active_lines), (8475, 1360, 768));
        },
        _ => panic!("first descriptor should be a detailed timing"),
    }
    match &descriptors[1] {
        Some(Descriptor::DetailedTiming { pixel_clock_10khz, horizontal_active_pixels, vertical_active_lines, .. }) => {
            assert_eq!((*pixel_clock_10khz, *horizontal_active_pixels, *vertical_active_lines), (14850, 1920, 1080));
        },
        _ => panic!("second descriptor should be a detailed timing"),
    }
    match &descriptors[2] {
        Some(Descriptor::DisplayName(text)) => assert_eq!(text.as_str(), b"LE19K097".to_vec()),
        _ => panic!("third descriptor should be the display name"),
    }
    match &descriptors[3] {
        Some(Descriptor::RangeLimits {
            vertical_field_rate_hz_min_max,
            horizontal_line_rate_khz_min_max,
            maximum_pixel_clock_10mhz,
            extended_timing_information,
        }) => {
            assert_eq!(*vertical_field_rate_hz_min_max, (56, 76));
            assert_eq!(*horizontal_line_rate_khz_min_max, (30, 83));
            assert_eq!(*maximum_pixel_clock_10mhz, 17);
            assert!(*extended_timing_information == ExtendedTimingInformation::DefaultGtf);
        },
        _ => panic!("fourth descriptor should be the range limits"),
    }
}

#[test]
fn typing_an_address_prints_the_eight_bytes_there() {
    let mut m = Monitor::new();
    for c in b"8010" {
        m.handle_input(*c);
    }
    let command = m.handle_input(b'\r').expect("an address is a command");
    assert!(matches!(command, Command::PrintMemory { start: 0x8010 }));
    let memory = [0xd5u8, 0x38, 0x00, 0xa0, 0x92, 0x40, 0x04, 0x00];
    let mut out = Writer::new();
    let mut ctx = m.context;
    command.run(&mut out, &mut ctx, &memory);
    let text = String::from_utf8(out.sent).unwrap();
    assert!(text.starts_with("            8010:(D5 38 00 A0)92 40 04 00"));
    assert_eq!(ctx.last_address, 0x8014);
}

#[test]
fn hex_text_reads_back() {
    for v in [0u64, 1, 0x8010, 0xdead_beef, 0x0123_4567_89ab_cdef, u64::MAX] {
        let text = to_hex_usize(v);
        assert_eq!(text.len(), 16);
        assert!(from_hex_be_usize(&text) == Ok(v as usize));
    }
    assert!(from_hex_be_usize(&to_hex_u8(0xa7)) == Ok(0xa7));
}

fn all_tokens(line: &[u8], filter_ws: bool) -> Vec<Token> {
    let mut t = Tokenizer::new(line, filter_ws);
    let mut out = Vec::new();
    while let Some(tok) = t.next() {
        out.push(tok);
    }
    out
}

#[test]
fn tokens_tile_the_line_when_whitespace_is_kept() {
    let line = b"  8010: R zz 12 ";
    let tokens = all_tokens(line, false);
    assert_eq!(tokens[0].start, 0);
    assert_eq!(tokens[tokens.len() - 1].end, line.len());
    for w in tokens.windows(2) {
        assert_eq!(w[0].end, w[1].start);
        assert!(w[0].start < w[0].end);
    }
}

#[test]
fn tokens_cover_the_other_bytes_when_whitespace_is_filtered() {
    let line = b"  8010: R zz 12 ";
    let tokens = all_tokens(line, true);
    for k in 0..line.len() {
        let covered = tokens.iter().any(|t| t.start <= k && k < t.end);
        assert_eq!(covered, line[k] != b' ');
    }
    assert!(tokens.iter().all(|t| t.token_type != TokenType::WhiteSpace));
    assert!(tokens[0].token_type == TokenType::USize(0x8010));
}

#[test]
fn cta_data_blocks_are_decoded_in_turn() {
    // a video block of two descriptors, a speaker allocation block, then a zero header
    let bytes = vec![0x42, 0x90, 0x04, 0x83, 0x4F, 0x00, 0x00, 0x00];
    let mut it = CtaDataBlockIterator { bytes, position: 0 };
    match it.next() {
        Some(CtaDataBlock::Video { video_blocks }) => assert_eq!(video_blocks.bytes, vec![0x90, 0x04]),
        _ => panic!("expected a video block"),
    }
    assert_eq!(it.position, 3);
    match it.next() {
        Some(CtaDataBlock::SpeakerAllocation { front_left_and_right, low_frequency_effects, front_center, rear_center, .. }) => {
            assert!(front_left_and_right && low_frequency_effects && front_center && !rear_center);
        },
        _ => panic!("expected a speaker allocation block"),
    }
    assert_eq!(it.position, 7);
    assert!(it.next().is_none());
}
