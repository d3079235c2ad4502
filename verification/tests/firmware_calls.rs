use lib::hal::clocks::{
    Clock, ClockDescription, ClockState, CLK_GET_CLOCK_RATE, CLK_GET_CLOCK_RATE_MEASURED,
    CLK_GET_CLOCK_STATE, CLK_GET_MAX_CLOCK_RATE, CLK_GET_MIN_CLOCK_RATE, CLK_GET_TURBO, CLK_SET_CLOCK_RATE,
};
use lib::hal::framebuffer::{pet_glyph, pet_glyph_table, Framebuffer, TEXT_BACKGROUND, TEXT_FOREGROUND};
use lib::hal::led::{status_blink_twice, Led, LedStep};
use lib::peripherals::mailbox::{
    read_value, responses_fit, simple_single_call_request, simple_single_call_response, write_value, Mailbox,
    MailboxError, ReqResCode, RequestResponseStatus, ResponseIterator, CHANNEL_PROPERTIES,
};
use lib::peripherals::power::{PowerDevice, PowerState, PWR_GET_STATE, PWR_SET_STATE};

fn succeeded(mut mb: Mailbox, answer: &[u32]) -> Mailbox {
    mb.buffer[..answer.len()].copy_from_slice(answer);
    mb.req_res_code = ReqResCode(RequestResponseStatus::Success);
    mb
}

#[test]
fn mailbox_register_words() {
    assert_eq!(write_value(CHANNEL_PROPERTIES, 0x0008_0000), 0x0080_0008);
    assert_eq!(read_value(CHANNEL_PROPERTIES, 0x0080_0008), Some(0x0008_0000));
    assert_eq!(read_value(CHANNEL_PROPERTIES, 0x0080_0001), None);
}

#[test]
fn mailbox_push_and_read_back() {
    let mut mb = Mailbox::new(16);
    assert_eq!(mb.buffer_end_index(), 0);
    assert!(mb.push_request_raw(0x0001_0005, 8) == Ok((3, 5)));
    assert_eq!(mb.size, 32);
    assert_eq!(&mb.buffer[0..5], &[0x0001_0005, 8, 0, 0, 0]);
    // a request that does not leave room for the end tag is refused
    assert!(mb.push_request_raw(0x0001_0006, 40) == Err(MailboxError::BufferOverflow));
    assert_eq!(mb.size, 32);
    mb.set_word(3, 77);
    let mb = succeeded(mb, &[]);
    let mut it = mb.submit_messages().ok().unwrap();
    let response = it.next().unwrap().ok().unwrap();
    assert_eq!(response.header.tag, 0x0001_0005);
    assert_eq!(response.value_buffer, vec![77, 0]);
    assert_eq!(response.try_value_as(1, 4), Some(vec![77]));
    assert_eq!(response.try_value_as(3, 4), None);
    // the value starts at byte 20 of the mailbox: not an 8-byte boundary
    assert_eq!(response.value_offset, 3);
    assert_eq!(response.try_value_as(2, 8), None);
    assert!(it.next().is_none());
}

#[test]
fn mailbox_value_alignment() {
    let mut it = ResponseIterator { buffer: vec![1, 8, 0, 5, 6, 2, 8, 0, 7, 9, 0], position: 0 };
    let first = it.next().unwrap().ok().unwrap();
    assert_eq!(first.try_value_as(2, 8), None);
    let second = it.next().unwrap().ok().unwrap();
    assert_eq!(second.value_offset, 8);
    assert_eq!(second.try_value_as(2, 8), Some(vec![7, 9]));
    assert!(it.next().is_none());
}

#[test]
fn mailbox_failed_exchange() {
    let mut mb = Mailbox::new(8);
    mb.req_res_code = ReqResCode(RequestResponseStatus::ErrorParsingRequestBuffer);
    assert!(matches!(mb.submit_messages(), Err(MailboxError::RequestResponseError(RequestResponseStatus::ErrorParsingRequestBuffer))));
    let mut it = ResponseIterator { buffer: vec![5, 4], position: 0 };
    assert!(matches!(it.next(), Some(Err(MailboxError::BufferSizeMismatch))));
}

#[test]
fn single_call_round_trip() {
    let mb = simple_single_call_request(0x0003_0002, &[3], 2).ok().unwrap();
    assert_eq!(&mb.buffer[0..6], &[0x0003_0002, 8, 0, 3, 0, 0]);
    let mb = succeeded(mb, &[0x0003_0002, 8, 0x8000_0008, 3, 600_000_000]);
    assert_eq!(simple_single_call_response(&mb, 2).ok().unwrap(), vec![3, 600_000_000]);
    assert!(matches!(simple_single_call_response(&mb, 3), Err(MailboxError::ResponseReinterpretationError)));
    assert!(matches!(simple_single_call_request(1, &[], 61), Err(MailboxError::BufferOverflow)));
}

#[test]
fn clock_requests_and_replies() {
    assert_eq!(Clock::ARM.id(), 3);
    assert_eq!(Clock::PixelBVB.id(), 14);
    let q = Clock::ARM.query(CLK_GET_CLOCK_RATE);
    assert_eq!((q.tag, q.words, q.value_words), (CLK_GET_CLOCK_RATE, vec![3], 2));
    let q = Clock::UART.set_rate_request(48_000_000, true);
    assert_eq!((q.tag, q.words, q.value_words), (CLK_SET_CLOCK_RATE, vec![2, 48_000_000, 1], 3));
    let reply: Result<Vec<u32>, MailboxError> = Ok(vec![3, 600_000_000]);
    assert_eq!(Clock::ARM.rate(&reply), Some(600_000_000));
    assert_eq!(Clock::ARM.get_turbo(&Ok(vec![3, 1])), Some(true));
    assert_eq!(Clock::ARM.get_turbo(&Ok(vec![3, 0])), Some(false));
    assert_eq!(Clock::ARM.rate(&Err(MailboxError::Unknown)), None);
    assert_eq!(Clock::ARM.max_clock_rate(&Ok(vec![3])), None);
    assert!(Clock::ARM.state(&Ok(vec![3, 1])) == Some(ClockState(1)));
}

#[test]
fn clock_state_bits() {
    assert!(ClockState(1).is_on());
    assert!(ClockState(1).is_available());
    assert!(!ClockState(2).is_available());
    assert_eq!(ClockState(2).with_on().0, 3);
    assert_eq!(ClockState(3).with_off().0, 2);
    assert!(!ClockState(3).with_off().is_on());
}

#[test]
fn clock_description_round_trip() {
    let mb = ClockDescription::request(Clock::ARM).ok().unwrap();
    let tags = [CLK_GET_CLOCK_STATE, CLK_GET_CLOCK_RATE, CLK_GET_CLOCK_RATE_MEASURED, CLK_GET_MAX_CLOCK_RATE,
        CLK_GET_MIN_CLOCK_RATE, CLK_GET_TURBO];
    for (i, tag) in tags.iter().enumerate() {
        assert_eq!(&mb.buffer[5 * i..5 * i + 5], &[*tag, 8, 0, 3, 0]);
    }
    assert_eq!(mb.size, 132);
    let values = [1u32, 600_000_000, 599_999_000, 1_500_000_000, 600_000_000, 0];
    let mut answer = Vec::new();
    for (tag, value) in tags.iter().zip(values.iter()) {
        answer.extend_from_slice(&[*tag, 8, 0x8000_0008, 3, *value]);
    }
    let d = ClockDescription::get(Clock::ARM, &succeeded(mb, &answer)).unwrap();
    assert!(d == ClockDescription {
        clock: Clock::ARM,
        available: true,
        on: true,
        rate_hz: 600_000_000,
        measured_rate_hz: 599_999_000,
        max_rate_hz: 1_500_000_000,
        min_rate_hz: 600_000_000,
        turbo: false,
    });
}

#[test]
fn clock_description_missing_response() {
    let mb = ClockDescription::request(Clock::Core).ok().unwrap();
    let mut answer = vec![0u32; 64];
    answer[..5].copy_from_slice(&[CLK_GET_CLOCK_STATE, 8, 0x8000_0008, 4, 1]);
    assert!(ClockDescription::get(Clock::Core, &succeeded(mb, &answer)).is_none());
}

#[test]
fn led_requests() {
    assert_eq!(Led::Status.pin(), 42);
    assert_eq!(Led::Power.pin(), 130);
    let on = Led::Status.on();
    assert_eq!((on.tag, on.words, on.value_words), (0x0003_8041, vec![42, 1], 2));
    let off = Led::Power.off();
    assert_eq!(off.words, vec![130, 0]);
    assert_eq!(Led::Status.get_request().tag, 0x0003_0041);
    assert!(Led::Status.get(&Ok(vec![42, 1])));
    assert!(!Led::Status.get(&Ok(vec![42, 0])));
    assert!(!Led::Status.get(&Err(MailboxError::Unknown)));
    let steps = Led::Status.blink_pattern(0b1010_0001, 500);
    let states: Vec<LedStep> = steps.iter().step_by(2).copied().collect();
    let expected = [true, false, true, false, false, false, false, true].map(LedStep::Switch);
    assert!(states == expected.to_vec());
    assert!(steps.iter().skip(1).step_by(2).all(|s| *s == LedStep::Wait(500)));
    assert!(status_blink_twice(false, 250) == vec![
        LedStep::Switch(true), LedStep::Wait(250_000_000), LedStep::Switch(false), LedStep::Wait(250_000_000),
        LedStep::Switch(true), LedStep::Wait(250_000_000), LedStep::Switch(false),
    ]);
    let steps = status_blink_twice(true, 1);
    assert_eq!(steps.len(), 7);
    assert!(steps[0] == LedStep::Switch(false) && steps[6] == LedStep::Switch(true));
}

#[test]
fn power_requests_and_states() {
    assert_eq!(PowerDevice::UsbHcd.id(), 3);
    let q = PowerDevice::UsbHcd.query(PWR_GET_STATE);
    assert_eq!(q.words, vec![3]);
    let s = PowerState(0).with_on().with_wait_set();
    assert_eq!(s.0, 3);
    let q = PowerDevice::UsbHcd.set_state_request(s);
    assert_eq!((q.tag, q.words), (PWR_SET_STATE, vec![3, 3]));
    assert!(PowerDevice::UsbHcd.state(&Ok(vec![3, 1])) == Some(PowerState(1)));
    assert!(PowerState(1).is_on() && PowerState(1).is_available());
    assert!(!PowerState(2).is_available());
    assert_eq!(PowerDevice::SdCard.timing_ms(&Ok(vec![0, 5000])), Some(5000));
    assert_eq!(PowerState(3).with_wait_cleared().with_off().0, 0);
}

#[test]
fn framebuffer_request_and_answer() {
    let mb = Framebuffer::request(1920, 1080, 32);
    assert_eq!(mb.size, 140);
    assert_eq!(&mb.buffer[0..5], &[0x0004_8003, 8, 0, 1920, 1080]);
    assert_eq!(&mb.buffer[15..19], &[0x0004_8005, 4, 0, 32]);
    assert_eq!(&mb.buffer[23..28], &[0x0004_0001, 8, 0, 4096, 0]);
    assert_eq!(&mb.buffer[28..32], &[0x0004_0008, 4, 0, 0]);
    let mut answer = mb.buffer[..32].to_vec();
    answer[18] = 32;
    answer[26] = 0xFE00_0000 | 0x3C10_0000;
    answer[27] = 1920 * 1080 * 4;
    answer[31] = 7680;
    let fb = Framebuffer::new(&succeeded(mb, &answer)).unwrap();
    assert_eq!((fb.width_px, fb.height_px, fb.bits_per_pixel, fb.pitch_bytes), (1920, 1080, 32, 7680));
    assert_eq!(fb.base_address, 0xFE10_0000 | 0x3C10_0000);
    assert_eq!(fb.ptr, 0x3E10_0000);
    assert_eq!(fb.size_bytes, 1920 * 1080 * 4);
    assert_eq!(fb.set_pixel_a8b8g8r8(2, 1), Some(7680 + 8));
    assert_eq!(fb.set_pixel_a8b8g8r8(1920, 1), None);
    assert_eq!(fb.clear(), 1920 * 1080);
}

#[test]
fn framebuffer_missing_pitch() {
    let mb = Framebuffer::request(640, 480, 16);
    let mut answer = mb.buffer[..32].to_vec();
    answer[28] = 0;
    assert!(Framebuffer::new(&succeeded(mb, &answer)).is_none());
}

#[test]
fn palette_calls() {
    let mb = Framebuffer::set_palette_request(2, &vec![0xff00_00ff, 0xff00_ff00]);
    assert_eq!(&mb.buffer[0..8], &[0x0004_800b, 16, 0, 2, 2, 0xff00_00ff, 0xff00_ff00, 0]);
    let accepted = succeeded(mb, &[0x0004_800b, 16, 0x8000_0004, 0]);
    assert!(Framebuffer::set_palette(&accepted) == Ok(true));
    let mb = Framebuffer::set_palette_request(0, &vec![1]);
    let refused = succeeded(mb, &[0x0004_800b, 12, 0x8000_0004, 1]);
    assert!(Framebuffer::set_palette(&refused) == Ok(false));
    let mb = Framebuffer::set_palette_request(0, &vec![1]);
    let empty = succeeded(mb, &[0]);
    assert!(Framebuffer::set_palette(&empty) == Err(MailboxError::Unknown));
    let request = Framebuffer::get_palette_request();
    assert_eq!(&request.buffer[0..3], &[0x0004_000b, 1024, 0]);
    let mut answer = vec![0x0004_000b, 1024, 0x8000_0400];
    answer.extend((0..256u32).map(|i| 0xff00_0000 | i));
    let palette = Framebuffer::get_palette(&succeeded(request, &answer));
    assert_eq!(palette.len(), 256);
    assert_eq!(palette[255], 0xff00_00ff);
}

#[test]
fn text_glyphs() {
    assert_eq!(pet_glyph(b'A'), 1);
    assert_eq!(pet_glyph(b'@'), 0);
    assert_eq!(pet_glyph(b'a'), 0x81);
    assert_eq!(pet_glyph(b'0'), b'0');
    assert_eq!(pet_glyph(0), b' ');
    assert_eq!(pet_glyph(b'\n'), b' ');
    assert_eq!(pet_glyph(b'{'), b'<');
    assert_eq!(pet_glyph(b'_'), 82);
    assert_eq!(pet_glyph(200), 255);
    let table = pet_glyph_table();
    assert_eq!(table.len(), 256);
    assert_eq!(table[b'z' as usize], 0x9a);
}

#[test]
fn text_rendering() {
    let fb = Framebuffer { ptr: 0, base_address: 0, size_bytes: 0, width_px: 96, height_px: 112, bits_per_pixel: 32, pitch_bytes: 384 };
    // glyph 1 lights the top left pixel only (bit 7 of its first row byte), glyph 0 nothing
    let font = [0u64, 0x80];
    let mut mapping = vec![0u8; 256];
    mapping[b'X' as usize] = 1;
    let rows = fb.write_text(b"X", &font, &mapping);
    assert_eq!(rows.len(), 16);
    assert!(rows.iter().all(|r| r.len() == 16));
    // the glyph's top left pixel is drawn 2 by 2
    assert_eq!(rows[0][0], TEXT_FOREGROUND);
    assert_eq!(rows[1][1], TEXT_FOREGROUND);
    assert_eq!(rows[0][2], TEXT_BACKGROUND);
    assert_eq!(rows[2][0], TEXT_BACKGROUND);
    assert_eq!(rows[15][15], TEXT_BACKGROUND);
    // a one-column screen: a character past the end of the text shows character 0
    let fb = Framebuffer { ptr: 0, base_address: 0, size_bytes: 0, width_px: 96, height_px: 128, bits_per_pixel: 32, pitch_bytes: 384 };
    let rows = fb.write_text(b"X", &font, &mapping);
    assert_eq!(rows.len(), 32);
    assert_eq!(rows[16][0], TEXT_BACKGROUND);
}

#[test]
fn response_chain_fits_inside_buffer() {
    // two messages of one value word each, then the end tag
    let buffer = [1, 4, 0, 5, 2, 4, 0, 6, 0];
    assert!(responses_fit(&buffer, 0, 3));
    // a value length that runs past the end of the buffer
    let buffer = [1, 4, 0, 5, 2, 40, 0, 6, 0];
    assert!(responses_fit(&buffer, 0, 1));
    assert!(!responses_fit(&buffer, 0, 2));
    // a header cut short is left to the reader, which reports it
    assert!(responses_fit(&[1, 4], 0, 2));
}
