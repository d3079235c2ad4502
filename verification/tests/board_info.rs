use lib::hal::info::{
    arm_memory_request, board_info_request, get_arm_memory, get_board_info, get_vc_memory,
    vc_memory_request, Manufacturer, MemoryBlock, MemoryMap, Processor, RamSize, Revision, Type,
};
use lib::peripherals::mailbox::{Mailbox, MailboxError, ReqResCode, RequestResponseStatus};

#[test]
fn revision_old_style_code_uses_the_table() {
    let r = Revision::from_code(0x000e);
    assert!(r == Revision::OldStyle {
        code: 0x000e,
        model: Type::Pi1B,
        revision_bcd: 0x20,
        memory_size: RamSize::Mb512,
        manufacturer: Manufacturer::SonyUK,
    });
    let r = Revision::from_code(0x0015);
    assert!(r == Revision::OldStyle {
        code: 0x0015,
        model: Type::Pi1APlus,
        revision_bcd: 0x11,
        memory_size: RamSize::Mb256,
        manufacturer: Manufacturer::Embest,
    });
}

#[test]
fn revision_new_style_pi4_is_decoded_field_by_field() {
    // Raspberry Pi 4B, 4 GB, Sony UK, revision 1.1
    let r = Revision::from_code(0x00c0_3111);
    assert!(r == Revision::NewStyle {
        code: 0x00c0_3111,
        overvoltage_prohibited: false,
        otp_program_prohibited: false,
        otp_reading_prohibited: false,
        warranty_voided: false,
        memory_size: RamSize::Gb4,
        manufacturer: Manufacturer::SonyUK,
        processor: Processor::BCM2711,
        model: Type::Pi4B,
        revision: 1,
    });
}

#[test]
fn revision_new_style_flags_are_read() {
    // Pi 3B+ (0x0d), 1 GB, Sony UK, BCM2837, with the overvoltage and warranty bits set
    let code: u32 = 0x8000_0000 | 0x0200_0000 | 0x00a0_20d3;
    let r = Revision::from_code(code);
    assert!(r == Revision::NewStyle {
        code,
        overvoltage_prohibited: true,
        otp_program_prohibited: false,
        otp_reading_prohibited: false,
        warranty_voided: true,
        memory_size: RamSize::Gb1,
        manufacturer: Manufacturer::SonyUK,
        processor: Processor::BCM2837,
        model: Type::Pi3BPlus,
        revision: 3,
    });
}

#[test]
fn revision_unknown_codes() {
    assert!(Revision::from_code(0x0001) == Revision::Unknown(0x0001));
    assert!(Revision::from_code(0x000a) == Revision::Unknown(0x000a));
    assert!(Revision::from_code(0x0016) == Revision::Unknown(0x0016));
}

#[test]
fn revision_decodable_only_with_known_fields() {
    assert!(Revision::is_decodable(0x0002));
    assert!(Revision::is_decodable(0x1234));
    assert!(Revision::is_decodable(0x00c0_3111));
    // memory size field 7 names no size
    assert!(!Revision::is_decodable(0x00f0_3111));
    // model field 0xff names no model
    assert!(!Revision::is_decodable(0x00c0_3ff1));
}

#[test]
fn model_and_memory_names() {
    assert_eq!(Type::Pi4B.name(), "4B");
    assert_eq!(Type::Zero2W.name(), "Zero 2 W");
    assert_eq!(Type::Unused7.name(), "Unknown Model");
    assert_eq!(RamSize::Gb8.name(), "8GB");
    assert_eq!(RamSize::Mb256.name(), "256MB");
    assert!(Type::from_index(17) == Type::Pi4B);
    assert!(Manufacturer::from_index(5) == Manufacturer::Stadium);
    assert!(Processor::from_index(4) == Processor::BCM2712);
    assert!(RamSize::from_index(3) == RamSize::Gb2);
}

#[test]
fn memory_block_constructors() {
    let b = MemoryBlock::from_symbols(10, 4);
    assert!(b == MemoryBlock(4, 10));
    assert_eq!(b.bottom(), 4);
    assert_eq!(b.top(), 10);
    assert_eq!(b.byte_size(), 6);
    assert!(MemoryBlock::from_symbols(4, 10) == MemoryBlock(4, 10));
    assert!(MemoryBlock::from_zero_to_symbol(0x8_0000) == MemoryBlock(0, 0x8_0000));
    assert!(MemoryBlock::from_address_and_size(0x1000, 0x100) == MemoryBlock(0x1000, 0x1100));
    assert!(MemoryBlock::from_start_and_count(0x1000, 4, 3) == MemoryBlock(0x1000, 0x100c));
    assert!(MemoryBlock::from(0x2000, 16) == MemoryBlock(0x2000, 0x2010));
    assert_eq!(MemoryBlock(10, 4).byte_size(), 6);
    assert!(MemoryMap::main_stack(0x8_0000) == MemoryBlock(0, 0x8_0000));
}

#[test]
fn memory_block_end_wraps_like_pointer_arithmetic() {
    assert!(MemoryBlock::from(usize::MAX, 2) == MemoryBlock(usize::MAX, 1));
    assert!(MemoryBlock::from_start_and_count(usize::MAX - 1, 4, 1) == MemoryBlock(usize::MAX - 1, 2));
}

#[test]
fn memory_requests_and_replies() {
    let r = arm_memory_request();
    assert_eq!(r.tag, 0x0001_0005);
    assert_eq!(r.words, vec![8u32]);
    assert_eq!(r.value_words, 2);
    let r = vc_memory_request();
    assert_eq!(r.tag, 0x0001_0006);
    assert!(r.words.is_empty());
    assert_eq!(r.value_words, 2);

    let reply: Result<Vec<u32>, MailboxError> = Ok(vec![0, 0x3c00_0000]);
    assert!(get_arm_memory(&reply) == Some(MemoryBlock(0, 0x3c00_0000)));
    let reply: Result<Vec<u32>, MailboxError> = Ok(vec![0x3c00_0000, 0x0400_0000]);
    assert!(get_vc_memory(&reply) == Some(MemoryBlock(0x3c00_0000, 0x4000_0000)));
    let short: Result<Vec<u32>, MailboxError> = Ok(vec![0]);
    assert!(get_arm_memory(&short).is_none());
    let failed: Result<Vec<u32>, MailboxError> = Err(MailboxError::BufferOverflow);
    assert!(get_vc_memory(&failed).is_none());
}

#[test]
fn board_info_request_layout() {
    let mb = board_info_request();
    assert_eq!(mb.size, 64);
    assert_eq!(mb.buffer.len(), 256);
    assert_eq!(&mb.buffer[0..12], &[0x0001_0001, 4, 0, 0, 0x0001_0002, 4, 0, 0, 0x0001_0004, 8, 0, 0]);
    assert!(mb.buffer[12..].iter().all(|w| *w == 0));
    assert!(mb.req_res_code.0 == RequestResponseStatus::Pending);
}

fn answered(buffer: Vec<u32>) -> Mailbox {
    let mut mb = board_info_request();
    mb.buffer = buffer;
    mb.req_res_code = ReqResCode(RequestResponseStatus::Success);
    mb
}

#[test]
fn board_info_from_answer() {
    let mut words = vec![0u32; 256];
    // the model's value buffer is 8 bytes long, so that the serial number starts on an
    // 8-byte boundary
    let answer = [0x0001_0001, 8, 0x8000_0004, 0x0000_0011, 0, 0x0001_0002, 4, 0x8000_0004, 0x00c0_3111,
        0x0001_0004, 8, 0x8000_0008, 0xdead_beef, 0x0000_0001];
    words[..answer.len()].copy_from_slice(&answer);
    let info = get_board_info(&answered(words)).expect("complete answer");
    assert_eq!(info.model, 0x11);
    assert_eq!(info.serial, 0x0000_0001_dead_beef);
    assert!(info.revision == Revision::from_code(0x00c0_3111));
}

#[test]
fn board_info_missing_when_serial_is_not_aligned() {
    // with 4-byte model and revision values the serial number's value starts at byte 52
    // of the mailbox, which a 64-bit read refuses
    let mut words = vec![0u32; 256];
    let answer = [0x0001_0001, 4, 0x8000_0004, 0x0000_0011, 0x0001_0002, 4, 0x8000_0004, 0x00c0_3111,
        0x0001_0004, 8, 0x8000_0008, 0xdead_beef, 0x0000_0001];
    words[..answer.len()].copy_from_slice(&answer);
    assert!(get_board_info(&answered(words)).is_none());
}

#[test]
fn board_info_missing_when_exchange_failed_or_short() {
    let mut mb = board_info_request();
    mb.req_res_code = ReqResCode(RequestResponseStatus::ErrorParsingRequestBuffer);
    assert!(get_board_info(&mb).is_none());
    // only two responses: the serial number is missing
    let mut words = vec![0u32; 256];
    let answer = [0x0001_0001, 4, 0, 1, 0x0001_0002, 4, 0, 2];
    words[..answer.len()].copy_from_slice(&answer);
    assert!(get_board_info(&answered(words)).is_none());
    // an undecodable revision code gives no board
    let mut words = vec![0u32; 256];
    let answer = [0x0001_0001, 4, 0, 1, 0x0001_0002, 4, 0, 0x00f0_3111, 0x0001_0004, 8, 0, 5, 0];
    words[..answer.len()].copy_from_slice(&answer);
    assert!(get_board_info(&answered(words)).is_none());
}

#[test]
fn revision_texts() {
    let text = |r: Revision| String::from_utf8(r.text()).unwrap();
    assert_eq!(text(Revision::from_code(0x00a0_2082)), "Model 3B 1GB 1.2");
    assert_eq!(text(Revision::from_code(0x0002)), "Model B 256MB 1.0");
    assert_eq!(text(Revision::Unknown(0x1234)), "Unknown Model Revision [0x1234]");
    assert_eq!(text(Revision::Unknown(0)), "Unknown Model Revision [0x0]");
}
