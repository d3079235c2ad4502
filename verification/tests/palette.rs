use lib::hal::framebuffer::Framebuffer;
use lib::peripherals::mailbox::{Mailbox, PixelOrder, ReqResCode, RequestResponseStatus};
use lib::screen::Palette;

fn ramp() -> [u32; 256] {
    let mut values = [0u32; 256];
    for (i, v) in values.iter_mut().enumerate() {
        *v = 0xFF00_0000 | (i as u32) << 16 | 0x0000_3300 | (255 - i as u32);
    }
    values
}

#[test]
fn palette_words_in_same_order_are_kept() {
    let values = ramp();
    let p = Palette::from_u32_and_pixel_order(values, PixelOrder::Rgb);
    assert!(matches!(p, Palette::Rgba(_)));
    assert_eq!(p.into_u32_with_pixel_order(PixelOrder::Rgb), values);
    let p = Palette::bgra_from_u32(values);
    assert_eq!(p.into_u32_with_pixel_order(PixelOrder::Bgr), values);
}

#[test]
fn palette_words_in_other_order_swap_red_and_blue() {
    let mut values = [0u32; 256];
    values[0] = 0x8011_2233;
    values[1] = 0xFF00_00AA;
    let words = Palette::rgba_from_u32(values).into_u32_with_pixel_order(PixelOrder::Bgr);
    assert_eq!(words[0], 0x8033_2211);
    assert_eq!(words[1], 0xFFAA_0000);
    assert_eq!(words[2], 0);
}

#[test]
fn palette_round_trip_through_other_order() {
    let values = ramp();
    let p = Palette::rgba_from_u32(values);
    let bgr = p.into_u32_with_pixel_order(PixelOrder::Bgr);
    let back = Palette::from_u32_and_pixel_order(bgr, PixelOrder::Bgr);
    assert_eq!(back.into_u32_with_pixel_order(PixelOrder::Rgb), values);
}

#[test]
fn cga_palette_entries() {
    let words = Palette::cga().into_u32_with_pixel_order(PixelOrder::Rgb);
    assert_eq!(words[0], 0xff00_0000);
    assert_eq!(words[1], 0xff00_00aa);
    assert_eq!(words[6], 0xffaa_5500);
    assert_eq!(words[15], 0xffff_ffff);
    assert!(words[16..].iter().all(|w| *w == 0));
}

#[test]
fn palette_current_and_make_current() {
    let mut reply = Framebuffer::get_palette_request();
    let values = ramp();
    reply.buffer[2] = 0x8000_0400;
    reply.buffer[3..259].copy_from_slice(&values);
    reply.req_res_code = ReqResCode(RequestResponseStatus::Success);
    let p = Palette::current(&reply, PixelOrder::Bgr);
    assert!(matches!(p, Palette::Bgra(w) if w == values));
    let request: Mailbox = Palette::cga().make_current(PixelOrder::Rgb);
    assert_eq!(request.buffer[0], 0x0004_800b);
    assert_eq!(request.buffer[1], 8 + 4 * 256);
    assert_eq!(request.buffer[3], 0);
    assert_eq!(request.buffer[4], 256);
    assert_eq!(request.buffer[5], 0xff00_0000);
    assert_eq!(request.buffer[6], 0xff00_00aa);
}
