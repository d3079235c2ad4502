use vstd::prelude::*;
use crate::peripherals::mailbox::{
    Mailbox, MailboxError, RequestResponseStatus, ResponseIterator, message_words, next_position,
    next_response_value, response_readable, response_value,
};

verus! {

/// Colours as 32-bit values (alpha, blue, green, red from high byte to low).
pub const WHITE: u32 = 0xff_ff_ff_ff;
pub const BLACK: u32 = 0xff_00_00_00;
pub const RED: u32 = 0xff_00_00_ff;
pub const GREEN: u32 = 0xff_00_ff_00;
pub const BLUE: u32 = 0xff_ff_00_00;

/// Framebuffer property tags.
pub const FB_ALLOCATE_BUFFER: u32 = 0x00040001;
pub const FB_SET_PHYSICAL_DIMENSIONS: u32 = 0x00048003;
pub const FB_SET_VIRTUAL_DIMENSIONS: u32 = 0x00048004;
pub const FB_SET_DEPTH: u32 = 0x00048005;
pub const FB_SET_PIXEL_ORDER: u32 = 0x00048006;
pub const FB_GET_PITCH: u32 = 0x00040008;
pub const FB_SET_VIRTUAL_OFFSET: u32 = 0x00048009;
pub const FB_GET_PALETTE: u32 = 0x0004000b;
pub const FB_SET_PALETTE: u32 = 0x0004800b;

/// The alignment requested for a framebuffer allocation.
pub struct FbAllocate {
    pub alignment_bytes: u32,
}

/// A framebuffer the firmware allocated.
#[derive(Clone, Copy, PartialEq, Eq, Structural)]
pub struct Framebuffer {
    pub ptr: usize,
    pub base_address: u32,
    pub size_bytes: u32,
    pub width_px: u32,
    pub height_px: u32,
    pub bits_per_pixel: u32,
    pub pitch_bytes: u32,
}

/// The buffer that asks for a `width` by `height` framebuffer of `bpp` bits per pixel:
/// physical and virtual size, offset zero, depth, BGR order, a page-aligned
/// allocation, and the pitch.
pub open spec fn framebuffer_request_buffer(width: u32, height: u32, bpp: u32) -> Seq<u32> {
    Seq::new(64, |i: int|
        if i == 0 { FB_SET_PHYSICAL_DIMENSIONS }
        else if i == 1 { 8u32 }
        else if i == 3 { width }
        else if i == 4 { height }
        else if i == 5 { FB_SET_VIRTUAL_DIMENSIONS }
        else if i == 6 { 8u32 }
        else if i == 8 { width }
        else if i == 9 { height }
        else if i == 10 { FB_SET_VIRTUAL_OFFSET }
        else if i == 11 { 8u32 }
        else if i == 15 { FB_SET_DEPTH }
        else if i == 16 { 4u32 }
        else if i == 18 { bpp }
        else if i == 19 { FB_SET_PIXEL_ORDER }
        else if i == 20 { 4u32 }
        else if i == 23 { FB_ALLOCATE_BUFFER }
        else if i == 24 { 8u32 }
        else if i == 26 { 4096u32 }
        else if i == 28 { FB_GET_PITCH }
        else if i == 29 { 4u32 }
        else { 0u32 })
}

/// Positions of the seven responses to the framebuffer request.
pub open spec fn fb_position(s: Seq<u32>, n: nat) -> int
    decreases n,
{
    if n == 0 { 0 } else { next_position(s, fb_position(s, (n - 1) as nat)) }
}

/// Every response the framebuffer request reads can be read.
pub open spec fn framebuffer_reply_readable(s: Seq<u32>) -> bool {
    forall|n: nat| n < 7 ==> #[trigger] response_readable(s, fb_position(s, n))
}

/// The framebuffer the answer describes: size from the first response, depth from the
/// fourth, base address and size from the sixth, pitch from the seventh; the others
/// are not looked at. The pointer is the bus address with its two top bits cleared.
pub open spec fn framebuffer_of(s: Seq<u32>) -> Option<Framebuffer> {
    match (response_value(s, fb_position(s, 0), 2), response_value(s, fb_position(s, 3), 1),
        response_value(s, fb_position(s, 5), 2), response_value(s, fb_position(s, 6), 1)) {
        (Some(size), Some(depth), Some(alloc), Some(pitch)) => Some(Framebuffer {
            ptr: (alloc[0] % 0x4000_0000) as usize,
            base_address: alloc[0],
            size_bytes: alloc[1],
            width_px: size[0],
            height_px: size[1],
            bits_per_pixel: depth[0],
            pitch_bytes: pitch[0],
        }),
        _ => None,
    }
}

/// Number of bytes of a palette change with `n` colours: offset, length, colours.
pub open spec fn palette_change_bytes(n: int) -> int {
    8 + 4 * n
}

/// The buffer that sets `colors.len()` palette entries from `offset` on.
pub open spec fn palette_request_buffer(offset: u8, colors: Seq<u32>) -> Seq<u32> {
    Seq::new(280, |i: int|
        if i == 0 { FB_SET_PALETTE }
        else if i == 1 { palette_change_bytes(colors.len() as int) as u32 }
        else if i == 3 { offset as u32 }
        else if i == 4 { colors.len() as u32 }
        else if 5 <= i < 5 + colors.len() { colors[i - 5] }
        else { 0u32 })
}

impl Framebuffer {
    /// The buffer of the seven requests that allocate a framebuffer.
    pub fn request(width: u32, height: u32, bpp: u32) -> (r: Mailbox)
        ensures
            r.wf(),
            r.size == 140,
            r.req_res_code.0 == RequestResponseStatus::Pending,
            r.buffer@ == framebuffer_request_buffer(width, height, bpp),
    {
        let mut mailbox = Mailbox::new(64);
        let _ = mailbox.push_request_raw(FB_SET_PHYSICAL_DIMENSIONS, 8);
        mailbox.set_word(3, width);
        mailbox.set_word(4, height);
        let _ = mailbox.push_request_raw(FB_SET_VIRTUAL_DIMENSIONS, 8);
        mailbox.set_word(8, width);
        mailbox.set_word(9, height);
        let _ = mailbox.push_request_raw(FB_SET_VIRTUAL_OFFSET, 8);
        let _ = mailbox.push_request_raw(FB_SET_DEPTH, 4);
        mailbox.set_word(18, bpp);
        let _ = mailbox.push_request_raw(FB_SET_PIXEL_ORDER, 4);
        mailbox.set_word(22, 0);
        let _ = mailbox.push_request_raw(FB_ALLOCATE_BUFFER, 8);
        mailbox.set_word(26, 4096);
        let _ = mailbox.push_request_raw(FB_GET_PITCH, 4);
        assert(mailbox.buffer@ =~= framebuffer_request_buffer(width, height, bpp));
        mailbox
    }

    /// The framebuffer in the firmware's answer to `request`; `None` when the exchange
    /// failed or a response the framebuffer is read from is missing or short.
    pub fn new(mailbox: &Mailbox) -> (r: Option<Framebuffer>)
        requires
            framebuffer_reply_readable(mailbox.buffer@),
        ensures
            mailbox.req_res_code.0 != RequestResponseStatus::Success ==> r is None,
            mailbox.req_res_code.0 == RequestResponseStatus::Success ==> r == framebuffer_of(mailbox.buffer@),
    {
        let mut responses = match mailbox.submit_messages() {
            Ok(it) => it,
            Err(_) => { return None; },
        };
        let ghost s = mailbox.buffer@;
        assert(response_readable(s, fb_position(s, 0)));
        let size = next_response_value(&mut responses, 2);
        assert(response_readable(s, fb_position(s, 1)));
        let _ = next_response_value(&mut responses, 0);
        assert(response_readable(s, fb_position(s, 2)));
        let _ = next_response_value(&mut responses, 0);
        assert(response_readable(s, fb_position(s, 3)));
        let depth = next_response_value(&mut responses, 1);
        assert(response_readable(s, fb_position(s, 4)));
        let _ = next_response_value(&mut responses, 0);
        assert(response_readable(s, fb_position(s, 5)));
        let alloc = next_response_value(&mut responses, 2);
        assert(response_readable(s, fb_position(s, 6)));
        let pitch = next_response_value(&mut responses, 1);
        match (size, depth, alloc, pitch) {
            (Some(size), Some(depth), Some(alloc), Some(pitch)) => Some(Framebuffer {
                ptr: (alloc[0] % 0x4000_0000) as usize,
                base_address: alloc[0],
                size_bytes: alloc[1],
                width_px: size[0],
                height_px: size[1],
                bits_per_pixel: depth[0],
                pitch_bytes: pitch[0],
            }),
            _ => None,
        }
    }

    /// The buffer that sets palette entries `offset` to `offset + colors.len() - 1`.
    pub fn set_palette_request(offset: u8, colors: &Vec<u32>) -> (r: Mailbox)
        requires
            colors@.len() <= 256,
        ensures
            r.wf(),
            r.req_res_code.0 == RequestResponseStatus::Pending,
            r.buffer@ == palette_request_buffer(offset, colors@),
    {
        let mut mailbox = Mailbox::new(280);
        let n = colors.len();
        let bytes: u32 = (8 + 4 * n) as u32;
        let _ = mailbox.push_request_raw(FB_SET_PALETTE, bytes);
        mailbox.set_word(3, offset as u32);
        mailbox.set_word(4, n as u32);
        let mut i: usize = 0;
        while i < n
            invariant
                mailbox.wf(),
                mailbox.req_res_code.0 == RequestResponseStatus::Pending,
                n == colors@.len() <= 256,
                i <= n,
                bytes == palette_change_bytes(n as int) as u32,
                mailbox.buffer@.len() == 280,
                forall|j: int| 0 <= j < 280 ==> #[trigger] mailbox.buffer@[j] == if 5 + i <= j < 5 + n {
                    0u32
                } else {
                    palette_request_buffer(offset, colors@)[j]
                },
            decreases n - i,
        {
            mailbox.set_word(5 + i, colors[i]);
            i += 1;
        }
        assert(mailbox.buffer@ =~= palette_request_buffer(offset, colors@));
        mailbox
    }
}


/// Colour of a text pixel whose glyph bit is clear, and of one whose bit is set.
pub const TEXT_BACKGROUND: u32 = 0xFF0000AA;
pub const TEXT_FOREGROUND: u32 = 0xFFFFFFFF;

/// Colour of pixel (`x`, `y`) of the text area: characters are 8 by 8 glyphs drawn at
/// twice their size, laid out in rows of `(width - 80) / 16` characters; a position past
/// the end of the text shows character 0; `mapping` takes a character to its glyph,
/// counted modulo the font's length; byte `r` of a glyph (from the least significant)
/// is its row `r`, most significant bit leftmost.
pub open spec fn text_pixel(fb: Framebuffer, text: Seq<u8>, font: Seq<u64>, mapping: Seq<u8>, x: int, y: int) -> u32 {
    let columns = (fb.width_px - 80) / 16;
    let xx = x / 2;
    let yy = y / 2;
    let linear = (yy / 8) * columns + xx / 8;
    let ch = if linear < text.len() { text[linear] } else { 0u8 };
    let glyph = font[(mapping[ch as int] as int) % (font.len() as int)];
    let shift = (7 - yy % 8) * 8 + xx % 8;
    if (glyph << (shift as u64)) & 0x8000_0000_0000_0000u64 == 0 { TEXT_BACKGROUND } else { TEXT_FOREGROUND }
}

/// Whether pixel (`col`, `row`) of an 8 by 8 glyph is lit: row `row` is byte `row` of the
/// glyph counted from the least significant, and column 0 is that byte's most
/// significant bit.
pub open spec fn glyph_bit(glyph: u64, row: int, col: int) -> bool {
    (glyph >> ((8 * row + 7 - col) as u64)) & 1u64 == 1u64
}

proof fn lemma_top_bit_after_shift()
    ensures
        forall|g: u64, s: u64| s < 64 ==>
            (#[trigger] ((g << s) & 0x8000_0000_0000_0000u64) == 0u64 <==> ((g >> ((63 - s) as u64)) & 1u64) == 0u64),
{
    assert(forall|g: u64, s: u64| s < 64 ==>
        (#[trigger] ((g << s) & 0x8000_0000_0000_0000u64) == 0u64 <==> ((g >> ((63 - s) as u64)) & 1u64) == 0u64))
        by (bit_vector);
}

/// The text runs along the rows of the text area: character `k` fills the 16 by 16
/// pixel cell in column `k % columns` and row `k / columns`, where a row holds
/// `columns = (width - 80) / 16` characters; pixel (`dx`, `dy`) of that cell shows pixel
/// (`dx / 2`, `dy / 2`) of the character's glyph (each glyph pixel drawn twice as large).
pub proof fn lemma_text_cell(fb: Framebuffer, text: Seq<u8>, font: Seq<u64>, mapping: Seq<u8>, k: int, dx: int, dy: int)
    requires
        fb.width_px >= 96,
        font.len() > 0,
        mapping.len() == 256,
        0 <= k < text.len(),
        0 <= dx < 16,
        0 <= dy < 16,
    ensures
        ({
            let columns = (fb.width_px - 80) / 16;
            let glyph = font[(mapping[text[k] as int] as int) % (font.len() as int)];
            text_pixel(fb, text, font, mapping, (k % columns) * 16 + dx, (k / columns) * 16 + dy)
                == if glyph_bit(glyph, dy / 2, dx / 2) { TEXT_FOREGROUND } else { TEXT_BACKGROUND }
        }),
{
    let c = (fb.width_px - 80) / 16;
    assert(c >= 1);
    let col = k % c;
    let row = k / c;
    vstd::arithmetic::div_mod::lemma_fundamental_div_mod(k, c);
    vstd::arithmetic::div_mod::lemma_mod_pos_bound(k, c);
    vstd::arithmetic::div_mod::lemma_div_pos_is_pos(k, c);
    let x = col * 16 + dx;
    let y = row * 16 + dy;
    assert(x / 2 == col * 8 + dx / 2 && (col * 8 + dx / 2) / 8 == col && (col * 8 + dx / 2) % 8 == dx / 2)
        by (nonlinear_arith) requires col >= 0, 0 <= dx < 16, x == col * 16 + dx;
    assert(y / 2 == row * 8 + dy / 2 && (row * 8 + dy / 2) / 8 == row && (row * 8 + dy / 2) % 8 == dy / 2)
        by (nonlinear_arith) requires row >= 0, 0 <= dy < 16, y == row * 16 + dy;
    assert(row * c + col == k) by (nonlinear_arith) requires k == c * row + col;
    lemma_top_bit_after_shift();
    let glyph = font[(mapping[text[k] as int] as int) % (font.len() as int)];
    let shift = (7 - dy / 2) * 8 + dx / 2;
    assert(0 <= shift < 64);
    assert(63 - shift == 8 * (dy / 2) + 7 - dx / 2);
    let s64 = shift as u64;
    assert(((glyph << s64) & 0x8000_0000_0000_0000u64 == 0u64) <==> ((glyph >> ((63 - s64) as u64)) & 1u64) == 0u64);
    assert(((63 - s64) as u64) == ((8 * (dy / 2) + 7 - dx / 2) as u64));
    assert((glyph >> ((63 - s64) as u64)) & 1u64 == 0u64 || (glyph >> ((63 - s64) as u64)) & 1u64 == 1u64) by (bit_vector);
    let xx = ((k % c) * 16 + dx) / 2;
    let yy = ((k / c) * 16 + dy) / 2;
    assert((yy / 8) * c + xx / 8 == k);
    assert(yy % 8 == dy / 2 && xx % 8 == dx / 2);
    assert((7 - yy % 8) * 8 + xx % 8 == shift);
}

impl Framebuffer {
    /// The outcome of a palette change, from the firmware's answer to
    /// `set_palette_request`: whether the firmware accepted the change (it answers 0).
    pub fn set_palette(mailbox: &Mailbox) -> (r: Result<bool, MailboxError>)
        requires
            response_readable(mailbox.buffer@, 0),
            mailbox.buffer@.len() >= 3 && mailbox.buffer@[0] != 0 ==> message_words(mailbox.buffer@[1]) >= 4,
        ensures
            ({
                let s = mailbox.buffer@;
                if mailbox.req_res_code.0 != RequestResponseStatus::Success {
                    r == Err::<bool, MailboxError>(MailboxError::RequestResponseError(mailbox.req_res_code.0))
                } else if s.len() == 0 || s[0] == 0 {
                    r == Err::<bool, MailboxError>(MailboxError::Unknown)
                } else if s.len() < 3 {
                    r == Err::<bool, MailboxError>(MailboxError::BufferSizeMismatch)
                } else {
                    r == Ok::<bool, MailboxError>(s[3] == 0)
                }
            }),
    {
        let mut responses = match mailbox.submit_messages() {
            Ok(it) => it,
            Err(e) => { return Err(e); },
        };
        match responses.next() {
            None => Err(MailboxError::Unknown),
            Some(Err(e)) => Err(e),
            Some(Ok(response)) => {
                let value = response.try_value_as(1, 4);
                match value {
                    Some(v) => Ok(v[0] == 0),
                    None => Err(MailboxError::Unknown),
                }
            },
        }
    }

    /// The buffer that asks for the 256 palette entries.
    pub fn get_palette_request() -> (r: Mailbox)
        ensures
            r.wf(),
            r.req_res_code.0 == RequestResponseStatus::Pending,
            r.buffer@ == Seq::new(280, |i: int| if i == 0 { FB_GET_PALETTE } else if i == 1 { 1024u32 } else { 0u32 }),
    {
        let mut mailbox = Mailbox::new(280);
        let _ = mailbox.push_request_raw(FB_GET_PALETTE, 1024);
        assert(mailbox.buffer@ =~= Seq::new(280, |i: int| if i == 0 { FB_GET_PALETTE } else if i == 1 { 1024u32 } else { 0u32 }));
        mailbox
    }

    /// The 256 palette entries in the firmware's answer to `get_palette_request`; the
    /// exchange must have succeeded with a response of at least 256 words.
    pub fn get_palette(mailbox: &Mailbox) -> (r: Vec<u32>)
        requires
            mailbox.req_res_code.0 == RequestResponseStatus::Success,
            response_readable(mailbox.buffer@, 0),
            response_value(mailbox.buffer@, 0, 256) is Some,
        ensures
            r@ == mailbox.buffer@.subrange(3, 259),
    {
        let mut responses = match mailbox.submit_messages() {
            Ok(it) => it,
            Err(_) => { return Vec::new(); },
        };
        match next_response_value(&mut responses, 256) {
            Some(v) => v,
            None => Vec::new(),
        }
    }

    /// The byte offset in the buffer at which pixel (`x`, `y`) is written, or `None`
    /// for a pixel outside the frame.
    pub fn set_pixel_a8b8g8r8(&self, x: u32, y: u32) -> (r: Option<u32>)
        requires
            x < self.width_px && y < self.height_px ==> self.pitch_bytes * y + x * (self.bits_per_pixel / 8) <= u32::MAX,
        ensures
            x < self.width_px && y < self.height_px ==> r == Some((self.pitch_bytes * y + x * (self.bits_per_pixel / 8)) as u32),
            !(x < self.width_px && y < self.height_px) ==> r is None,
    {
        let bytes_per_pixel = self.bits_per_pixel / 8;
        if x < self.width_px && y < self.height_px {
            Some(self.pitch_bytes * y + x * bytes_per_pixel)
        } else {
            None
        }
    }

    /// The number of 32-bit pixels a clear fills: the whole buffer.
    pub fn clear(&self) -> (r: u32)
        ensures
            r == self.size_bytes / 4,
    {
        self.size_bytes / 4
    }

    /// The colours of the text area, row by row: the area starts at (40, 48) and leaves
    /// the same margin on the far sides.
    pub fn write_text(&self, text: &[u8], font: &[u64], mapping: &[u8]) -> (r: Vec<Vec<u32>>)
        requires
            self.width_px >= 80,
            self.height_px >= 96,
            font@.len() > 0,
            mapping@.len() == 256,
        ensures
            r@.len() == self.height_px - 96,
            forall|y: int| 0 <= y < r@.len() ==> #[trigger] r@[y]@.len() == self.width_px - 80,
            forall|y: int, x: int| 0 <= y < r@.len() && 0 <= x < self.width_px - 80 ==>
                #[trigger] r@[y]@[x] == text_pixel(*self, text@, font@, mapping@, x, y),
    {
        let width: u32 = self.width_px - 80;
        let height: u32 = self.height_px - 96;
        let columns: u64 = (width / 16) as u64;
        let mut rows: Vec<Vec<u32>> = Vec::new();
        let mut y: u32 = 0;
        while y < height
            invariant
                width == self.width_px - 80,
                height == self.height_px - 96,
                columns == width / 16,
                y <= height,
                font@.len() > 0,
                mapping@.len() == 256,
                rows@.len() == y,
                forall|j: int| 0 <= j < y ==> #[trigger] rows@[j]@.len() == width,
                forall|j: int, x: int| 0 <= j < y && 0 <= x < width ==>
                    #[trigger] rows@[j]@[x] == text_pixel(*self, text@, font@, mapping@, x, j),
            decreases height - y,
        {
            let mut row: Vec<u32> = Vec::new();
            let yy: u64 = (y / 2) as u64;
            let mut x: u32 = 0;
            while x < width
                invariant
                    width == self.width_px - 80,
                    columns == width / 16,
                    x <= width,
                    yy == y / 2,
                    font@.len() > 0,
                    mapping@.len() == 256,
                    row@.len() == x,
                    forall|i: int| 0 <= i < x ==> #[trigger] row@[i] == text_pixel(*self, text@, font@, mapping@, i, y as int),
                decreases width - x,
            {
                let xx: u64 = (x / 2) as u64;
                assert((yy / 8) * columns <= 0x1_0000_0000u64 * 0x1_0000_0000u64 / 64) by (nonlinear_arith)
                    requires yy / 8 < 0x1_0000_0000u64 / 8, columns < 0x1_0000_0000u64 / 8;
                let linear: u64 = (yy / 8) * columns + xx / 8;
                let ch: u8 = if linear < text.len() as u64 { text[linear as usize] } else { 0 };
                let glyph: u64 = font[(mapping[ch as usize] as usize) % font.len()];
                let shift: u64 = (7 - yy % 8) * 8 + xx % 8;
                let color: u32 = if (glyph << shift) & 0x8000_0000_0000_0000u64 == 0 { TEXT_BACKGROUND } else { TEXT_FOREGROUND };
                row.push(color);
                x += 1;
            }
            rows.push(row);
            y += 1;
        }
        rows
    }
}


/// The glyph of the character ROM font that shows character `c`: symbols and digits
/// map to themselves, capitals and `@[\]^` to 0 to 30, lower case letters to the
/// shifted set (128 + 1 to 26), braces to angle brackets, `_` to glyph 82, NUL and
/// newline to a space, anything else to glyph 255.
pub open spec fn spec_pet_glyph(c: u8) -> u8 {
    if c == 0 { 32 }
    else if 32 <= c <= 63 { c }
    else if 64 <= c <= 94 { (c - 64) as u8 }
    else if 97 <= c <= 122 { (c - 96 + 128) as u8 }
    else if c == 123 { 60 }
    else if c == 125 { 62 }
    else if c == 10 { 32 }
    else if c == 95 { 82 }
    else { 255 }
}

pub fn pet_glyph(c: u8) -> (r: u8)
    ensures
        r == spec_pet_glyph(c),
{
    if c == 0 { 32 }
    else if 32 <= c && c <= 63 { c }
    else if 64 <= c && c <= 94 { c - 64 }
    else if 97 <= c && c <= 122 { c - 96 + 128 }
    else if c == 123 { 60 }
    else if c == 125 { 62 }
    else if c == 10 { 32 }
    else if c == 95 { 82 }
    else { 255 }
}

/// The glyph of every character, as a table for `write_text`.
pub fn pet_glyph_table() -> (r: Vec<u8>)
    ensures
        r@.len() == 256,
        forall|c: int| 0 <= c < 256 ==> #[trigger] r@[c] == spec_pet_glyph(c as u8),
{
    let mut table: Vec<u8> = Vec::new();
    let mut c: usize = 0;
    while c < 256
        invariant
            c <= 256,
            table@.len() == c,
            forall|i: int| 0 <= i < c ==> #[trigger] table@[i] == spec_pet_glyph(i as u8),
        decreases 256 - c,
    {
        table.push(pet_glyph(c as u8));
        c += 1;
    }
    table
}

} // verus!
