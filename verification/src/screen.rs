use vstd::prelude::*;
use crate::hal::framebuffer::{palette_request_buffer, Framebuffer};
use crate::peripherals::mailbox::{response_readable, response_value, Mailbox, PixelOrder, RequestResponseStatus};

verus! {

/// A size in pixels.
#[derive(Clone, Copy, PartialEq, Eq, Structural)]
pub struct Size {
    pub width: usize,
    pub height: usize,
}

/// A position in pixels.
#[derive(Clone, Copy, PartialEq, Eq, Structural)]
pub struct Offset {
    pub x: usize,
    pub y: usize,
}

/// Margins in pixels.
#[derive(Clone, Copy, PartialEq, Eq, Structural)]
pub struct Overscan {
    pub top: usize,
    pub bottom: usize,
    pub left: usize,
    pub right: usize,
}

/// The physical and virtual size of a screen, where the visible part starts, and the
/// margins.
#[derive(Clone, Copy, PartialEq, Eq, Structural)]
pub struct ScreenGeometry {
    pub physical_size: Size,
    pub virtual_size: Size,
    pub virtual_offset: Offset,
    pub overscan: Overscan,
}

impl ScreenGeometry {
    /// A screen of `size` whose virtual size is its physical size, at offset zero and
    /// without margins; the size must not be empty.
    pub fn with_size(size: Size) -> (r: Self)
        requires
            size.width != 0,
            size.height != 0,
        ensures
            r.physical_size == size,
            r.virtual_size == size,
            r.virtual_offset == (Offset { x: 0, y: 0 }),
            r.overscan == (Overscan { top: 0, bottom: 0, left: 0, right: 0 }),
    {
        ScreenGeometry {
            physical_size: size,
            virtual_size: size,
            virtual_offset: Offset { x: 0, y: 0 },
            overscan: Overscan { top: 0, bottom: 0, left: 0, right: 0 },
        }
    }

    /// The number of physical pixels.
    pub fn pixel_count(&self) -> (r: usize)
        requires
            self.physical_size.width * self.physical_size.height <= usize::MAX,
        ensures
            r == self.physical_size.width * self.physical_size.height,
    {
        self.physical_size.width * self.physical_size.height
    }
}

/// Why a screen could not be set up.
#[derive(Clone, Copy, PartialEq, Eq, Structural)]
pub enum ScreenError {
    NotEnoughMemory { required: u64 },
    ResolutionUnsupported { nearest_width: usize, nearest_height: usize },
    CouldNotCreateFramebuffer,
    CouldNotCreateVRam,
}

/// What happens to the back buffer after a swap: cleared to a value, copied from the
/// front, or left as it is.
pub enum SwapStrategy<T> {
    SwapAndClear(T),
    SwapAndCopy,
    Swap,
}

/// How the front buffer reaches the framebuffer.
#[derive(Clone, Copy, PartialEq, Eq, Structural)]
pub enum PresentStrategy {
    Memcopy,
    Dma,
    Dma2d,
}

/// The colour word `w` in the other pixel order: its lowest and third bytes (red and
/// blue) trade places, its second and top bytes (green and alpha) stay.
pub open spec fn swap_red_blue(w: u32) -> u32 {
    (w & 0xFF00_FF00u32) | ((w & 0xFFu32) << 16u32) | ((w >> 16u32) & 0xFFu32)
}

fn other_order_word(w: u32) -> (r: u32)
    ensures
        r == swap_red_blue(w),
{
    (w & 0xFF00_FF00u32) | ((w & 0xFFu32) << 16u32) | ((w >> 16u32) & 0xFFu32)
}

/// The 16 colours of the CGA palette, as RGBA words.
pub open spec fn cga_word(i: int) -> u32 {
    if i == 0 { 0xff_00_00_00u32 }
    else if i == 1 { 0xff_00_00_aau32 }
    else if i == 2 { 0xff_00_aa_00u32 }
    else if i == 3 { 0xff_00_aa_aau32 }
    else if i == 4 { 0xff_aa_00_00u32 }
    else if i == 5 { 0xff_aa_00_aau32 }
    else if i == 6 { 0xff_aa_55_00u32 }
    else if i == 7 { 0xff_aa_aa_aau32 }
    else if i == 8 { 0xff_55_55_55u32 }
    else if i == 9 { 0xff_55_55_ffu32 }
    else if i == 10 { 0xff_55_ff_55u32 }
    else if i == 11 { 0xff_55_ff_ffu32 }
    else if i == 12 { 0xff_ff_55_55u32 }
    else if i == 13 { 0xff_ff_55_ffu32 }
    else if i == 14 { 0xff_ff_ff_55u32 }
    else if i == 15 { 0xff_ff_ff_ffu32 }
    else { 0u32 }
}

/// 256 colours, each held as the word of its pixel order.
pub enum Palette {
    Bgra([u32; 256]),
    Rgba([u32; 256]),
}

/// The palette `from_u32_and_pixel_order` makes of `values` in `pixel_order`.
pub open spec fn palette_in_order(values: [u32; 256], pixel_order: PixelOrder) -> Palette {
    match pixel_order {
        PixelOrder::Bgr => Palette::Bgra(values),
        PixelOrder::Rgb => Palette::Rgba(values),
    }
}

impl Palette {
    /// The colour words of the palette in `pixel_order`: as held when the orders agree,
    /// else with red and blue exchanged.
    pub open spec fn words_in(self, pixel_order: PixelOrder) -> Seq<u32> {
        match (self, pixel_order) {
            (Palette::Bgra(w), PixelOrder::Bgr) => w@,
            (Palette::Rgba(w), PixelOrder::Rgb) => w@,
            (Palette::Bgra(w), PixelOrder::Rgb) => w@.map_values(|x: u32| swap_red_blue(x)),
            (Palette::Rgba(w), PixelOrder::Bgr) => w@.map_values(|x: u32| swap_red_blue(x)),
        }
    }

    /// A palette of RGBA colour words.
    pub fn rgba_from_u32(values: [u32; 256]) -> (r: Palette)
        ensures
            r == Palette::Rgba(values),
    {
        Palette::Rgba(values)
    }

    /// A palette of BGRA colour words.
    pub fn bgra_from_u32(values: [u32; 256]) -> (r: Palette)
        ensures
            r == Palette::Bgra(values),
    {
        Palette::Bgra(values)
    }

    /// A palette of colour words in `pixel_order`.
    pub fn from_u32_and_pixel_order(values: [u32; 256], pixel_order: PixelOrder) -> (r: Palette)
        ensures
            r == palette_in_order(values, pixel_order),
    {
        match pixel_order {
            PixelOrder::Bgr => Palette::bgra_from_u32(values),
            PixelOrder::Rgb => Palette::rgba_from_u32(values),
        }
    }

    /// The palette's colour words in `pixel_order`.
    pub fn into_u32_with_pixel_order(self, pixel_order: PixelOrder) -> (r: [u32; 256])
        ensures
            r@ == self.words_in(pixel_order),
    {
        let (words, same) = match (self, pixel_order) {
            (Palette::Bgra(w), PixelOrder::Bgr) => (w, true),
            (Palette::Rgba(w), PixelOrder::Rgb) => (w, true),
            (Palette::Bgra(w), PixelOrder::Rgb) => (w, false),
            (Palette::Rgba(w), PixelOrder::Bgr) => (w, false),
        };
        if same {
            return words;
        }
        let mut result: [u32; 256] = words;
        let mut i: usize = 0;
        while i < 256
            invariant
                i <= 256,
                result@.len() == 256,
                words@.len() == 256,
                forall|j: int| 0 <= j < i ==> result@[j] == swap_red_blue(words@[j]),
                forall|j: int| i <= j < 256 ==> result@[j] == words@[j],
            decreases 256 - i,
        {
            let w = result[i];
            result[i] = other_order_word(w);
            i += 1;
        }
        assert(result@ =~= words@.map_values(|x: u32| swap_red_blue(x)));
        result
    }

    /// The CGA palette: its 16 colours, then black (0) for the other entries.
    pub fn cga() -> (r: Palette)
        ensures
            r matches Palette::Rgba(w) && forall|i: int| 0 <= i < 256 ==> w@[i] == cga_word(i),
    {
        let mut values: [u32; 256] = [0u32; 256];
        values[0] = 0xff_00_00_00;
        values[1] = 0xff_00_00_aa;
        values[2] = 0xff_00_aa_00;
        values[3] = 0xff_00_aa_aa;
        values[4] = 0xff_aa_00_00;
        values[5] = 0xff_aa_00_aa;
        values[6] = 0xff_aa_55_00;
        values[7] = 0xff_aa_aa_aa;
        values[8] = 0xff_55_55_55;
        values[9] = 0xff_55_55_ff;
        values[10] = 0xff_55_ff_55;
        values[11] = 0xff_55_ff_ff;
        values[12] = 0xff_ff_55_55;
        values[13] = 0xff_ff_55_ff;
        values[14] = 0xff_ff_ff_55;
        values[15] = 0xff_ff_ff_ff;
        Palette::rgba_from_u32(values)
    }

    /// The current palette, from the firmware's answer to
    /// `Framebuffer::get_palette_request`, read in the framebuffer's `pixel_order`.
    pub fn current(reply: &Mailbox, pixel_order: PixelOrder) -> (r: Palette)
        requires
            reply.req_res_code.0 == RequestResponseStatus::Success,
            response_readable(reply.buffer@, 0),
            response_value(reply.buffer@, 0, 256) is Some,
        ensures
            r matches Palette::Bgra(w) ==> pixel_order == PixelOrder::Bgr && w@ == reply.buffer@.subrange(3, 259),
            r matches Palette::Rgba(w) ==> pixel_order == PixelOrder::Rgb && w@ == reply.buffer@.subrange(3, 259),
    {
        let entries = Framebuffer::get_palette(reply);
        let mut values: [u32; 256] = [0u32; 256];
        let mut i: usize = 0;
        while i < 256
            invariant
                i <= 256,
                entries@.len() == 256,
                values@.len() == 256,
                forall|j: int| 0 <= j < i ==> values@[j] == entries@[j],
            decreases 256 - i,
        {
            values[i] = entries[i];
            i += 1;
        }
        assert(values@ =~= entries@);
        Palette::from_u32_and_pixel_order(values, pixel_order)
    }

    /// The buffer that makes this palette the framebuffer's: all 256 entries, as words
    /// of the framebuffer's `pixel_order`, from entry 0.
    pub fn make_current(self, pixel_order: PixelOrder) -> (r: Mailbox)
        ensures
            r.wf(),
            r.req_res_code.0 == RequestResponseStatus::Pending,
            r.buffer@ == palette_request_buffer(0, self.words_in(pixel_order)),
    {
        let values = self.into_u32_with_pixel_order(pixel_order);
        let mut colors: Vec<u32> = Vec::new();
        let mut i: usize = 0;
        while i < 256
            invariant
                i <= 256,
                values@.len() == 256,
                colors@ == values@.subrange(0, i as int),
            decreases 256 - i,
        {
            colors.push(values[i]);
            i += 1;
            assert(colors@ =~= values@.subrange(0, i as int));
        }
        assert(colors@ =~= values@);
        Framebuffer::set_palette_request(0, &colors)
    }
}

/// Red and blue trade places twice over: a colour word taken to the other pixel order
/// and back is unchanged.
pub proof fn lemma_swap_red_blue_involution(w: u32)
    ensures
        swap_red_blue(swap_red_blue(w)) == w,
{
    assert(swap_red_blue(swap_red_blue(w)) == w) by (bit_vector);
}

/// A palette's words in one pixel order, made into a palette of that order, read back
/// in any order as the first palette: converting to another pixel order loses nothing.
pub proof fn lemma_pixel_order_round_trip(p: Palette, values: [u32; 256], via: PixelOrder, order: PixelOrder)
    requires
        values@ == p.words_in(via),
    ensures
        palette_in_order(values, via).words_in(order) == p.words_in(order),
{
    let (w, held) = match p {
        Palette::Bgra(w) => (w, PixelOrder::Bgr),
        Palette::Rgba(w) => (w, PixelOrder::Rgb),
    };
    assert forall|x: u32| #[trigger] swap_red_blue(swap_red_blue(x)) == x by {
        lemma_swap_red_blue_involution(x);
    }
    if via == held {
        assert(values@ == w@);
    } else {
        assert(values@ =~= w@.map_values(|x: u32| swap_red_blue(x)));
    }
    if order == held {
        assert(palette_in_order(values, via).words_in(order) =~= w@);
    } else {
        assert(palette_in_order(values, via).words_in(order) =~= w@.map_values(|x: u32| swap_red_blue(x)));
    }
}

} // verus!
