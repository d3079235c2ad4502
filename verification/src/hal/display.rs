use vstd::prelude::*;

verus! {

/// Little-endian 16 bit value of two bytes.
pub open spec fn le16(lo: u8, hi: u8) -> u16 {
    (lo as int + 256 * (hi as int)) as u16
}

pub fn from_le_bytes_u16(lo: u8, hi: u8) -> (r: u16)
    ensures
        r == le16(lo, hi),
{
    lo as u16 + 256 * (hi as u16)
}

/// The firmware's answer to a request for an EDID block.
pub struct GetEdidBlock {
    pub block_number: u32,
    pub status: u32,
    pub data: [u8; 128],
}

/// Walks the EDID blocks of the display: block 0, then its extensions.
pub struct EdidIterator {
    pub block_num: u8,
    pub block_total: u8,
}

impl EdidIterator {
    pub fn new() -> (r: Self)
        ensures
            r.block_num == 0,
            r.block_total == 1,
    {
        EdidIterator { block_num: 0, block_total: 1 }
    }
}

#[derive(Clone, Copy, PartialEq, Eq, Structural)]
pub enum BitDepth {
    Undefined,
    BitsPerColor6,
    BitsPerColor8,
    BitsPerColor10,
    BitsPerColor12,
    BitsPerColor14,
    BitsPerColor16,
    Reserved,
}

impl BitDepth {
    pub open spec fn spec_from(v: u8) -> Self {
        if v == 0 { BitDepth::Undefined }
        else if v == 1 { BitDepth::BitsPerColor6 }
        else if v == 2 { BitDepth::BitsPerColor8 }
        else if v == 3 { BitDepth::BitsPerColor10 }
        else if v == 4 { BitDepth::BitsPerColor12 }
        else if v == 5 { BitDepth::BitsPerColor14 }
        else if v == 6 { BitDepth::BitsPerColor16 }
        else { BitDepth::Reserved }
    }

    pub fn from_u8(v: u8) -> (r: Self)
        requires v < 8,
        ensures r == Self::spec_from(v),
    {
        if v == 0 { BitDepth::Undefined }
        else if v == 1 { BitDepth::BitsPerColor6 }
        else if v == 2 { BitDepth::BitsPerColor8 }
        else if v == 3 { BitDepth::BitsPerColor10 }
        else if v == 4 { BitDepth::BitsPerColor12 }
        else if v == 5 { BitDepth::BitsPerColor14 }
        else if v == 6 { BitDepth::BitsPerColor16 }
        else { BitDepth::Reserved }
    }
}

/// Digital video interface; the value is the four-bit code.
#[derive(Clone, Copy, PartialEq, Eq, Structural)]
pub enum VideoInterface {
    Undefined,
    Dvi,
    HdmiA,
    HdmiB,
    Mddi,
    DisplayPort,
    Unknown(u8),
}

impl VideoInterface {
    pub open spec fn spec_from(v: u8) -> Self {
        if v == 0 { VideoInterface::Undefined }
        else if v == 1 { VideoInterface::Dvi }
        else if v == 2 { VideoInterface::HdmiA }
        else if v == 3 { VideoInterface::HdmiB }
        else if v == 4 { VideoInterface::Mddi }
        else if v == 5 { VideoInterface::DisplayPort }
        else { VideoInterface::Unknown(v) }
    }

    pub fn from_u8(v: u8) -> (r: Self)
        ensures r == Self::spec_from(v),
    {
        if v == 0 { VideoInterface::Undefined }
        else if v == 1 { VideoInterface::Dvi }
        else if v == 2 { VideoInterface::HdmiA }
        else if v == 3 { VideoInterface::HdmiB }
        else if v == 4 { VideoInterface::Mddi }
        else if v == 5 { VideoInterface::DisplayPort }
        else { VideoInterface::Unknown(v) }
    }
}

#[derive(Clone, Copy, PartialEq, Eq, Structural)]
pub enum VideoWhiteAndSyncLevels {
    Plus0_7Minus0_3,
    Plus0_714Minus0_286,
    Plus1Minus0_4,
    Plus0_7Minus0EVC,
}

impl VideoWhiteAndSyncLevels {
    pub open spec fn spec_from(v: u8) -> Self {
        if v == 0 { VideoWhiteAndSyncLevels::Plus0_7Minus0_3 }
        else if v == 1 { VideoWhiteAndSyncLevels::Plus0_714Minus0_286 }
        else if v == 2 { VideoWhiteAndSyncLevels::Plus1Minus0_4 }
        else { VideoWhiteAndSyncLevels::Plus0_7Minus0EVC }
    }

    pub fn from_u8(v: u8) -> (r: Self)
        ensures r == Self::spec_from(v),
    {
        if v == 0 { VideoWhiteAndSyncLevels::Plus0_7Minus0_3 }
        else if v == 1 { VideoWhiteAndSyncLevels::Plus0_714Minus0_286 }
        else if v == 2 { VideoWhiteAndSyncLevels::Plus1Minus0_4 }
        else { VideoWhiteAndSyncLevels::Plus0_7Minus0EVC }
    }
}

#[derive(Clone, Copy, PartialEq, Eq, Structural)]
pub enum VideoInputParameter {
    Digital { bit_depth: BitDepth, video_interface: VideoInterface },
    Analog {
        white_and_sync_levels: VideoWhiteAndSyncLevels,
        blank_to_blank_setup_expected: bool,
        separate_sync_supported: bool,
        composite_sync_on_h_supported: bool,
        sync_on_green_supported: bool,
        vsync_pulse_serrated: bool,
    },
}

#[derive(Clone, Copy, PartialEq, Eq, Structural)]
pub enum ScreenGeometry {
    Undefined,
    Landscape(u8),
    Portrait(u8),
    SizeInCentimeters { h: u8, v: u8 },
}

#[derive(Clone, Copy, PartialEq, Eq, Structural)]
pub enum DisplayTypeAnalog {
    Monochrome,
    RGBColor,
    NonRGBColor,
    Undefined,
}

#[derive(Clone, Copy, PartialEq, Eq, Structural)]
pub enum DisplayTypeDigital {
    RGB444,
    Rgb444YCbCr444,
    Rgb444YCbCr422,
    Rgb444YCbCr444YCbCr422,
}

#[derive(Clone, Copy, PartialEq, Eq, Structural)]
pub enum DisplayType {
    Analog(DisplayTypeAnalog),
    Digital(DisplayTypeDigital),
}

impl DisplayType {
    pub open spec fn spec_from(digital: bool, v: u8) -> Self {
        if digital {
            DisplayType::Digital(
                if v == 0 { DisplayTypeDigital::RGB444 }
                else if v == 1 { DisplayTypeDigital::Rgb444YCbCr444 }
                else if v == 2 { DisplayTypeDigital::Rgb444YCbCr422 }
                else { DisplayTypeDigital::Rgb444YCbCr444YCbCr422 })
        } else {
            DisplayType::Analog(
                if v == 0 { DisplayTypeAnalog::Monochrome }
                else if v == 1 { DisplayTypeAnalog::RGBColor }
                else if v == 2 { DisplayTypeAnalog::NonRGBColor }
                else { DisplayTypeAnalog::Undefined })
        }
    }

    pub fn from_u8(digital: bool, v: u8) -> (r: Self)
        ensures r == Self::spec_from(digital, v),
    {
        if digital {
            DisplayType::Digital(
                if v == 0 { DisplayTypeDigital::RGB444 }
                else if v == 1 { DisplayTypeDigital::Rgb444YCbCr444 }
                else if v == 2 { DisplayTypeDigital::Rgb444YCbCr422 }
                else { DisplayTypeDigital::Rgb444YCbCr444YCbCr422 })
        } else {
            DisplayType::Analog(
                if v == 0 { DisplayTypeAnalog::Monochrome }
                else if v == 1 { DisplayTypeAnalog::RGBColor }
                else if v == 2 { DisplayTypeAnalog::NonRGBColor }
                else { DisplayTypeAnalog::Undefined })
        }
    }
}

#[derive(Clone, Copy, PartialEq, Eq, Structural)]
pub struct SupportedFeatures {
    pub dpms_standby_supported: bool,
    pub dpms_suspend_supported: bool,
    pub dpms_active_off_supported: bool,
    pub display_type: DisplayType,
    pub s_rgb: bool,
    pub preferred_timing_mode: bool,
    pub continuous_timings: bool,
}

/// A CIE chromaticity point in ten bit fixed point (value / 1024).
#[derive(Clone, Copy, PartialEq, Eq, Structural)]
pub struct CIEPoint {
    pub x: u16,
    pub y: u16,
}

#[derive(Clone, Copy, PartialEq, Eq, Structural)]
pub struct ChromaticityCoordinates {
    pub red: CIEPoint,
    pub green: CIEPoint,
    pub blue: CIEPoint,
    pub white: CIEPoint,
}

#[derive(Clone, Copy, PartialEq, Eq, Structural)]
pub struct CommonLegacyTimingSupport {
    pub _720_400_70: bool,
    pub _720_400_88: bool,
    pub _640_480_60: bool,
    pub _640_480_67: bool,
    pub _640_480_72: bool,
    pub _640_480_75: bool,
    pub _800_600_56: bool,
    pub _800_600_60: bool,
    pub _800_600_72: bool,
    pub _800_600_75: bool,
    pub _832_624_75: bool,
    pub _1024_768_87_interlaced: bool,
    pub _1024_768_60: bool,
    pub _1024_768_70: bool,
    pub _1024_768_75: bool,
    pub _1280_1024_75: bool,
    pub _1152_870_75: bool,
}

#[derive(Clone, Copy, PartialEq, Eq, Structural)]
pub enum StandardTimingImageAspectRatio {
    _16_10,
    _4_3,
    _5_4,
    _16_9,
}

#[derive(Clone, Copy, PartialEq, Eq, Structural)]
pub struct StandardTimingInformation {
    pub x_resolution: u16,
    pub image_aspect_ratio: StandardTimingImageAspectRatio,
    pub vertical_frequency: u8,
}

#[derive(Clone, Copy, PartialEq, Eq, Structural)]
pub enum SignalInterfaceType {
    NonInterlaced,
    Interlaced,
}

/// Stereo mode, from bits 6, 5 and 0 of the flags byte of a detailed timing.
#[derive(Clone, Copy, PartialEq, Eq, Structural)]
pub enum StereoMode {
    Mono,
    Nope,
    FieldSequentialRightDuringStereoSync,
    FieldSequentialLeftDuringStereoSync,
    TwoWayInterleavedRightOnEvenLines,
    TwoWayInterleavedLeftOnEvenLines,
    FourWayInterleaved,
    SideBySideInterleaved,
}

impl StereoMode {
    /// The mode of the three bit code 0bXYZ (bits 6, 5 of the flags as XY, bit 0 as Z).
    pub open spec fn spec_from(v: u8) -> Self {
        if v == 0 { StereoMode::Mono }
        else if v == 1 { StereoMode::Nope }
        else if v == 2 { StereoMode::FieldSequentialRightDuringStereoSync }
        else if v == 4 { StereoMode::FieldSequentialLeftDuringStereoSync }
        else if v == 3 { StereoMode::TwoWayInterleavedRightOnEvenLines }
        else if v == 5 { StereoMode::TwoWayInterleavedLeftOnEvenLines }
        else if v == 6 { StereoMode::FourWayInterleaved }
        else { StereoMode::SideBySideInterleaved }
    }

    pub fn from_u8(v: u8) -> (r: Self)
        ensures r == Self::spec_from(v),
    {
        if v == 0 { StereoMode::Mono }
        else if v == 1 { StereoMode::Nope }
        else if v == 2 { StereoMode::FieldSequentialRightDuringStereoSync }
        else if v == 4 { StereoMode::FieldSequentialLeftDuringStereoSync }
        else if v == 3 { StereoMode::TwoWayInterleavedRightOnEvenLines }
        else if v == 5 { StereoMode::TwoWayInterleavedLeftOnEvenLines }
        else if v == 6 { StereoMode::FourWayInterleaved }
        else { StereoMode::SideBySideInterleaved }
    }
}

#[derive(Clone, Copy, PartialEq, Eq, Structural)]
pub enum Polarity {
    Negative,
    Positive,
}

#[derive(Clone, Copy, PartialEq, Eq, Structural)]
pub enum Sync {
    AnalogComposite {
        bipolar: bool,
        serrations_hsync_during_vsync: bool,
        sync_on_red_and_blue_lines_additionally_to_green: bool,
    },
    DigitalComposite { serrations_hsync_during_vsync: bool, horizontal_sync_polarity: Polarity },
    DigitalSeparate { vertical_sync_polarity: Polarity, horizontal_sync_polarity: Polarity },
}

/// Thirteen bytes of descriptor text.
pub struct DescriptorText(pub Vec<u8>);

impl DescriptorText {
    /// The text without trailing ASCII whitespace.
    pub fn as_str(&self) -> (r: Vec<u8>)
        ensures
            r@ == trim_end(self.0@),
    {
        let mut n = self.0.len();
        assert(self.0@.subrange(0, n as int) =~= self.0@);
        while n > 0 && is_ascii_whitespace_exec(self.0[n - 1])
            invariant
                n <= self.0@.len(),
                trim_end(self.0@.subrange(0, n as int)) == trim_end(self.0@),
            decreases n,
        {
            assert(self.0@.subrange(0, n - 1) =~= self.0@.subrange(0, n as int).drop_last());
            n -= 1;
        }
        let mut out: Vec<u8> = Vec::new();
        let mut i: usize = 0;
        while i < n
            invariant
                i <= n <= self.0@.len(),
                out@ == self.0@.subrange(0, i as int),
            decreases n - i,
        {
            out.push(self.0[i]);
            i += 1;
            assert(out@ =~= self.0@.subrange(0, i as int));
        }
        assert(trim_end(self.0@.subrange(0, n as int)) == self.0@.subrange(0, n as int));
        out
    }
}

pub open spec fn is_ascii_whitespace(c: u8) -> bool {
    c == 32 || c == 9 || c == 10 || c == 12 || c == 13
}

fn is_ascii_whitespace_exec(c: u8) -> (r: bool)
    ensures
        r == is_ascii_whitespace(c),
{
    c == 32 || c == 9 || c == 10 || c == 12 || c == 13
}

/// `s` without trailing ASCII whitespace.
pub open spec fn trim_end(s: Seq<u8>) -> Seq<u8>
    decreases s.len(),
{
    if s.len() > 0 && is_ascii_whitespace(s.last()) {
        trim_end(s.drop_last())
    } else {
        s
    }
}

#[derive(Clone, Copy, PartialEq, Eq, Structural)]
pub enum AspectRatioPreference {
    Ar4by3,
    Ar16by9,
    Ar16by10,
    Ar5by4,
    Ar15by9,
}

impl AspectRatioPreference {
    pub open spec fn spec_from(v: u8) -> Self {
        if v == 0 { AspectRatioPreference::Ar4by3 }
        else if v == 1 { AspectRatioPreference::Ar16by9 }
        else if v == 2 { AspectRatioPreference::Ar16by10 }
        else if v == 3 { AspectRatioPreference::Ar5by4 }
        else { AspectRatioPreference::Ar15by9 }
    }

    pub fn from_u8(v: u8) -> (r: Self)
        requires v <= 4,
        ensures r == Self::spec_from(v),
    {
        if v == 0 { AspectRatioPreference::Ar4by3 }
        else if v == 1 { AspectRatioPreference::Ar16by9 }
        else if v == 2 { AspectRatioPreference::Ar16by10 }
        else if v == 3 { AspectRatioPreference::Ar5by4 }
        else { AspectRatioPreference::Ar15by9 }
    }
}

#[derive(Clone, Copy, PartialEq, Eq, Structural)]
pub enum ExtendedTimingInformation {
    DefaultGtf,
    NoTimingInformation,
    SecondaryGtfSupported { start_frequency_2khz: u8, gtf_c_0_5: u8, gtf_m: u16, gtf_k: u8, gtf_j_0_5: u8 },
    Cvt {
        cvt_version_major: u8,
        cvt_version_minor: u8,
        maximum_pixel_clock_reduction_250khz: u8,
        maximum_active_pixels_per_line: u16,
        ar_4_3: bool,
        ar_16_9: bool,
        ar_16_10: bool,
        ar_5_4: bool,
        ar_15_9: bool,
        preferred_aspect_ratio: AspectRatioPreference,
        preferred_reduced_blanking: bool,
        standard_blanking: bool,
        scaling_support_horizontal_shrink: bool,
        scaling_support_horizontal_stretch: bool,
        scaling_support_vertical_shrink: bool,
        scaling_support_vertical_stretch: bool,
        preferred_vertical_refresh_rate: u8,
    },
    Unknown(u8),
}

/// An 18 byte EDID display descriptor.
pub enum Descriptor {
    Unknown(u8),
    DetailedTiming {
        pixel_clock_10khz: u16,
        horizontal_active_pixels: u16,
        horizontal_blanking_pixels: u16,
        vertical_active_lines: u16,
        vertical_blanking_lines: u16,
        horizontal_front_porch_pixels: u16,
        horizontal_sync_pulse_width_pixels: u16,
        vertical_front_porch_lines: u8,
        vertical_sync_pulse_width_lines: u8,
        horizontal_image_size_mm: u16,
        vertical_image_size_mm: u16,
        horizontal_border_pixels: u8,
        vertical_border_lines: u8,
        signal_interface_type: SignalInterfaceType,
        stereo_mode: StereoMode,
        sync: Sync,
    },
    DisplaySerialNumber(DescriptorText),
    DisplayName(DescriptorText),
    UnspecifiedText(DescriptorText),
    RangeLimits {
        vertical_field_rate_hz_min_max: (u16, u16),
        horizontal_line_rate_khz_min_max: (u16, u16),
        maximum_pixel_clock_10mhz: u8,
        extended_timing_information: ExtendedTimingInformation,
    },
}

pub open spec fn flag(byte: u8, mask: u8) -> bool {
    byte & mask != 0
}

fn flag_exec(byte: u8, mask: u8) -> (r: bool)
    ensures
        r == flag(byte, mask),
{
    byte & mask != 0
}

pub open spec fn polarity(positive: bool) -> Polarity {
    if positive { Polarity::Positive } else { Polarity::Negative }
}

/// Sync description from the flags byte of a detailed timing.
pub open spec fn spec_sync(bitmap: u8) -> Sync {
    if (bitmap >> 4) & 1 == 0 {
        Sync::AnalogComposite {
            bipolar: (bitmap >> 3) & 1 == 1,
            serrations_hsync_during_vsync: (bitmap >> 2) & 1 == 1,
            sync_on_red_and_blue_lines_additionally_to_green: (bitmap >> 1) & 1 == 1,
        }
    } else if (bitmap >> 3) & 1 == 0 {
        Sync::DigitalComposite {
            serrations_hsync_during_vsync: (bitmap >> 2) & 1 == 1,
            horizontal_sync_polarity: polarity((bitmap >> 1) & 1 == 1),
        }
    } else {
        Sync::DigitalSeparate {
            vertical_sync_polarity: polarity((bitmap >> 2) & 1 == 1),
            horizontal_sync_polarity: polarity((bitmap >> 1) & 1 == 1),
        }
    }
}

fn sync_from(bitmap: u8) -> (r: Sync)
    ensures
        r == spec_sync(bitmap),
{
    if (bitmap >> 4) & 1 == 0 {
        Sync::AnalogComposite {
            bipolar: (bitmap >> 3) & 1 == 1,
            serrations_hsync_during_vsync: (bitmap >> 2) & 1 == 1,
            sync_on_red_and_blue_lines_additionally_to_green: (bitmap >> 1) & 1 == 1,
        }
    } else if (bitmap >> 3) & 1 == 0 {
        Sync::DigitalComposite {
            serrations_hsync_during_vsync: (bitmap >> 2) & 1 == 1,
            horizontal_sync_polarity: if (bitmap >> 1) & 1 == 1 { Polarity::Positive } else { Polarity::Negative },
        }
    } else {
        Sync::DigitalSeparate {
            vertical_sync_polarity: if (bitmap >> 2) & 1 == 1 { Polarity::Positive } else { Polarity::Negative },
            horizontal_sync_polarity: if (bitmap >> 1) & 1 == 1 { Polarity::Positive } else { Polarity::Negative },
        }
    }
}

/// A detailed timing descriptor: 12 bit sizes split between a low byte and a nibble.
pub open spec fn spec_detailed_timing(b: Seq<u8>) -> Descriptor {
    Descriptor::DetailedTiming {
        pixel_clock_10khz: le16(b[0], b[1]),
        horizontal_active_pixels: le16(b[2], b[4] >> 4),
        horizontal_blanking_pixels: le16(b[3], b[4] & 0xF),
        vertical_active_lines: le16(b[5], b[7] >> 4),
        vertical_blanking_lines: le16(b[6], b[7] & 0xF),
        horizontal_front_porch_pixels: le16(b[8], b[11] >> 6),
        horizontal_sync_pulse_width_pixels: le16(b[9], (b[11] >> 4) & 3),
        vertical_front_porch_lines: ((b[11] & 12) << 2) | (b[10] >> 4),
        vertical_sync_pulse_width_lines: ((b[11] & 3) << 4) | (b[10] & 0xF),
        horizontal_image_size_mm: le16(b[12], b[14] >> 4),
        vertical_image_size_mm: le16(b[13], b[14] & 0xF),
        horizontal_border_pixels: b[15],
        vertical_border_lines: b[16],
        signal_interface_type: if b[17] & 0x80 == 0 { SignalInterfaceType::NonInterlaced } else { SignalInterfaceType::Interlaced },
        stereo_mode: StereoMode::spec_from(((b[17] >> 4) & 6) | (b[17] & 1)),
        sync: spec_sync(b[17]),
    }
}

/// The display range limits descriptor (tag 0xFD); bits of byte 4 add 255 to the limits.
pub open spec fn spec_range_limits(b: Seq<u8>) -> Descriptor {
    Descriptor::RangeLimits {
        vertical_field_rate_hz_min_max: (
            (b[5] as int + ((b[4] >> 1) & 1) as int * 255) as u16,
            (b[6] as int + (b[4] & 1) as int * 255) as u16,
        ),
        horizontal_line_rate_khz_min_max: (
            (b[7] as int + ((b[4] >> 3) & 1) as int * 255) as u16,
            (b[8] as int + ((b[4] >> 2) & 1) as int * 255) as u16,
        ),
        maximum_pixel_clock_10mhz: b[9],
        extended_timing_information: if b[10] == 0 {
            ExtendedTimingInformation::DefaultGtf
        } else if b[10] == 1 {
            ExtendedTimingInformation::NoTimingInformation
        } else if b[10] == 2 {
            ExtendedTimingInformation::SecondaryGtfSupported {
                start_frequency_2khz: b[12],
                gtf_c_0_5: b[13],
                gtf_m: le16(b[14], b[15]),
                gtf_k: b[16],
                gtf_j_0_5: b[17],
            }
        } else if b[10] == 4 {
            ExtendedTimingInformation::Cvt {
                cvt_version_major: b[11] >> 4,
                cvt_version_minor: b[11] & 0xf,
                maximum_pixel_clock_reduction_250khz: b[12] >> 2,
                maximum_active_pixels_per_line: (((b[12] & 3) as int) * 256 + b[13] as int) as u16,
                ar_4_3: flag(b[14], 0x80),
                ar_16_9: flag(b[14], 0x40),
                ar_16_10: flag(b[14], 0x20),
                ar_5_4: flag(b[14], 0x10),
                ar_15_9: flag(b[14], 0x08),
                preferred_aspect_ratio: AspectRatioPreference::spec_from(b[15] >> 5),
                preferred_reduced_blanking: flag(b[15], 0x10),
                standard_blanking: flag(b[15], 0x08),
                scaling_support_horizontal_shrink: flag(b[16], 0x80),
                scaling_support_horizontal_stretch: flag(b[16], 0x40),
                scaling_support_vertical_shrink: flag(b[16], 0x20),
                scaling_support_vertical_stretch: flag(b[16], 0x10),
                preferred_vertical_refresh_rate: b[17],
            }
        } else {
            ExtendedTimingInformation::Unknown(b[10])
        },
    }
}

/// Whether decoding the bytes stays within the defined encodings: a CVT range limits
/// descriptor's preferred aspect ratio code must be at most 4.
pub open spec fn descriptor_decodable(b: Seq<u8>) -> bool {
    b.len() >= 18 && b[0] == 0 && b[1] == 0 && b[3] == 0xFD && b[10] == 4 ==> b[15] >> 5 <= 4
}

/// The text of a text descriptor: bytes 5 to 17.
pub open spec fn descriptor_text_of(b: Seq<u8>) -> Seq<u8> {
    b.subrange(5, 18)
}

/// Whether `r` is what the 18 descriptor bytes `b` decode to.
pub open spec fn spec_descriptor(b: Seq<u8>, r: Option<Descriptor>) -> bool {
    if b.len() < 18 {
        r is None
    } else if b[0] == 0 && b[1] == 0 {
        if b[3] == 0x10 {
            r is None
        } else if b[3] == 0xFF {
            r matches Some(Descriptor::DisplaySerialNumber(t)) && t.0@ == descriptor_text_of(b)
        } else if b[3] == 0xFE {
            r matches Some(Descriptor::UnspecifiedText(t)) && t.0@ == descriptor_text_of(b)
        } else if b[3] == 0xFC {
            r matches Some(Descriptor::DisplayName(t)) && t.0@ == descriptor_text_of(b)
        } else if b[3] == 0xFD {
            r == Some(spec_range_limits(b))
        } else {
            r == Some(Descriptor::Unknown(b[3]))
        }
    } else {
        r == Some(spec_detailed_timing(b))
    }
}

/// How the bytes of a descriptor split into a low byte and a nibble or bit pair:
/// shifts and masks read as quotients and remainders.
proof fn lemma_byte_splits()
    ensures
        forall|x: u8| #![trigger x >> 4u8] x >> 4u8 == x / 16,
        forall|x: u8| #![trigger x & 0xFu8] x & 0xFu8 == x % 16,
        forall|x: u8| #![trigger x >> 6u8] x >> 6u8 == x / 64,
        forall|x: u8| #![trigger (x >> 4u8) & 3u8] (x >> 4u8) & 3u8 == (x / 16) % 4,
        forall|x: u8, y: u8| #![trigger ((x & 12u8) << 2u8) | (y >> 4u8)]
            ((x & 12u8) << 2u8) | (y >> 4u8) == ((x / 4) % 4) * 16 + y / 16,
        forall|x: u8, y: u8| #![trigger ((x & 3u8) << 4u8) | (y & 0xFu8)]
            ((x & 3u8) << 4u8) | (y & 0xFu8) == (x % 4) * 16 + y % 16,
{
    assert(forall|x: u8| #![trigger x >> 4u8] x >> 4u8 == x / 16) by (bit_vector);
    assert(forall|x: u8| #![trigger x & 0xFu8] x & 0xFu8 == x % 16) by (bit_vector);
    assert(forall|x: u8| #![trigger x >> 6u8] x >> 6u8 == x / 64) by (bit_vector);
    assert(forall|x: u8| #![trigger (x >> 4u8) & 3u8] (x >> 4u8) & 3u8 == (x / 16) % 4) by (bit_vector);
    assert(forall|x: u8, y: u8| #![trigger ((x & 12u8) << 2u8) | (y >> 4u8)]
        ((x & 12u8) << 2u8) | (y >> 4u8) == ((x / 4) % 4) * 16 + y / 16) by (bit_vector);
    assert(forall|x: u8, y: u8| #![trigger ((x & 3u8) << 4u8) | (y & 0xFu8)]
        ((x & 3u8) << 4u8) | (y & 0xFu8) == (x % 4) * 16 + y % 16) by (bit_vector);
}

/// The sizes of a detailed timing descriptor (first two bytes not both zero) are 12
/// bit numbers: a low byte, and above it the high or the low nibble of a shared byte.
/// Byte 4 holds the high parts of the horizontal active (high nibble) and blanking
/// (low nibble) pixels; byte 7 those of the vertical active (high nibble) and blanking
/// (low nibble) lines; byte 14 those of the horizontal (high) and vertical (low) image
/// size. Byte 11 holds, from the top, two bits each of the horizontal front porch and
/// sync width and of the vertical front porch and sync width, whose low parts are in
/// bytes 8, 9 and the two nibbles of byte 10.
pub proof fn lemma_detailed_timing_fields(b: Seq<u8>, r: Option<Descriptor>)
    requires
        b.len() >= 18,
        !(b[0] == 0 && b[1] == 0),
        spec_descriptor(b, r),
    ensures
        r matches Some(Descriptor::DetailedTiming {
            pixel_clock_10khz, horizontal_active_pixels, horizontal_blanking_pixels, vertical_active_lines,
            vertical_blanking_lines, horizontal_front_porch_pixels, horizontal_sync_pulse_width_pixels,
            vertical_front_porch_lines, vertical_sync_pulse_width_lines, horizontal_image_size_mm,
            vertical_image_size_mm, horizontal_border_pixels, vertical_border_lines, .. })
        && pixel_clock_10khz == b[0] + 256 * b[1]
        && horizontal_active_pixels == b[2] + 256 * (b[4] / 16)
        && horizontal_blanking_pixels == b[3] + 256 * (b[4] % 16)
        && vertical_active_lines == b[5] + 256 * (b[7] / 16)
        && vertical_blanking_lines == b[6] + 256 * (b[7] % 16)
        && horizontal_front_porch_pixels == b[8] + 256 * (b[11] / 64)
        && horizontal_sync_pulse_width_pixels == b[9] + 256 * ((b[11] / 16) % 4)
        && vertical_front_porch_lines == ((b[11] / 4) % 4) * 16 + b[10] / 16
        && vertical_sync_pulse_width_lines == (b[11] % 4) * 16 + b[10] % 16
        && horizontal_image_size_mm == b[12] + 256 * (b[14] / 16)
        && vertical_image_size_mm == b[13] + 256 * (b[14] % 16)
        && horizontal_border_pixels == b[15]
        && vertical_border_lines == b[16],
{
    lemma_byte_splits();
    let x4 = b[4];
    let x7 = b[7];
    let x11 = b[11];
    let x14 = b[14];
    let x10 = b[10];
    assert(x4 >> 4u8 == x4 / 16 && x4 & 0xFu8 == x4 % 16);
    assert(x7 >> 4u8 == x7 / 16 && x7 & 0xFu8 == x7 % 16);
    assert(x14 >> 4u8 == x14 / 16 && x14 & 0xFu8 == x14 % 16);
    assert(x11 >> 6u8 == x11 / 64 && (x11 >> 4u8) & 3u8 == (x11 / 16) % 4);
    assert(((x11 & 12u8) << 2u8) | (x10 >> 4u8) == ((x11 / 4) % 4) * 16 + x10 / 16);
    assert(((x11 & 3u8) << 4u8) | (x10 & 0xFu8) == (x11 % 4) * 16 + x10 % 16);
}

/// The rate limits of a display range limits descriptor (tag 0xFD): each limit is its
/// byte, plus 255 when its offset flag in byte 4 is set: bit 1 for the minimum and bit
/// 0 for the maximum vertical rate, bit 3 for the minimum and bit 2 for the maximum
/// horizontal rate; byte 9 is the maximum pixel clock.
pub proof fn lemma_range_limit_fields(b: Seq<u8>, r: Option<Descriptor>)
    requires
        b.len() >= 18,
        b[0] == 0 && b[1] == 0 && b[3] == 0xFD,
        spec_descriptor(b, r),
    ensures
        r matches Some(Descriptor::RangeLimits {
            vertical_field_rate_hz_min_max, horizontal_line_rate_khz_min_max, maximum_pixel_clock_10mhz, .. })
        && vertical_field_rate_hz_min_max.0 == b[5] + 255 * ((b[4] / 2) % 2)
        && vertical_field_rate_hz_min_max.1 == b[6] + 255 * (b[4] % 2)
        && horizontal_line_rate_khz_min_max.0 == b[7] + 255 * ((b[4] / 8) % 2)
        && horizontal_line_rate_khz_min_max.1 == b[8] + 255 * ((b[4] / 4) % 2)
        && maximum_pixel_clock_10mhz == b[9],
{
    let x = b[4];
    assert(forall|x: u8| #![trigger x >> 1u8] (x >> 1u8) & 1 == (x / 2) % 2 && x & 1 == x % 2
        && (x >> 3u8) & 1 == (x / 8) % 2 && (x >> 2u8) & 1 == (x / 4) % 2) by (bit_vector);
    assert((x >> 1u8) & 1 == (x / 2) % 2);
}

fn copy_bytes(bytes: &[u8], from: usize, to: usize) -> (r: Vec<u8>)
    requires
        from <= to <= bytes@.len(),
    ensures
        r@ == bytes@.subrange(from as int, to as int),
{
    let mut out: Vec<u8> = Vec::new();
    let mut i = from;
    while i < to
        invariant
            from <= i <= to,
            to <= bytes@.len(),
            out@ == bytes@.subrange(from as int, i as int),
        decreases to - i,
    {
        out.push(bytes[i]);
        i += 1;
        assert(out@ =~= bytes@.subrange(from as int, i as int));
    }
    out
}

impl Descriptor {
    /// Decodes an 18 byte descriptor; `None` for fewer bytes or a dummy descriptor.
    pub fn from_bytes(bytes: &[u8]) -> (r: Option<Self>)
        requires
            descriptor_decodable(bytes@),
        ensures
            spec_descriptor(bytes@, r),
    {
        if bytes.len() < 18 {
            return None;
        }
        let byte0 = bytes[0];
        let byte1 = bytes[1];
        if byte0 == 0 && byte1 == 0 {
            let tag = bytes[3];
            if tag == 0x10 {
                None
            } else if tag == 0xFF {
                Some(Descriptor::DisplaySerialNumber(DescriptorText(copy_bytes(bytes, 5, 18))))
            } else if tag == 0xFE {
                Some(Descriptor::UnspecifiedText(DescriptorText(copy_bytes(bytes, 5, 18))))
            } else if tag == 0xFC {
                Some(Descriptor::DisplayName(DescriptorText(copy_bytes(bytes, 5, 18))))
            } else if tag == 0xFD {
                Some(range_limits_from(bytes))
            } else {
                Some(Descriptor::Unknown(tag))
            }
        } else {
            Some(detailed_timing_from(bytes))
        }
    }
}

fn range_limits_from(b: &[u8]) -> (r: Descriptor)
    requires
        b@.len() >= 18,
        descriptor_decodable(b@),
        b@[0] == 0 && b@[1] == 0 && b@[3] == 0xFD,
    ensures
        r == spec_range_limits(b@),
{
    let vmin = b[5] as u16 + ((b[4] >> 1) & 1) as u16 * 255;
    let vmax = b[6] as u16 + (b[4] & 1) as u16 * 255;
    let hmin = b[7] as u16 + ((b[4] >> 3) & 1) as u16 * 255;
    let hmax = b[8] as u16 + ((b[4] >> 2) & 1) as u16 * 255;
    let ext = if b[10] == 0 {
        ExtendedTimingInformation::DefaultGtf
    } else if b[10] == 1 {
        ExtendedTimingInformation::NoTimingInformation
    } else if b[10] == 2 {
        ExtendedTimingInformation::SecondaryGtfSupported {
            start_frequency_2khz: b[12],
            gtf_c_0_5: b[13],
            gtf_m: from_le_bytes_u16(b[14], b[15]),
            gtf_k: b[16],
            gtf_j_0_5: b[17],
        }
    } else if b[10] == 4 {
        ExtendedTimingInformation::Cvt {
            cvt_version_major: b[11] >> 4,
            cvt_version_minor: b[11] & 0xf,
            maximum_pixel_clock_reduction_250khz: b[12] >> 2,
            maximum_active_pixels_per_line: (b[12] & 3) as u16 * 256 + b[13] as u16,
            ar_4_3: flag_exec(b[14], 0x80),
            ar_16_9: flag_exec(b[14], 0x40),
            ar_16_10: flag_exec(b[14], 0x20),
            ar_5_4: flag_exec(b[14], 0x10),
            ar_15_9: flag_exec(b[14], 0x08),
            preferred_aspect_ratio: AspectRatioPreference::from_u8(b[15] >> 5),
            preferred_reduced_blanking: flag_exec(b[15], 0x10),
            standard_blanking: flag_exec(b[15], 0x08),
            scaling_support_horizontal_shrink: flag_exec(b[16], 0x80),
            scaling_support_horizontal_stretch: flag_exec(b[16], 0x40),
            scaling_support_vertical_shrink: flag_exec(b[16], 0x20),
            scaling_support_vertical_stretch: flag_exec(b[16], 0x10),
            preferred_vertical_refresh_rate: b[17],
        }
    } else {
        ExtendedTimingInformation::Unknown(b[10])
    };
    Descriptor::RangeLimits {
        vertical_field_rate_hz_min_max: (vmin, vmax),
        horizontal_line_rate_khz_min_max: (hmin, hmax),
        maximum_pixel_clock_10mhz: b[9],
        extended_timing_information: ext,
    }
}

fn detailed_timing_from(b: &[u8]) -> (r: Descriptor)
    requires
        b@.len() >= 18,
    ensures
        r == spec_detailed_timing(b@),
{
    Descriptor::DetailedTiming {
        pixel_clock_10khz: from_le_bytes_u16(b[0], b[1]),
        horizontal_active_pixels: from_le_bytes_u16(b[2], b[4] >> 4),
        horizontal_blanking_pixels: from_le_bytes_u16(b[3], b[4] & 0xF),
        vertical_active_lines: from_le_bytes_u16(b[5], b[7] >> 4),
        vertical_blanking_lines: from_le_bytes_u16(b[6], b[7] & 0xF),
        horizontal_front_porch_pixels: from_le_bytes_u16(b[8], b[11] >> 6),
        horizontal_sync_pulse_width_pixels: from_le_bytes_u16(b[9], (b[11] >> 4) & 3),
        vertical_front_porch_lines: ((b[11] & 12) << 2) | (b[10] >> 4),
        vertical_sync_pulse_width_lines: ((b[11] & 3) << 4) | (b[10] & 0xF),
        horizontal_image_size_mm: from_le_bytes_u16(b[12], b[14] >> 4),
        vertical_image_size_mm: from_le_bytes_u16(b[13], b[14] & 0xF),
        horizontal_border_pixels: b[15],
        vertical_border_lines: b[16],
        signal_interface_type: if b[17] & 0x80 == 0 { SignalInterfaceType::NonInterlaced } else { SignalInterfaceType::Interlaced },
        stereo_mode: StereoMode::from_u8(((b[17] >> 4) & 6) | (b[17] & 1)),
        sync: sync_from(b[17]),
    }
}

/// Whether 18 descriptor bytes hold a descriptor (a dummy descriptor, tag 0x10, holds none).
pub open spec fn descriptor_present(b: Seq<u8>) -> bool {
    b.len() >= 18 && !(b[0] == 0 && b[1] == 0 && b[3] == 0x10)
}

/// Walks consecutive 18 byte descriptors.
pub struct DescriptorIterator {
    pub bytes: Vec<u8>,
    pub position: usize,
}

impl DescriptorIterator {
    pub fn empty() -> (r: Self)
        ensures
            r.bytes@ == Seq::<u8>::empty(),
            r.position == 0,
    {
        DescriptorIterator { bytes: Vec::new(), position: 0 }
    }

    /// The bytes of the next descriptor, if 18 remain.
    pub open spec fn next_bytes(&self) -> Seq<u8> {
        self.bytes@.subrange(self.position as int, self.position + 18)
    }

    /// The next descriptor; `None` when fewer than 18 bytes remain or at a dummy.
    pub fn next(&mut self) -> (r: Option<Descriptor>)
        requires
            old(self).position <= old(self).bytes@.len(),
            old(self).position + 18 <= old(self).bytes@.len() ==> descriptor_decodable(old(self).next_bytes()),
        ensures
            final(self).bytes@ == old(self).bytes@,
            final(self).position <= final(self).bytes@.len(),
            old(self).position + 18 > old(self).bytes@.len() ==> r is None && final(self).position == old(self).position,
            old(self).position + 18 <= old(self).bytes@.len() ==> {
                &&& final(self).position == old(self).position + 18
                &&& spec_descriptor(old(self).next_bytes(), r)
            },
    {
        if self.bytes.len() - self.position < 18 {
            return None;
        }
        let start = self.position;
        let head = crate::monitor::tokenizer::slice_subrange(self.bytes.as_slice(), start, start + 18);
        let r = Descriptor::from_bytes(head);
        self.position = start + 18;
        r
    }
}

/// The four descriptors of a base EDID block start at these byte offsets.
pub open spec fn descriptor_offset(i: int) -> int {
    54 + 18 * i
}

/// A 128 byte base EDID block.
pub struct RawEdidBlock(pub [u8; 128]);

impl RawEdidBlock {
    pub fn test_block() -> (r: Self)
        ensures
            r.0@ == seq![
                0x00u8, 0xff, 0xff, 0xff, 0xff, 0xff, 0xff, 0x00, 0x05, 0xe3, 0x09, 0x19, 0x01, 0x01,
                0x01, 0x01, 0x00, 0x14, 0x01, 0x03, 0x80, 0x40, 0x24, 0x78, 0x0a, 0x5d, 0x95, 0xa3,
                0x59, 0x53, 0xa0, 0x27, 0x0f, 0x50, 0x54, 0xaf, 0xce, 0x00, 0x01, 0x01, 0x01, 0x01,
                0x01, 0x01, 0x01, 0x01, 0x01, 0x01, 0x01, 0x01, 0x01, 0x01, 0x01, 0x01, 0x1b, 0x21,
                0x50, 0xa0, 0x51, 0x00, 0x1e, 0x30, 0x48, 0x88, 0x35, 0x00, 0x80, 0x68, 0x21, 0x00,
                0x00, 0x18, 0x02, 0x3a, 0x80, 0xd0, 0x72, 0x38, 0x2d, 0x40, 0x10, 0x2c, 0x45, 0x80,
                0x80, 0x68, 0x21, 0x00, 0x00, 0x1e, 0x00, 0x00, 0x00, 0xfc, 0x00, 0x4c, 0x45, 0x31,
                0x39, 0x4b, 0x30, 0x39, 0x37, 0x0a, 0x20, 0x20, 0x20, 0x20, 0x00, 0x00, 0x00, 0xfd,
                0x00, 0x38, 0x4c, 0x1e, 0x53, 0x11, 0x00, 0x0a, 0x20, 0x20, 0x20, 0x20, 0x20, 0x20,
                0x01, 0x3c,
            ],
    {
        RawEdidBlock([
            0x00, 0xff, 0xff, 0xff, 0xff, 0xff, 0xff, 0x00, 0x05, 0xe3, 0x09, 0x19, 0x01, 0x01,
            0x01, 0x01, 0x00, 0x14, 0x01, 0x03, 0x80, 0x40, 0x24, 0x78, 0x0a, 0x5d, 0x95, 0xa3,
            0x59, 0x53, 0xa0, 0x27, 0x0f, 0x50, 0x54, 0xaf, 0xce, 0x00, 0x01, 0x01, 0x01, 0x01,
            0x01, 0x01, 0x01, 0x01, 0x01, 0x01, 0x01, 0x01, 0x01, 0x01, 0x01, 0x01, 0x1b, 0x21,
            0x50, 0xa0, 0x51, 0x00, 0x1e, 0x30, 0x48, 0x88, 0x35, 0x00, 0x80, 0x68, 0x21, 0x00,
            0x00, 0x18, 0x02, 0x3a, 0x80, 0xd0, 0x72, 0x38, 0x2d, 0x40, 0x10, 0x2c, 0x45, 0x80,
            0x80, 0x68, 0x21, 0x00, 0x00, 0x1e, 0x00, 0x00, 0x00, 0xfc, 0x00, 0x4c, 0x45, 0x31,
            0x39, 0x4b, 0x30, 0x39, 0x37, 0x0a, 0x20, 0x20, 0x20, 0x20, 0x00, 0x00, 0x00, 0xfd,
            0x00, 0x38, 0x4c, 0x1e, 0x53, 0x11, 0x00, 0x0a, 0x20, 0x20, 0x20, 0x20, 0x20, 0x20,
            0x01, 0x3c,
        ])
    }

    /// Three letters 'A'..'Z' from five bit codes in bytes 8 and 9.
    pub fn manufacturer_id(&self) -> (r: [u8; 3])
        ensures
            r@ == seq![
                (64 + ((self.0@[8] >> 2) & 31)) as u8,
                (64 + (((self.0@[8] << 3) & 24) | ((self.0@[9] >> 5) & 7))) as u8,
                (64 + (self.0@[9] & 31)) as u8,
            ],
    {
        let b8 = self.0[8];
        let b9 = self.0[9];
        assert((((b8 << 3) & 24) | ((b9 >> 5) & 7)) < 32 && ((b8 >> 2) & 31) < 32 && (b9 & 31) < 32) by (bit_vector);
        let l0 = 64 + ((b8 >> 2) & 31);
        let l1 = 64 + (((b8 << 3) & 24) | ((b9 >> 5) & 7));
        let l2 = 64 + (b9 & 31);
        let r = [l0, l1, l2];
        assert(r@ =~= seq![l0, l1, l2]);
        r
    }

    pub fn manufacturer_product_code(&self) -> (r: u16)
        ensures
            r == le16(self.0@[10], self.0@[11]),
    {
        from_le_bytes_u16(self.0[10], self.0[11])
    }

    pub fn serial_number(&self) -> (r: u32)
        ensures
            r == self.0@[12] as int + 256 * (self.0@[13] as int) + 65536 * (self.0@[14] as int) + 16777216 * (self.0@[15] as int),
    {
        self.0[12] as u32 + 256 * (self.0[13] as u32) + 65536 * (self.0[14] as u32) + 16777216 * (self.0[15] as u32)
    }

    pub fn week_of_manufacture(&self) -> (r: u8)
        ensures
            r == self.0@[16],
    {
        self.0[16]
    }

    pub fn year_of_manufacture(&self) -> (r: u16)
        ensures
            r == self.0@[17] as int + 1990,
    {
        self.0[17] as u16 + 1990
    }

    pub fn edid_version(&self) -> (r: u8)
        ensures
            r == self.0@[18],
    {
        self.0[18]
    }

    pub fn edid_revision(&self) -> (r: u8)
        ensures
            r == self.0@[19],
    {
        self.0[19]
    }

    /// Digital (bit 7 of byte 20 set) or analog input description.
    pub fn video_input_parameter(&self) -> (r: VideoInputParameter)
        ensures
            r == (if self.0@[20] & 0x80 == 0x80 {
                VideoInputParameter::Digital {
                    bit_depth: BitDepth::spec_from((self.0@[20] >> 4) & 7),
                    video_interface: VideoInterface::spec_from(self.0@[20] & 15),
                }
            } else {
                VideoInputParameter::Analog {
                    white_and_sync_levels: VideoWhiteAndSyncLevels::spec_from((self.0@[20] >> 5) & 3),
                    blank_to_blank_setup_expected: flag(self.0@[20], 16),
                    separate_sync_supported: flag(self.0@[20], 8),
                    composite_sync_on_h_supported: flag(self.0@[20], 4),
                    sync_on_green_supported: flag(self.0@[20], 2),
                    vsync_pulse_serrated: flag(self.0@[20], 1),
                }
            }),
    {
        let byte = self.0[20];
        if byte & 0x80 == 0x80 {
            let depth = (byte >> 4) & 7;
            assert(depth < 8) by (bit_vector) requires depth == (byte >> 4) & 7;
            VideoInputParameter::Digital {
                bit_depth: BitDepth::from_u8(depth),
                video_interface: VideoInterface::from_u8(byte & 15),
            }
        } else {
            VideoInputParameter::Analog {
                white_and_sync_levels: VideoWhiteAndSyncLevels::from_u8((byte >> 5) & 3),
                blank_to_blank_setup_expected: flag_exec(byte, 16),
                separate_sync_supported: flag_exec(byte, 8),
                composite_sync_on_h_supported: flag_exec(byte, 4),
                sync_on_green_supported: flag_exec(byte, 2),
                vsync_pulse_serrated: flag_exec(byte, 1),
            }
        }
    }

    pub fn screen_geometry(&self) -> (r: ScreenGeometry)
        ensures
            r == (if self.0@[21] == 0 && self.0@[22] == 0 {
                ScreenGeometry::Undefined
            } else if self.0@[22] == 0 {
                ScreenGeometry::Landscape(self.0@[21])
            } else if self.0@[21] == 0 {
                ScreenGeometry::Portrait(self.0@[22])
            } else {
                ScreenGeometry::SizeInCentimeters { h: self.0@[21], v: self.0@[22] }
            }),
    {
        let h = self.0[21];
        let v = self.0[22];
        if h == 0 && v == 0 {
            ScreenGeometry::Undefined
        } else if v == 0 {
            ScreenGeometry::Landscape(h)
        } else if h == 0 {
            ScreenGeometry::Portrait(v)
        } else {
            ScreenGeometry::SizeInCentimeters { h, v }
        }
    }

    pub fn supported_features(&self) -> (r: SupportedFeatures)
        ensures
            r == (SupportedFeatures {
                dpms_standby_supported: flag(self.0@[24], 0x80),
                dpms_suspend_supported: flag(self.0@[24], 0x40),
                dpms_active_off_supported: flag(self.0@[24], 0x20),
                display_type: DisplayType::spec_from(flag(self.0@[20], 0x80), (self.0@[24] >> 3) & 3),
                s_rgb: flag(self.0@[24], 0x04),
                preferred_timing_mode: flag(self.0@[24], 0x02),
                continuous_timings: flag(self.0@[24], 0x01),
            }),
    {
        let byte = self.0[24];
        let is_digital = flag_exec(self.0[20], 0x80);
        SupportedFeatures {
            dpms_standby_supported: flag_exec(byte, 0x80),
            dpms_suspend_supported: flag_exec(byte, 0x40),
            dpms_active_off_supported: flag_exec(byte, 0x20),
            display_type: DisplayType::from_u8(is_digital, (byte >> 3) & 3),
            s_rgb: flag_exec(byte, 0x04),
            preferred_timing_mode: flag_exec(byte, 0x02),
            continuous_timings: flag_exec(byte, 0x01),
        }
    }

    /// Ten bit coordinates: eight high bits in bytes 27..34, two low bits in 25 and 26.
    pub fn chromaticity_coordinates(&self) -> (r: ChromaticityCoordinates)
        ensures
            r.red.x == (self.0@[25] >> 6) as u16 + 4 * (self.0@[27] as u16),
            r.red.y == ((self.0@[25] >> 4) & 3) as u16 + 4 * (self.0@[28] as u16),
            r.green.x == ((self.0@[25] >> 2) & 3) as u16 + 4 * (self.0@[29] as u16),
            r.green.y == (self.0@[25] & 3) as u16 + 4 * (self.0@[30] as u16),
            r.blue.x == (self.0@[26] >> 6) as u16 + 4 * (self.0@[31] as u16),
            r.blue.y == ((self.0@[26] >> 4) & 3) as u16 + 4 * (self.0@[32] as u16),
            r.white.x == ((self.0@[26] >> 2) & 3) as u16 + 4 * (self.0@[33] as u16),
            r.white.y == (self.0@[26] & 3) as u16 + 4 * (self.0@[34] as u16),
    {
        let lsb = self.0[25];
        let lsb2 = self.0[26];
        assert((lsb >> 6) < 4 && (lsb2 >> 6) < 4) by (bit_vector);
        ChromaticityCoordinates {
            red: CIEPoint { x: (lsb >> 6) as u16 + 4 * (self.0[27] as u16), y: ((lsb >> 4) & 3) as u16 + 4 * (self.0[28] as u16) },
            green: CIEPoint { x: ((lsb >> 2) & 3) as u16 + 4 * (self.0[29] as u16), y: (lsb & 3) as u16 + 4 * (self.0[30] as u16) },
            blue: CIEPoint { x: (lsb2 >> 6) as u16 + 4 * (self.0[31] as u16), y: ((lsb2 >> 4) & 3) as u16 + 4 * (self.0[32] as u16) },
            white: CIEPoint { x: ((lsb2 >> 2) & 3) as u16 + 4 * (self.0[33] as u16), y: (lsb2 & 3) as u16 + 4 * (self.0[34] as u16) },
        }
    }

    pub fn common_timing_support(&self) -> (r: CommonLegacyTimingSupport)
        ensures
            r == (CommonLegacyTimingSupport {
                _720_400_70: flag(self.0@[35], 0x80),
                _720_400_88: flag(self.0@[35], 0x40),
                _640_480_60: flag(self.0@[35], 0x20),
                _640_480_67: flag(self.0@[35], 0x10),
                _640_480_72: flag(self.0@[35], 0x08),
                _640_480_75: flag(self.0@[35], 0x04),
                _800_600_56: flag(self.0@[35], 0x02),
                _800_600_60: flag(self.0@[35], 0x01),
                _800_600_72: flag(self.0@[36], 0x80),
                _800_600_75: flag(self.0@[36], 0x40),
                _832_624_75: flag(self.0@[36], 0x20),
                _1024_768_87_interlaced: flag(self.0@[36], 0x10),
                _1024_768_60: flag(self.0@[36], 0x08),
                _1024_768_70: flag(self.0@[36], 0x04),
                _1024_768_75: flag(self.0@[36], 0x02),
                _1280_1024_75: flag(self.0@[36], 0x01),
                _1152_870_75: flag(self.0@[37], 0x80),
            }),
    {
        let lo = self.0[35];
        let mid = self.0[36];
        let up = self.0[37];
        CommonLegacyTimingSupport {
            _720_400_70: flag_exec(lo, 0x80),
            _720_400_88: flag_exec(lo, 0x40),
            _640_480_60: flag_exec(lo, 0x20),
            _640_480_67: flag_exec(lo, 0x10),
            _640_480_72: flag_exec(lo, 0x08),
            _640_480_75: flag_exec(lo, 0x04),
            _800_600_56: flag_exec(lo, 0x02),
            _800_600_60: flag_exec(lo, 0x01),
            _800_600_72: flag_exec(mid, 0x80),
            _800_600_75: flag_exec(mid, 0x40),
            _832_624_75: flag_exec(mid, 0x20),
            _1024_768_87_interlaced: flag_exec(mid, 0x10),
            _1024_768_60: flag_exec(mid, 0x08),
            _1024_768_70: flag_exec(mid, 0x04),
            _1024_768_75: flag_exec(mid, 0x02),
            _1280_1024_75: flag_exec(mid, 0x01),
            _1152_870_75: flag_exec(up, 0x80),
        }
    }

    /// Standard timing `i` from bytes 38 + 2i and 39 + 2i; `0x01 0x01` marks an unused slot.
    pub open spec fn spec_standard_timing(&self, i: int) -> Option<StandardTimingInformation> {
        let byte0 = self.0@[38 + 2 * i];
        let byte1 = self.0@[39 + 2 * i];
        if byte0 == 1 && byte1 == 1 {
            None
        } else {
            Some(StandardTimingInformation {
                x_resolution: ((byte0 as int + 31) * 8) as u16,
                image_aspect_ratio: spec_aspect(byte1 >> 6),
                vertical_frequency: byte1 & 123,
            })
        }
    }

    /// The eight standard timings. The vertical frequency is the second byte masked with
    /// `0x3F + 60`, as written (operator precedence makes it a mask of 123).
    pub fn standard_timing_information(&self) -> (r: Vec<Option<StandardTimingInformation>>)
        ensures
            r@.len() == 8,
            forall|i: int| 0 <= i < 8 ==> r@[i] == self.spec_standard_timing(i),
    {
        let mut result: Vec<Option<StandardTimingInformation>> = Vec::new();
        let mut i: usize = 0;
        while i < 8
            invariant
                i <= 8,
                result@.len() == i,
                forall|k: int| 0 <= k < i ==> result@[k] == self.spec_standard_timing(k),
            decreases 8 - i,
        {
            let byte0 = self.0[38 + i * 2];
            let byte1 = self.0[39 + i * 2];
            let item = if byte0 == 1 && byte1 == 1 {
                None
            } else {
                Some(StandardTimingInformation {
                    x_resolution: (byte0 as u16 + 31) * 8,
                    image_aspect_ratio: aspect_from(byte1 >> 6),
                    vertical_frequency: byte1 & (0x3F + 60),
                })
            };
            result.push(item);
            i += 1;
        }
        result
    }

    /// Bytes of descriptor `i`.
    pub open spec fn descriptor_bytes(&self, i: int) -> Seq<u8> {
        self.0@.subrange(descriptor_offset(i), descriptor_offset(i) + 18)
    }

    /// Whether descriptors `0..=i` are all present.
    pub open spec fn present_through(&self, i: int) -> bool
        decreases i + 1,
    {
        if i < 0 {
            true
        } else {
            self.present_through(i - 1) && descriptor_present(self.descriptor_bytes(i))
        }
    }

    pub open spec fn descriptors_decodable(&self) -> bool {
        forall|i: int| 0 <= i < 4 ==> descriptor_decodable(#[trigger] self.descriptor_bytes(i))
    }

    /// The four descriptors, up to the first dummy: slot `i` is filled when the
    /// descriptors `0..=i` are all present.
    pub fn descriptors(&self) -> (r: Vec<Option<Descriptor>>)
        requires
            self.descriptors_decodable(),
        ensures
            r@.len() == 4,
            forall|i: int| 0 <= i < 4 ==> {
                if self.present_through(i) {
                    spec_descriptor(self.descriptor_bytes(i), #[trigger] r@[i]) && r@[i] is Some
                } else {
                    r@[i] is None
                }
            },
    {
        let mut iter = self.descriptors_iter();
        let mut result: Vec<Option<Descriptor>> = Vec::new();
        let mut stopped = false;
        let mut i: usize = 0;
        while i < 4
            invariant
                i <= 4,
                result@.len() == i,
                iter.bytes@ == self.0@.subrange(54, 126),
                iter.position == 18 * i,
                self.descriptors_decodable(),
                stopped == !self.present_through(i - 1),
                forall|k: int| 0 <= k < i ==> {
                    if self.present_through(k) {
                        spec_descriptor(self.descriptor_bytes(k), #[trigger] result@[k]) && result@[k] is Some
                    } else {
                        result@[k] is None
                    }
                },
            decreases 4 - i,
        {
            assert(iter.next_bytes() =~= self.descriptor_bytes(i as int));
            assert(descriptor_decodable(self.descriptor_bytes(i as int)));
            let d = iter.next();
            if stopped {
                result.push(None);
            } else {
                match d {
                    Some(desc) => {
                        result.push(Some(desc));
                    },
                    None => {
                        stopped = true;
                        result.push(None);
                    },
                }
            }
            i += 1;
        }
        result
    }

    /// Iterates over the descriptor bytes 54 to 125.
    pub fn descriptors_iter(&self) -> (r: DescriptorIterator)
        ensures
            r.bytes@ == self.0@.subrange(54, 126),
            r.position == 0,
    {
        DescriptorIterator { bytes: copy_bytes(self.0.as_slice(), 54, 126), position: 0 }
    }

    pub fn extension_len(&self) -> (r: u8)
        ensures
            r == self.0@[126],
    {
        self.0[126]
    }
}

pub open spec fn spec_aspect(v: u8) -> StandardTimingImageAspectRatio {
    if v == 0 {
        StandardTimingImageAspectRatio::_16_10
    } else if v == 1 {
        StandardTimingImageAspectRatio::_4_3
    } else if v == 2 {
        StandardTimingImageAspectRatio::_5_4
    } else {
        StandardTimingImageAspectRatio::_16_9
    }
}

fn aspect_from(v: u8) -> (r: StandardTimingImageAspectRatio)
    ensures
        r == spec_aspect(v),
{
    if v == 0 {
        StandardTimingImageAspectRatio::_16_10
    } else if v == 1 {
        StandardTimingImageAspectRatio::_4_3
    } else if v == 2 {
        StandardTimingImageAspectRatio::_5_4
    } else {
        StandardTimingImageAspectRatio::_16_9
    }
}

/// A CEA/CTA-861 data block: the type in the header's top three bits, the length in its
/// low five bits, the payload after the header.
pub enum CtaDataBlock {
    Empty,
    Audio { audio_blocks: CtaAudioIterator },
    Video { video_blocks: CtaVideoIterator },
    VendorSpecific { ieee_registration_id: [u8; 3], payload: Vec<u8> },
    SpeakerAllocation {
        rear_left_and_right_center: bool,
        front_left_and_right_center: bool,
        rear_center: bool,
        rear_left_and_right: bool,
        front_center: bool,
        low_frequency_effects: bool,
        front_left_and_right: bool,
    },
    VesaDisplayTransferCharacteristic,
    VideoFormat,
    Extended,
}

/// Payload bytes of a data block.
pub open spec fn cta_payload(block: Seq<u8>) -> Seq<u8> {
    block.subrange(1, 1 + (block[0] & 0x1f) as int)
}

/// A block the decoding handles: a header, a payload of the declared length, at least
/// three bytes for a vendor specific block and one for a speaker allocation block.
pub open spec fn cta_block_decodable(block: Seq<u8>) -> bool {
    &&& block.len() >= 1
    &&& 1 + (block[0] & 0x1f) <= block.len()
    &&& block[0] >> 5 == 3 ==> block[0] & 0x1f >= 3
    &&& block[0] >> 5 == 4 ==> block[0] & 0x1f >= 1
}

/// Whether `r` is the data block that `block` (header first) describes: its kind from
/// the header's top three bits, its contents from the payload.
pub open spec fn spec_cta_block(block: Seq<u8>, r: CtaDataBlock) -> bool {
    let kind = block[0] >> 5;
    let bytes = cta_payload(block);
    if kind == 1 {
        r matches CtaDataBlock::Audio { audio_blocks } && audio_blocks.bytes@ == bytes && audio_blocks.position == 0
    } else if kind == 2 {
        r matches CtaDataBlock::Video { video_blocks } && video_blocks.bytes@ == bytes && video_blocks.position == 0
    } else if kind == 3 {
        r matches CtaDataBlock::VendorSpecific { ieee_registration_id, payload }
            && ieee_registration_id@ == bytes.subrange(0, 3) && payload@ == bytes.subrange(3, bytes.len() as int)
    } else if kind == 4 {
        r matches CtaDataBlock::SpeakerAllocation {
            rear_left_and_right_center, front_left_and_right_center, rear_center, rear_left_and_right,
            front_center, low_frequency_effects, front_left_and_right }
            && rear_left_and_right_center == flag(bytes[0], 0x40)
            && front_left_and_right_center == flag(bytes[0], 0x20)
            && rear_center == flag(bytes[0], 0x10)
            && rear_left_and_right == flag(bytes[0], 0x08)
            && front_center == flag(bytes[0], 0x04)
            && low_frequency_effects == flag(bytes[0], 0x02)
            && front_left_and_right == flag(bytes[0], 0x01)
    } else if kind == 5 {
        r is VesaDisplayTransferCharacteristic
    } else if kind == 6 {
        r is VideoFormat
    } else if kind == 7 {
        r is Extended
    } else {
        r is Empty
    }
}

impl CtaDataBlock {
    pub fn new(block: &[u8]) -> (r: Self)
        requires
            cta_block_decodable(block@),
        ensures
            spec_cta_block(block@, r),
    {
        let block_type = block[0] >> 5;
        let len = (block[0] & 0x1f) as usize;
        let bytes = copy_bytes(block, 1, 1 + len);
        if block_type == 1 {
            CtaDataBlock::Audio { audio_blocks: CtaAudioIterator { bytes, position: 0 } }
        } else if block_type == 2 {
            CtaDataBlock::Video { video_blocks: CtaVideoIterator { bytes, position: 0 } }
        } else if block_type == 3 {
            let id = [bytes[0], bytes[1], bytes[2]];
            assert(id@ =~= bytes@.subrange(0, 3));
            let payload = copy_bytes(bytes.as_slice(), 3, bytes.len());
            CtaDataBlock::VendorSpecific { ieee_registration_id: id, payload }
        } else if block_type == 4 {
            let b = bytes[0];
            CtaDataBlock::SpeakerAllocation {
                rear_left_and_right_center: flag_exec(b, 0x40),
                front_left_and_right_center: flag_exec(b, 0x20),
                rear_center: flag_exec(b, 0x10),
                rear_left_and_right: flag_exec(b, 0x08),
                front_center: flag_exec(b, 0x04),
                low_frequency_effects: flag_exec(b, 0x02),
                front_left_and_right: flag_exec(b, 0x01),
            }
        } else if block_type == 5 {
            CtaDataBlock::VesaDisplayTransferCharacteristic
        } else if block_type == 6 {
            CtaDataBlock::VideoFormat
        } else if block_type == 7 {
            CtaDataBlock::Extended
        } else {
            CtaDataBlock::Empty
        }
    }
}

/// Walks the data blocks of a CTA extension.
pub struct CtaDataBlockIterator {
    pub bytes: Vec<u8>,
    pub position: usize,
}

impl CtaDataBlockIterator {
    /// The next data block; none at the end or at a block of length zero.
    pub fn next(&mut self) -> (r: Option<CtaDataBlock>)
        requires
            old(self).position <= old(self).bytes@.len(),
            old(self).position < old(self).bytes@.len() && old(self).bytes@[old(self).position as int] & 0x1f != 0
                ==> cta_block_decodable(old(self).bytes@.subrange(old(self).position as int, old(self).bytes@.len() as int)),
        ensures
            final(self).bytes@ == old(self).bytes@,
            final(self).position <= final(self).bytes@.len(),
            ({
                let p = old(self).position as int;
                let s = old(self).bytes@;
                if p == s.len() || s[p] & 0x1f == 0 {
                    r is None && final(self).position == old(self).position
                } else {
                    &&& r matches Some(b) && spec_cta_block(s.subrange(p, p + 1 + (s[p] & 0x1f)), b)
                    &&& final(self).position == p + 1 + (s[p] & 0x1f)
                }
            }),
    {
        if self.position == self.bytes.len() {
            return None;
        }
        let len = (self.bytes[self.position] & 0x1f) as usize;
        if len == 0 {
            return None;
        }
        let rest = crate::monitor::tokenizer::slice_subrange(self.bytes.as_slice(), self.position, self.bytes.len());
        let block = CtaDataBlock::new(rest);
        proof {
            let sp = old(self).bytes@;
            let p = old(self).position as int;
            let short = sp.subrange(p, p + 1 + (sp[p] & 0x1f));
            assert(short[0] == rest@[0]);
            assert(cta_payload(short) =~= cta_payload(rest@));
        }
        self.position = self.position + len + 1;
        Some(block)
    }
}

#[derive(Clone, Copy, PartialEq, Eq, Structural)]
pub enum AudioFormat {
    Reserved,
    LinearPulseCodeModulation,
    Ac3,
    Mpeg1Layer1_2,
    Mp3Mpeg1Layer3,
    Mpeg2,
    AacLc,
    Dts,
    Atrac,
    Sacd,
    DdPlus,
    DtsHd,
    MatMlpDolbyTrueHd,
    DstAudio,
    WmaPro,
    Extension,
}

impl AudioFormat {
    pub open spec fn spec_code(self) -> u8 {
        match self {
            AudioFormat::Reserved => 0,
            AudioFormat::LinearPulseCodeModulation => 1,
            AudioFormat::Ac3 => 2,
            AudioFormat::Mpeg1Layer1_2 => 3,
            AudioFormat::Mp3Mpeg1Layer3 => 4,
            AudioFormat::Mpeg2 => 5,
            AudioFormat::AacLc => 6,
            AudioFormat::Dts => 7,
            AudioFormat::Atrac => 8,
            AudioFormat::Sacd => 9,
            AudioFormat::DdPlus => 10,
            AudioFormat::DtsHd => 11,
            AudioFormat::MatMlpDolbyTrueHd => 12,
            AudioFormat::DstAudio => 13,
            AudioFormat::WmaPro => 14,
            AudioFormat::Extension => 15,
        }
    }

    pub fn from_code(v: u8) -> (r: Self)
        requires
            v < 16,
        ensures
            r.spec_code() == v,
    {
        if v == 0 { AudioFormat::Reserved }
        else if v == 1 { AudioFormat::LinearPulseCodeModulation }
        else if v == 2 { AudioFormat::Ac3 }
        else if v == 3 { AudioFormat::Mpeg1Layer1_2 }
        else if v == 4 { AudioFormat::Mp3Mpeg1Layer3 }
        else if v == 5 { AudioFormat::Mpeg2 }
        else if v == 6 { AudioFormat::AacLc }
        else if v == 7 { AudioFormat::Dts }
        else if v == 8 { AudioFormat::Atrac }
        else if v == 9 { AudioFormat::Sacd }
        else if v == 10 { AudioFormat::DdPlus }
        else if v == 11 { AudioFormat::DtsHd }
        else if v == 12 { AudioFormat::MatMlpDolbyTrueHd }
        else if v == 13 { AudioFormat::DstAudio }
        else if v == 14 { AudioFormat::WmaPro }
        else { AudioFormat::Extension }
    }
}

#[derive(Clone, Copy, PartialEq, Eq, Structural)]
pub struct CtaShortAudioDescriptor {
    pub audio_format: AudioFormat,
    pub num_channels: u8,
    pub sr_192: bool,
    pub sr_176: bool,
    pub sr_96: bool,
    pub sr_88: bool,
    pub sr_48: bool,
    pub sr_44_1: bool,
    pub sr_32: bool,
}

impl CtaShortAudioDescriptor {
    /// Format code in the top five bits of byte 0 (codes up to 15 are defined), channel
    /// count minus one in its low three bits, sample rates in byte 1.
    pub fn from_bytes(bytes: [u8; 3]) -> (r: Self)
        requires
            bytes@[0] >> 3 < 16,
        ensures
            r.audio_format.spec_code() == bytes@[0] >> 3,
            r.num_channels == (bytes@[0] & 7) + 1,
            r.sr_192 == flag(bytes@[1], 0x40),
            r.sr_176 == flag(bytes@[1], 0x20),
            r.sr_96 == flag(bytes@[1], 0x10),
            r.sr_88 == flag(bytes@[1], 0x08),
            r.sr_48 == flag(bytes@[1], 0x04),
            r.sr_44_1 == flag(bytes@[1], 0x02),
            r.sr_32 == flag(bytes@[1], 0x01),
    {
        let b0 = bytes[0];
        let b1 = bytes[1];
        assert(b0 & 7 < 8) by (bit_vector);
        CtaShortAudioDescriptor {
            audio_format: AudioFormat::from_code(b0 >> 3),
            num_channels: (b0 & 7) + 1,
            sr_192: flag_exec(b1, 0x40),
            sr_176: flag_exec(b1, 0x20),
            sr_96: flag_exec(b1, 0x10),
            sr_88: flag_exec(b1, 0x08),
            sr_48: flag_exec(b1, 0x04),
            sr_44_1: flag_exec(b1, 0x02),
            sr_32: flag_exec(b1, 0x01),
        }
    }
}

/// Walks three byte short audio descriptors.
pub struct CtaAudioIterator {
    pub bytes: Vec<u8>,
    pub position: usize,
}

impl CtaAudioIterator {
    pub fn next(&mut self) -> (r: Option<CtaShortAudioDescriptor>)
        requires
            old(self).position <= old(self).bytes@.len(),
            old(self).position < old(self).bytes@.len() ==> {
                &&& old(self).position + 3 <= old(self).bytes@.len()
                &&& old(self).bytes@[old(self).position as int] >> 3 < 16
            },
        ensures
            final(self).bytes@ == old(self).bytes@,
            final(self).position <= final(self).bytes@.len(),
            old(self).position == old(self).bytes@.len() ==> r is None && final(self).position == old(self).position,
            old(self).position < old(self).bytes@.len() ==> {
                &&& final(self).position == old(self).position + 3
                &&& r matches Some(d) && {
                    let b0 = old(self).bytes@[old(self).position as int];
                    let b1 = old(self).bytes@[old(self).position + 1];
                    &&& d.audio_format.spec_code() == b0 >> 3
                    &&& d.num_channels == (b0 & 7) + 1
                    &&& d.sr_192 == flag(b1, 0x40)
                    &&& d.sr_176 == flag(b1, 0x20)
                    &&& d.sr_96 == flag(b1, 0x10)
                    &&& d.sr_88 == flag(b1, 0x08)
                    &&& d.sr_48 == flag(b1, 0x04)
                    &&& d.sr_44_1 == flag(b1, 0x02)
                    &&& d.sr_32 == flag(b1, 0x01)
                }
            },
    {
        if self.position == self.bytes.len() {
            return None;
        }
        let p = self.position;
        let block = [self.bytes[p], self.bytes[p + 1], self.bytes[p + 2]];
        self.position = p + 3;
        Some(CtaShortAudioDescriptor::from_bytes(block))
    }
}

#[derive(Clone, Copy, PartialEq, Eq, Structural)]
pub struct CtaShortVideoDescriptor {
    pub native: bool,
    pub video_identification_code: u8,
}

impl CtaShortVideoDescriptor {
    pub fn from_bytes(bytes: [u8; 1]) -> (r: Self)
        ensures
            r.native == flag(bytes@[0], 0x80),
            r.video_identification_code == bytes@[0] & 0x7F,
    {
        CtaShortVideoDescriptor { native: flag_exec(bytes[0], 0x80), video_identification_code: bytes[0] & 0x7F }
    }
}

/// Walks one byte short video descriptors.
pub struct CtaVideoIterator {
    pub bytes: Vec<u8>,
    pub position: usize,
}

impl CtaVideoIterator {
    pub fn next(&mut self) -> (r: Option<CtaShortVideoDescriptor>)
        requires
            old(self).position <= old(self).bytes@.len(),
        ensures
            final(self).bytes@ == old(self).bytes@,
            final(self).position <= final(self).bytes@.len(),
            old(self).position == old(self).bytes@.len() ==> r is None && final(self).position == old(self).position,
            old(self).position < old(self).bytes@.len() ==> {
                &&& final(self).position == old(self).position + 1
                &&& r == Some(CtaShortVideoDescriptor {
                    native: flag(old(self).bytes@[old(self).position as int], 0x80),
                    video_identification_code: old(self).bytes@[old(self).position as int] & 0x7F,
                })
            },
    {
        if self.position == self.bytes.len() {
            return None;
        }
        let b = self.bytes[self.position];
        self.position = self.position + 1;
        Some(CtaShortVideoDescriptor::from_bytes([b]))
    }
}

/// A 128 byte CTA-861 extension block.
pub struct CtaExtensionBlock(pub [u8; 128]);

impl CtaExtensionBlock {
    pub fn cta_revision(&self) -> (r: u8)
        ensures r == self.0@[1],
    {
        self.0[1]
    }

    /// Offset of the first detailed timing descriptor.
    pub fn dtd_offset(&self) -> (r: u8)
        ensures r == self.0@[2],
    {
        self.0[2]
    }

    pub fn support_underscan(&self) -> (r: bool)
        ensures r == flag(self.0@[3], 0x80),
    {
        flag_exec(self.0[3], 0x80)
    }

    pub fn support_basic_audio(&self) -> (r: bool)
        ensures r == flag(self.0@[3], 0x40),
    {
        flag_exec(self.0[3], 0x40)
    }

    pub fn support_ycbcr_444(&self) -> (r: bool)
        ensures r == flag(self.0@[3], 0x20),
    {
        flag_exec(self.0[3], 0x20)
    }

    pub fn support_ycbcr_422(&self) -> (r: bool)
        ensures r == flag(self.0@[3], 0x10),
    {
        flag_exec(self.0[3], 0x10)
    }

    pub fn native_format_count(&self) -> (r: u8)
        ensures r == self.0@[3] & 0xF,
    {
        self.0[3] & 0xF
    }

    /// The data blocks: bytes 4 up to the descriptor offset.
    pub fn data_blocks(&self) -> (r: CtaDataBlockIterator)
        requires
            4 <= self.0@[2] <= 128,
        ensures
            r.bytes@ == self.0@.subrange(4, self.0@[2] as int),
            r.position == 0,
    {
        let end = self.dtd_offset() as usize;
        CtaDataBlockIterator { bytes: copy_bytes(self.0.as_slice(), 4, end), position: 0 }
    }

    /// The detailed timing descriptors from the descriptor offset on (none when the
    /// offset lies past the block).
    pub fn descriptors(&self) -> (r: DescriptorIterator)
        ensures
            self.0@[2] <= 128 ==> r.bytes@ == self.0@.subrange(self.0@[2] as int, 128),
            self.0@[2] > 128 ==> r.bytes@ == Seq::<u8>::empty(),
            r.position == 0,
    {
        let start = self.dtd_offset() as usize;
        if start <= 128 {
            DescriptorIterator { bytes: copy_bytes(self.0.as_slice(), start, 128), position: 0 }
        } else {
            DescriptorIterator::empty()
        }
    }
}

} // verus!
