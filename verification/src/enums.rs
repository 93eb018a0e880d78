//! Control and colour-description enumerations, with the rules that map
//! driver-default values to concrete ones.

use vstd::prelude::*;

verus! {

/// Type of a device control's value.
#[derive(Clone, Copy, Debug, PartialEq, Eq, Structural)]
pub enum CtrlType {
    Integer,
    Boolean,
    Menu,
    Button,
    Integer64,
    CtrlClass,
    Text,
    BitMask,
    IntegerMenu,
    U8,
    U16,
    U32,
    Area,
    Hdr10CllInfo,
    Hdr10MasteringDisplay,
    H264Sps,
    H264Pps,
    H264ScalingMatrix,
    H264SliceParams,
    H264DecodeParams,
    H264PredWeights,
    FwhtParams,
    Vp8Params,
    Mpeg2Quantisation,
    Mpeg2Sequence,
    Mpeg2Picture,
    Vp9CompressedHdr,
    Vp9Frame,
}

impl CtrlType {
    /// The numeric code of the control type in the device interface.
    pub open spec fn spec_code(self) -> u32 {
        match self {
            CtrlType::Integer => 0x1,
            CtrlType::Boolean => 0x2,
            CtrlType::Menu => 0x3,
            CtrlType::Button => 0x4,
            CtrlType::Integer64 => 0x5,
            CtrlType::CtrlClass => 0x6,
            CtrlType::Text => 0x7,
            CtrlType::BitMask => 0x8,
            CtrlType::IntegerMenu => 0x9,
            CtrlType::U8 => 0x100,
            CtrlType::U16 => 0x101,
            CtrlType::U32 => 0x102,
            CtrlType::Area => 0x106,
            CtrlType::Hdr10CllInfo => 0x110,
            CtrlType::Hdr10MasteringDisplay => 0x111,
            CtrlType::H264Sps => 0x200,
            CtrlType::H264Pps => 0x201,
            CtrlType::H264ScalingMatrix => 0x202,
            CtrlType::H264SliceParams => 0x203,
            CtrlType::H264DecodeParams => 0x204,
            CtrlType::H264PredWeights => 0x205,
            CtrlType::FwhtParams => 0x220,
            CtrlType::Vp8Params => 0x240,
            CtrlType::Mpeg2Quantisation => 0x250,
            CtrlType::Mpeg2Sequence => 0x251,
            CtrlType::Mpeg2Picture => 0x252,
            CtrlType::Vp9CompressedHdr => 0x260,
            CtrlType::Vp9Frame => 0x261,
        }
    }

    /// The numeric code of the control type in the device interface.
    pub fn code(self) -> (r: u32)
        ensures
            r == self.spec_code(),
    {
        match self {
            CtrlType::Integer => 0x1,
            CtrlType::Boolean => 0x2,
            CtrlType::Menu => 0x3,
            CtrlType::Button => 0x4,
            CtrlType::Integer64 => 0x5,
            CtrlType::CtrlClass => 0x6,
            CtrlType::Text => 0x7,
            CtrlType::BitMask => 0x8,
            CtrlType::IntegerMenu => 0x9,
            CtrlType::U8 => 0x100,
            CtrlType::U16 => 0x101,
            CtrlType::U32 => 0x102,
            CtrlType::Area => 0x106,
            CtrlType::Hdr10CllInfo => 0x110,
            CtrlType::Hdr10MasteringDisplay => 0x111,
            CtrlType::H264Sps => 0x200,
            CtrlType::H264Pps => 0x201,
            CtrlType::H264ScalingMatrix => 0x202,
            CtrlType::H264SliceParams => 0x203,
            CtrlType::H264DecodeParams => 0x204,
            CtrlType::H264PredWeights => 0x205,
            CtrlType::FwhtParams => 0x220,
            CtrlType::Vp8Params => 0x240,
            CtrlType::Mpeg2Quantisation => 0x250,
            CtrlType::Mpeg2Sequence => 0x251,
            CtrlType::Mpeg2Picture => 0x252,
            CtrlType::Vp9CompressedHdr => 0x260,
            CtrlType::Vp9Frame => 0x261,
        }
    }

    /// Whether the control selects from a menu of items.
    pub fn is_menu(self) -> (r: bool)
        ensures
            r == (self == CtrlType::Menu || self == CtrlType::IntegerMenu),
    {
        matches!(self, CtrlType::Menu | CtrlType::IntegerMenu)
    }

    /// Whether the control's value is a compound payload rather than a
    /// scalar; compound types carry codes of `0x100` and above.
    pub fn is_compound(self) -> (r: bool)
        ensures
            r == (self.spec_code() >= 0x100),
    {
        self.code() >= 0x100
    }
}

/// Colour space of an image.
#[derive(Clone, Copy, Debug, PartialEq, Eq, Structural)]
pub enum ColorSpace {
    /// Let the driver figure the colour space out.
    Unspecified,
    /// Broadcast NTSC/PAL SDTV.
    Smpte170M,
    /// Obsolete HDTV standard, superseded by Rec. 709.
    Smpte240M,
    /// HDTV.
    Rec709,
    /// Deprecated; no driver returns this.
    Bt878,
    /// NTSC 1953, for very old recordings.
    C470SystemM,
    /// EBU Tech 3213 PAL/SECAM.
    C470SystemBg,
    /// Shorthand for sRGB with full-range 601 encoding, for JPEG.
    Jpeg,
    /// sRGB, as most webcams produce.
    Srgb,
    /// opRGB.
    Oprgb,
    /// BT.2020, for UHDTV.
    Bt2020,
    /// Raw, for unprocessed images.
    Raw,
    /// DCI-P3, for cinema projectors.
    DciP3,
}

impl ColorSpace {
    /// Determine how an unspecified colour space maps to a proper one:
    /// SDTV images use SMPTE 170M, HDTV images use Rec. 709, everything
    /// else uses sRGB.
    pub fn map_default(is_sdtv: bool, is_hdtv: bool) -> (r: ColorSpace)
        ensures
            r == if is_sdtv {
                ColorSpace::Smpte170M
            } else if is_hdtv {
                ColorSpace::Rec709
            } else {
                ColorSpace::Srgb
            },
    {
        if is_sdtv {
            ColorSpace::Smpte170M
        } else if is_hdtv {
            ColorSpace::Rec709
        } else {
            ColorSpace::Srgb
        }
    }
}

/// Transfer function of an image.
#[derive(Clone, Copy, Debug, PartialEq, Eq, Structural)]
pub enum XferFunc {
    /// Let the driver figure the transfer function out.
    Unspecified,
    F709,
    Srgb,
    Oprgb,
    Smpte240M,
    /// No transfer function, for raw images.
    NoXfer,
    DciP3,
    Smpte2084,
}

/// The transfer function that an unspecified one maps to, for each colour
/// space.
pub open spec fn spec_xfer_func_of(colsp: ColorSpace) -> XferFunc {
    match colsp {
        ColorSpace::Oprgb => XferFunc::Oprgb,
        ColorSpace::Smpte240M => XferFunc::Smpte240M,
        ColorSpace::DciP3 => XferFunc::DciP3,
        ColorSpace::Raw => XferFunc::NoXfer,
        ColorSpace::Srgb | ColorSpace::Jpeg => XferFunc::Srgb,
        _ => XferFunc::F709,
    }
}

impl From<ColorSpace> for XferFunc {
    /// Determine how an unspecified transfer function maps to a proper
    /// one; this depends on the colour space.
    fn from(colsp: ColorSpace) -> (r: Self) {
        match colsp {
            ColorSpace::Oprgb => XferFunc::Oprgb,
            ColorSpace::Smpte240M => XferFunc::Smpte240M,
            ColorSpace::DciP3 => XferFunc::DciP3,
            ColorSpace::Raw => XferFunc::NoXfer,
            ColorSpace::Srgb | ColorSpace::Jpeg => XferFunc::Srgb,
            _ => XferFunc::F709,
        }
    }
}

impl vstd::std_specs::convert::FromSpecImpl<ColorSpace> for XferFunc {
    open spec fn obeys_from_spec() -> bool {
        true
    }

    open spec fn from_spec(colsp: ColorSpace) -> XferFunc {
        spec_xfer_func_of(colsp)
    }
}

/// Y'CbCr encoding of an image.
#[derive(Clone, Copy, Debug, PartialEq, Eq, Structural)]
pub enum YcbcrEncoding {
    /// Let the driver figure the encoding out.
    Unspecified,
    E601,
    E709,
    Xv601,
    Xv709,
    Sycc,
    Bt2020,
    Bt2020ConstLum,
    Smpte240M,
}

/// The Y'CbCr encoding that an unspecified one maps to, for each colour
/// space.
pub open spec fn spec_ycbcr_encoding_of(colsp: ColorSpace) -> YcbcrEncoding {
    match colsp {
        ColorSpace::Rec709 | ColorSpace::DciP3 => YcbcrEncoding::E709,
        ColorSpace::Bt2020 => YcbcrEncoding::Bt2020,
        ColorSpace::Smpte240M => YcbcrEncoding::Smpte240M,
        _ => YcbcrEncoding::E601,
    }
}

impl From<ColorSpace> for YcbcrEncoding {
    /// Determine how an unspecified Y'CbCr encoding maps to a proper one;
    /// this depends on the colour space.
    fn from(colsp: ColorSpace) -> (r: Self) {
        match colsp {
            ColorSpace::Rec709 | ColorSpace::DciP3 => YcbcrEncoding::E709,
            ColorSpace::Bt2020 => YcbcrEncoding::Bt2020,
            ColorSpace::Smpte240M => YcbcrEncoding::Smpte240M,
            _ => YcbcrEncoding::E601,
        }
    }
}

impl vstd::std_specs::convert::FromSpecImpl<ColorSpace> for YcbcrEncoding {
    open spec fn obeys_from_spec() -> bool {
        true
    }

    open spec fn from_spec(colsp: ColorSpace) -> YcbcrEncoding {
        spec_ycbcr_encoding_of(colsp)
    }
}

/// HSV encoding of an image.
#[derive(Clone, Copy, Debug, PartialEq, Eq, Structural)]
pub enum HsvEncoding {
    /// Hue spans 0 to 179.
    E180,
    /// Hue spans the full byte range.
    E256,
}

impl HsvEncoding {
    /// The numeric code of the encoding in the device interface.
    pub open spec fn spec_code(self) -> u32 {
        match self {
            HsvEncoding::E180 => 0x80,
            HsvEncoding::E256 => 0x81,
        }
    }

    /// The numeric code of the encoding in the device interface.
    pub fn code(self) -> (r: u32)
        ensures
            r == self.spec_code(),
    {
        match self {
            HsvEncoding::E180 => 0x80,
            HsvEncoding::E256 => 0x81,
        }
    }
}

/// Quantization range of an image.
#[derive(Clone, Copy, Debug, PartialEq, Eq, Structural)]
pub enum Quantization {
    /// Let the driver figure the quantization out.
    Unspecified,
    FullRange,
    LimRange,
}

impl Quantization {
    /// Determine how an unspecified quantization maps to a proper one:
    /// R'G'B' and HSV use the full range, Y'CbCr the limited range except
    /// for the JPEG colour space.
    pub fn map_default(is_rgb_or_hsv: bool, colsp: ColorSpace) -> (r: Quantization)
        ensures
            r == if is_rgb_or_hsv || colsp == ColorSpace::Jpeg {
                Quantization::FullRange
            } else {
                Quantization::LimRange
            },
    {
        if is_rgb_or_hsv || matches!(colsp, ColorSpace::Jpeg) {
            Quantization::FullRange
        } else {
            Quantization::LimRange
        }
    }
}

/// How a device reports the frame sizes it supports.
#[derive(Clone, Copy, Debug, PartialEq, Eq, Structural)]
pub enum FrmSizeType {
    /// A list of discrete sizes, one per query index.
    Discrete,
    /// Any size between a minimum and a maximum.
    Continuous,
    /// Sizes between a minimum and a maximum, in fixed steps.
    Stepwise,
}

/// How a device reports the frame intervals it supports.
#[derive(Clone, Copy, Debug, PartialEq, Eq, Structural)]
pub enum FrmIvalType {
    /// A list of discrete intervals, one per query index.
    Discrete,
    /// Any interval between a minimum and a maximum.
    Continuous,
    /// Intervals between a minimum and a maximum, in fixed steps.
    Stepwise,
}

} // verus!
