//! Four-character pixel-format codes, and the mapping between the codes of
//! this interface and the pixel formats of the `dcv_color_primitives`
//! colour-conversion crate.

use vstd::prelude::*;

verus! {

/// The code of the 32-bit ARGB format (bytes `BA24`).
pub const FOURCC_ARGB32: u32 = 0x34324142;
/// The code of the 32-bit BGRA format (bytes `RA24`).
pub const FOURCC_BGRA32: u32 = 0x34324152;
/// The code of the 24-bit BGR format (bytes `BGR3`).
pub const FOURCC_BGR24: u32 = 0x33524742;
/// The code of the 32-bit RGBA format (bytes `AB24`).
pub const FOURCC_RGBA32: u32 = 0x34324241;
/// The code of the 24-bit RGB format (bytes `RGB3`).
pub const FOURCC_RGB24: u32 = 0x33424752;
/// The code of the planar 4:4:4 YUV format (bytes `YUV3`).
pub const FOURCC_YUV24: u32 = 0x33565559;
/// The code of the packed 4:2:2 YUV format (bytes `YYUV`).
pub const FOURCC_YYUV: u32 = 0x56555959;
/// The code of the planar 4:2:0 YUV format (bytes `YU12`).
pub const FOURCC_YUV420: u32 = 0x32315559;
/// The code of the two-plane 4:2:0 YUV format (bytes `NV12`).
pub const FOURCC_NV12: u32 = 0x3231564e;
/// The code of the 24-bit HSV format (bytes `HSV3`).
pub const FOURCC_HSV24: u32 = 0x33565348;
/// The code of the 32-bit HSV format (bytes `HSV4`).
pub const FOURCC_HSV32: u32 = 0x34565348;

/// A four-character pixel-format code: four ASCII bytes packed into a
/// 32-bit word, first byte lowest.
#[derive(Clone, Copy, Debug, PartialEq, Eq, Structural)]
pub struct FourCc {
    pub code: u32,
}

impl FourCc {
    /// The packed word of four code bytes, first byte lowest.
    pub open spec fn spec_pack(a: u8, b: u8, c: u8, d: u8) -> u32 {
        (a as u32) | ((b as u32) << 8) | ((c as u32) << 16) | ((d as u32) << 24)
    }

    /// Pack four code bytes into a format code.
    pub fn from_bytes(a: u8, b: u8, c: u8, d: u8) -> (r: FourCc)
        ensures
            r.code == Self::spec_pack(a, b, c, d),
    {
        FourCc { code: (a as u32) | ((b as u32) << 8) | ((c as u32) << 16) | ((d as u32) << 24) }
    }

    /// Wrap a raw format code.
    pub fn from_code(code: u32) -> (r: FourCc)
        ensures
            r.code == code,
    {
        FourCc { code }
    }

    /// The raw format code.
    pub fn code(self) -> (r: u32)
        ensures
            r == self.code,
    {
        self.code
    }

    /// The four code bytes, first byte of the word first.
    pub fn bytes(self) -> (r: (u8, u8, u8, u8))
        ensures
            r.0 == self.code as u8,
            r.1 == (self.code >> 8) as u8,
            r.2 == (self.code >> 16) as u8,
            r.3 == (self.code >> 24) as u8,
    {
        (
            self.code as u8,
            (self.code >> 8) as u8,
            (self.code >> 16) as u8,
            (self.code >> 24) as u8,
        )
    }

    /// Whether the code names one of the HSV formats (bytes `HSV3` or
    /// `HSV4`).
    pub open spec fn spec_is_hsv(self) -> bool {
        self.code == FOURCC_HSV24 || self.code == FOURCC_HSV32
    }

    /// Whether the code names one of the HSV formats.
    pub fn is_hsv(self) -> (r: bool)
        ensures
            r == self.spec_is_hsv(),
    {
        self.code == FOURCC_HSV24 || self.code == FOURCC_HSV32
    }

    /// The colour-conversion pixel format that carries this code, if the
    /// conversion library knows the format.
    pub open spec fn spec_dcv_format(self) -> Option<DcvFormat> {
        if self.code == FOURCC_ARGB32 {
            Some(DcvFormat::Argb)
        } else if self.code == FOURCC_BGRA32 {
            Some(DcvFormat::Bgra)
        } else if self.code == FOURCC_BGR24 {
            Some(DcvFormat::Bgr)
        } else if self.code == FOURCC_RGBA32 {
            Some(DcvFormat::Rgba)
        } else if self.code == FOURCC_RGB24 {
            Some(DcvFormat::Rgb)
        } else if self.code == FOURCC_YUV24 {
            Some(DcvFormat::I444)
        } else if self.code == FOURCC_YYUV {
            Some(DcvFormat::I422)
        } else if self.code == FOURCC_YUV420 {
            Some(DcvFormat::I420)
        } else if self.code == FOURCC_NV12 {
            Some(DcvFormat::Nv12)
        } else {
            None
        }
    }

    /// Map this code to the colour-conversion library's pixel format;
    /// codes outside the library's nine formats have no image.
    pub fn dcv_format(self) -> (r: Option<DcvFormat>)
        ensures
            r == self.spec_dcv_format(),
    {
        if self.code == FOURCC_ARGB32 {
            Some(DcvFormat::Argb)
        } else if self.code == FOURCC_BGRA32 {
            Some(DcvFormat::Bgra)
        } else if self.code == FOURCC_BGR24 {
            Some(DcvFormat::Bgr)
        } else if self.code == FOURCC_RGBA32 {
            Some(DcvFormat::Rgba)
        } else if self.code == FOURCC_RGB24 {
            Some(DcvFormat::Rgb)
        } else if self.code == FOURCC_YUV24 {
            Some(DcvFormat::I444)
        } else if self.code == FOURCC_YYUV {
            Some(DcvFormat::I422)
        } else if self.code == FOURCC_YUV420 {
            Some(DcvFormat::I420)
        } else if self.code == FOURCC_NV12 {
            Some(DcvFormat::Nv12)
        } else {
            None
        }
    }

    /// The format code that carries each of the colour-conversion
    /// library's pixel formats.
    pub open spec fn spec_of_dcv(format: DcvFormat) -> FourCc {
        match format {
            DcvFormat::Argb => FourCc { code: FOURCC_ARGB32 },
            DcvFormat::Bgra => FourCc { code: FOURCC_BGRA32 },
            DcvFormat::Bgr => FourCc { code: FOURCC_BGR24 },
            DcvFormat::Rgba => FourCc { code: FOURCC_RGBA32 },
            DcvFormat::Rgb => FourCc { code: FOURCC_RGB24 },
            DcvFormat::I444 => FourCc { code: FOURCC_YUV24 },
            DcvFormat::I422 => FourCc { code: FOURCC_YYUV },
            DcvFormat::I420 => FourCc { code: FOURCC_YUV420 },
            DcvFormat::Nv12 => FourCc { code: FOURCC_NV12 },
        }
    }

    /// The format code of a colour-conversion pixel format.
    pub fn of_dcv(format: DcvFormat) -> (r: FourCc)
        ensures
            r == Self::spec_of_dcv(format),
    {
        match format {
            DcvFormat::Argb => FourCc { code: FOURCC_ARGB32 },
            DcvFormat::Bgra => FourCc { code: FOURCC_BGRA32 },
            DcvFormat::Bgr => FourCc { code: FOURCC_BGR24 },
            DcvFormat::Rgba => FourCc { code: FOURCC_RGBA32 },
            DcvFormat::Rgb => FourCc { code: FOURCC_RGB24 },
            DcvFormat::I444 => FourCc { code: FOURCC_YUV24 },
            DcvFormat::I422 => FourCc { code: FOURCC_YYUV },
            DcvFormat::I420 => FourCc { code: FOURCC_YUV420 },
            DcvFormat::Nv12 => FourCc { code: FOURCC_NV12 },
        }
    }
}

/// The pixel formats of the colour-conversion library that this interface
/// can name, mirrored as plain values; `DcvFormat::to_external` and
/// `DcvFormat::from_external` carry them to and from the library's own
/// type.
#[derive(Clone, Copy, Debug, PartialEq, Eq, Structural)]
pub enum DcvFormat {
    /// RGB with the alpha channel first, 32 bits per pixel.
    Argb,
    /// Reverse RGB with the alpha channel last, 32 bits per pixel.
    Bgra,
    /// Reverse RGB packed into 24 bits.
    Bgr,
    /// RGB with the alpha channel last, 32 bits per pixel.
    Rgba,
    /// RGB packed into 24 bits.
    Rgb,
    /// Planar YUV, chroma not sub-sampled.
    I444,
    /// Planar YUV, chroma sub-sampled horizontally.
    I422,
    /// Planar YUV, chroma sub-sampled in both dimensions.
    I420,
    /// YUV with one luma plane and one interleaved chroma plane.
    Nv12,
}

/// Mapping a format code to the conversion library's pixel format and back
/// returns the code of the same format: the nine supported codes round
/// trip.
pub proof fn lemma_dcv_round_trip(f: FourCc)
    ensures
        f.spec_dcv_format() matches Some(d) ==> FourCc::spec_of_dcv(d) == f,
{
}

/// Every pixel format of the conversion library round trips through its
/// format code.
pub proof fn lemma_dcv_format_round_trip(d: DcvFormat)
    ensures
        FourCc::spec_of_dcv(d).spec_dcv_format() == Some(d),
{
}

} // verus!
