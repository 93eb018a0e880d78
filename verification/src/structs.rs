//! Mirrors of the device interface's record types: plain values with the
//! same fields, union-typed storage replaced by tagged variants, and raw
//! flag words kept as 32-bit integers.

use vstd::prelude::*;

use crate::enums::{
    ColorSpace, FrmIvalType, FrmSizeType, HsvEncoding, Quantization, XferFunc, YcbcrEncoding,
};
use crate::fourcc::FourCc;
use crate::types::{BufferType, CapabilityFlag, Field};
use crate::utils::{get_str, spec_nul_prefix, utf8_decode, Error};

verus! {

/// A rectangle, by its top-left corner and size.
#[derive(Clone, Copy, Debug, PartialEq, Eq, Structural)]
pub struct Rect {
    pub left: i32,
    pub top: i32,
    pub width: u32,
    pub height: u32,
}

/// A rational number, used for frame intervals and aspect ratios.
#[derive(Clone, Copy, Debug, PartialEq, Eq, Structural)]
pub struct Fract {
    pub numerator: u32,
    pub denominator: u32,
}

/// A size in pixels.
#[derive(Clone, Copy, Debug, PartialEq, Eq, Structural)]
pub struct Area {
    pub width: u32,
    pub height: u32,
}

/// A discrete frame size.
pub type FrmSizeDiscrete = Area;

/// A discrete frame interval.
pub type FrmIvalDiscrete = Fract;

/// The encoding that supplements a pixel format's colour space: Y'CbCr
/// for luma/chroma formats, HSV for hue-based ones.  The device interface
/// overlays the two in one field; here the variant carries the kind.
#[derive(Clone, Copy, Debug, PartialEq, Eq, Structural)]
pub enum PixFormatEnc {
    Ycbcr(YcbcrEncoding),
    Hsv(HsvEncoding),
}

impl PixFormatEnc {
    /// The default encoding for a pixel format: HSV formats span the full
    /// byte range, everything else takes the Y'CbCr encoding that its
    /// colour space implies.
    pub fn new_default(pixfmt: FourCc, colorsp: ColorSpace) -> (r: PixFormatEnc)
        ensures
            r == if pixfmt.spec_is_hsv() {
                PixFormatEnc::Hsv(HsvEncoding::E256)
            } else {
                PixFormatEnc::Ycbcr(crate::enums::spec_ycbcr_encoding_of(colorsp))
            },
    {
        if pixfmt.is_hsv() {
            PixFormatEnc::Hsv(HsvEncoding::E256)
        } else {
            PixFormatEnc::Ycbcr(YcbcrEncoding::from(colorsp))
        }
    }
}

/// Single-planar pixel format of an image stream.
#[derive(Clone, Copy, Debug, PartialEq, Eq, Structural)]
pub struct PixFormat {
    /// Image width in pixels.
    pub width: u32,
    /// Image height in pixels.
    pub height: u32,
    /// The pixel format's four-character code.
    pub pixel_format: FourCc,
    /// Field order of the image.
    pub field: Field,
    /// Distance in bytes between left-most pixels of adjacent lines.
    pub bytes_per_line: u32,
    /// Size of the image in bytes.
    pub size_image: u32,
    /// Colour space of the image.
    pub color_space: ColorSpace,
    /// Private driver word.
    pub priv_: u32,
    /// Format flag bits.
    pub flags: u32,
    /// The supplementary encoding of the format.
    pub enc: PixFormatEnc,
    /// Quantization range of the image.
    pub quantization: Quantization,
    /// Transfer function of the image.
    pub xfer_func: XferFunc,
}

impl PixFormat {
    /// The Y'CbCr encoding of the format, when the format carries one.
    pub fn ycbcr_enc(&self) -> (r: Option<YcbcrEncoding>)
        ensures
            r == match self.enc {
                PixFormatEnc::Ycbcr(e) => Some(e),
                PixFormatEnc::Hsv(_) => None::<YcbcrEncoding>,
            },
    {
        match self.enc {
            PixFormatEnc::Ycbcr(e) => Some(e),
            PixFormatEnc::Hsv(_) => None,
        }
    }

    /// Set the Y'CbCr encoding; ignored for HSV formats, whose field holds
    /// an HSV encoding instead.
    pub fn set_ycbcr_enc(&mut self, ycbcr_enc: YcbcrEncoding)
        ensures
            *final(self) == (PixFormat {
                enc: match old(self).enc {
                    PixFormatEnc::Ycbcr(_) => PixFormatEnc::Ycbcr(ycbcr_enc),
                    PixFormatEnc::Hsv(e) => PixFormatEnc::Hsv(e),
                },
                ..*old(self)
            }),
    {
        if matches!(self.enc, PixFormatEnc::Ycbcr(_)) {
            self.enc = PixFormatEnc::Ycbcr(ycbcr_enc);
        }
    }

    /// The HSV encoding of the format, when the format carries one.
    pub fn hsv_enc(&self) -> (r: Option<HsvEncoding>)
        ensures
            r == match self.enc {
                PixFormatEnc::Hsv(e) => Some(e),
                PixFormatEnc::Ycbcr(_) => None::<HsvEncoding>,
            },
    {
        match self.enc {
            PixFormatEnc::Hsv(e) => Some(e),
            PixFormatEnc::Ycbcr(_) => None,
        }
    }

    /// Set the HSV encoding; ignored for formats that carry a Y'CbCr
    /// encoding instead.
    pub fn set_hsv_enc(&mut self, hsv_enc: HsvEncoding)
        ensures
            *final(self) == (PixFormat {
                enc: match old(self).enc {
                    PixFormatEnc::Hsv(_) => PixFormatEnc::Hsv(hsv_enc),
                    PixFormatEnc::Ycbcr(e) => PixFormatEnc::Ycbcr(e),
                },
                ..*old(self)
            }),
    {
        if matches!(self.enc, PixFormatEnc::Hsv(_)) {
            self.enc = PixFormatEnc::Hsv(hsv_enc);
        }
    }
}

/// Stepwise frame sizes: every size from the minimum to the maximum in
/// fixed steps.
#[derive(Clone, Copy, Debug, PartialEq, Eq, Structural)]
pub struct FrmSizeStepwise {
    /// Minimum width in pixels.
    pub min_width: u32,
    /// Maximum width in pixels.
    pub max_width: u32,
    /// Width step in pixels.
    pub step_width: u32,
    /// Minimum height in pixels.
    pub min_height: u32,
    /// Maximum height in pixels.
    pub max_height: u32,
    /// Height step in pixels.
    pub step_height: u32,
}

impl FrmSizeStepwise {
    /// The frame size at one step index, when both dimensions stay within
    /// their maxima.
    pub open spec fn spec_try_get(self, index: u32) -> Option<FrmSizeDiscrete> {
        let width = self.min_width + self.step_width * index;
        let height = self.min_height + self.step_height * index;
        if width <= self.max_width && height <= self.max_height {
            Some(Area { width: width as u32, height: height as u32 })
        } else {
            None
        }
    }

    /// Try to get the discrete frame size at a step index: the minimum
    /// size grown by `index` steps, if it stays within the maxima.
    pub fn try_get(&self, index: u32) -> (r: Option<FrmSizeDiscrete>)
        ensures
            r == self.spec_try_get(index),
    {
        proof {
            let sw = self.step_width as int;
            let sh = self.step_height as int;
            let ix = index as int;
            assert(sw * ix <= 0xffff_ffff * 0xffff_ffff && sh * ix <= 0xffff_ffff * 0xffff_ffff)
                by (nonlinear_arith)
                requires
                    0 <= sw <= 0xffff_ffff,
                    0 <= sh <= 0xffff_ffff,
                    0 <= ix <= 0xffff_ffff,
            ;
        }
        let width = self.min_width as u64 + self.step_width as u64 * index as u64;
        let height = self.min_height as u64 + self.step_height as u64 * index as u64;
        if width <= self.max_width as u64 && height <= self.max_height as u64 {
            Some(Area { width: width as u32, height: height as u32 })
        } else {
            None
        }
    }
}

/// The sizes that one frame-size query reported: a single discrete size
/// or a stepwise range.  The device interface overlays the two in one
/// field; here the variant carries the kind.
#[derive(Clone, Copy, Debug, PartialEq, Eq, Structural)]
pub enum FrmSizeData {
    /// One discrete size.
    Discrete(FrmSizeDiscrete),
    /// A stepwise range of sizes.
    Stepwise(FrmSizeStepwise),
    /// Any size within the stepwise bounds.
    Continuous(FrmSizeStepwise),
}

/// One reply of the frame-size enumeration.
#[derive(Clone, Copy, Debug, PartialEq, Eq, Structural)]
pub struct FrmSizeEnum {
    /// Index of the reply in the enumeration.
    pub index: u32,
    /// The pixel format the sizes belong to.
    pub pixel_format: FourCc,
    /// The sizes reported.
    pub data: FrmSizeData,
}

impl FrmSizeEnum {
    /// How the reply describes its sizes.
    pub fn type_(&self) -> (r: FrmSizeType)
        ensures
            r == match self.data {
                FrmSizeData::Discrete(_) => FrmSizeType::Discrete,
                FrmSizeData::Stepwise(_) => FrmSizeType::Stepwise,
                FrmSizeData::Continuous(_) => FrmSizeType::Continuous,
            },
    {
        match self.data {
            FrmSizeData::Discrete(_) => FrmSizeType::Discrete,
            FrmSizeData::Stepwise(_) => FrmSizeType::Stepwise,
            FrmSizeData::Continuous(_) => FrmSizeType::Continuous,
        }
    }

    /// The discrete size of the reply, when it carries one.
    pub fn discrete(&self) -> (r: Option<FrmSizeDiscrete>)
        ensures
            r == match self.data {
                FrmSizeData::Discrete(a) => Some(a),
                _ => None::<FrmSizeDiscrete>,
            },
    {
        match self.data {
            FrmSizeData::Discrete(a) => Some(a),
            _ => None,
        }
    }

    /// The stepwise range of the reply, when it carries one.
    pub fn stepwise(&self) -> (r: Option<FrmSizeStepwise>)
        ensures
            r == match self.data {
                FrmSizeData::Stepwise(s) => Some(s),
                _ => None::<FrmSizeStepwise>,
            },
    {
        match self.data {
            FrmSizeData::Stepwise(s) => Some(s),
            _ => None,
        }
    }

    /// Get iterator over all supported sizes
    pub fn sizes(&self) -> (r: FrmSizeIter<'_>)
        ensures
            r.sizes == self,
            r.index == 0,
    {
        FrmSizeIter { sizes: self, index: 0 }
    }
}

/// Walks the discrete sizes of one frame-size reply: a discrete reply
/// yields its one size, a stepwise reply yields each step within bounds,
/// and a continuous reply yields nothing discrete.
pub struct FrmSizeIter<'i> {
    /// The reply being walked.
    pub sizes: &'i FrmSizeEnum,
    /// The next step index, or the end marker.
    pub index: u32,
}

impl<'i> FrmSizeIter<'i> {
    /// The index value that marks an exhausted walk.
    pub open spec fn spec_done(self) -> bool {
        self.index == u32::MAX
    }

    /// The size the walk yields at its current position.
    pub open spec fn spec_current(self) -> Option<Area> {
        if self.spec_done() {
            None
        } else {
            match self.sizes.data {
                FrmSizeData::Discrete(a) => if self.index == 0 {
                    Some(a)
                } else {
                    None
                },
                FrmSizeData::Stepwise(s) => s.spec_try_get(self.index),
                FrmSizeData::Continuous(_) => None,
            }
        }
    }

    /// The next discrete size, or nothing when the sizes are exhausted.
    pub fn next(&mut self) -> (r: Option<Area>)
        ensures
            r == old(self).spec_current(),
            final(self).sizes == old(self).sizes,
            final(self).index == if r is None {
                u32::MAX
            } else {
                match old(self).sizes.data {
                    FrmSizeData::Stepwise(_) => (old(self).index + 1) as u32,
                    _ => u32::MAX,
                }
            },
    {
        if self.index == u32::MAX {
            return None;
        }
        match self.sizes.data {
            FrmSizeData::Discrete(a) => {
                let first = self.index == 0;
                self.index = u32::MAX;
                if first {
                    Some(a)
                } else {
                    None
                }
            }
            FrmSizeData::Stepwise(s) => {
                let size = s.try_get(self.index);
                if size.is_some() {
                    self.index = self.index + 1;
                } else {
                    self.index = u32::MAX;
                }
                size
            }
            FrmSizeData::Continuous(_) => {
                self.index = u32::MAX;
                None
            }
        }
    }
}

/// Multi-planar pixel format of an image stream.
#[derive(Clone, Copy, Debug, PartialEq, Eq)]
pub struct PixFormatMplane {
    /// Image width in pixels.
    pub width: u32,
    /// Image height in pixels.
    pub height: u32,
    /// The pixel format's four-character code.
    pub pixel_format: FourCc,
    /// Field order of the image.
    pub field: Field,
    /// Colour space of the image.
    pub color_space: ColorSpace,
    /// Per-plane formats; only the first `num_planes` are meaningful.
    pub plane_fmt: [PlanePixFormat; 8],
    /// Number of planes of the format.
    pub num_planes: u8,
    /// Format flag bits.
    pub flags: u32,
    /// The supplementary encoding of the format.
    pub enc: PixFormatEnc,
    /// Quantization range of the image.
    pub quantization: Quantization,
    /// Transfer function of the image.
    pub xfer_func: XferFunc,
}

/// Placement of an overlay window.
#[derive(Clone, Copy, Debug, PartialEq, Eq, Structural)]
pub struct Window {
    pub w: Rect,
    pub field: Field,
    pub chromakey: u32,
    /// Number of clipping rectangles the caller supplies.
    pub clip_count: u32,
    pub global_alpha: u8,
}

/// Format of a software-defined-radio stream.
#[derive(Clone, Copy, Debug, PartialEq, Eq, Structural)]
pub struct SdrFormat {
    pub pixel_format: FourCc,
    pub buffer_size: u32,
}

/// The per-type payload of a format record; the device interface overlays
/// these in one 200-byte field, here the variant carries the kind.
#[derive(Clone, Copy, Debug, PartialEq, Eq)]
pub enum FormatData {
    Pix(PixFormat),
    PixMplane(PixFormatMplane),
    Win(Window),
    Vbi(VbiFormat),
    Sliced(SlicedVbiFormat),
    Sdr(SdrFormat),
    Meta(MetaFormat),
}

impl FormatData {
    /// Whether this payload kind belongs to the given buffer type.
    pub open spec fn spec_matches(self, type_: BufferType) -> bool {
        match self {
            FormatData::Pix(_) => type_ == BufferType::VideoCapture || type_
                == BufferType::VideoOutput,
            FormatData::PixMplane(_) => type_ == BufferType::VideoCaptureMplane || type_
                == BufferType::VideoOutputMplane,
            FormatData::Win(_) => type_ == BufferType::VideoOverlay || type_
                == BufferType::VideoOutputOverlay,
            FormatData::Vbi(_) => type_ == BufferType::VbiCapture || type_
                == BufferType::VbiOutput,
            FormatData::Sliced(_) => type_ == BufferType::SlicedVbiCapture || type_
                == BufferType::SlicedVbiOutput,
            FormatData::Sdr(_) => type_ == BufferType::SdrCapture || type_
                == BufferType::SdrOutput,
            FormatData::Meta(_) => type_ == BufferType::MetaCapture || type_
                == BufferType::MetaOutput,
        }
    }

    /// Check that this payload kind belongs to the given buffer type.
    pub fn matches_type(&self, type_: BufferType) -> (r: bool)
        ensures
            r == self.spec_matches(type_),
    {
        match self {
            FormatData::Pix(_) => matches!(
                type_,
                BufferType::VideoCapture | BufferType::VideoOutput
            ),
            FormatData::PixMplane(_) => matches!(
                type_,
                BufferType::VideoCaptureMplane | BufferType::VideoOutputMplane
            ),
            FormatData::Win(_) => matches!(
                type_,
                BufferType::VideoOverlay | BufferType::VideoOutputOverlay
            ),
            FormatData::Vbi(_) => matches!(type_, BufferType::VbiCapture | BufferType::VbiOutput),
            FormatData::Sliced(_) => matches!(
                type_,
                BufferType::SlicedVbiCapture | BufferType::SlicedVbiOutput
            ),
            FormatData::Sdr(_) => matches!(type_, BufferType::SdrCapture | BufferType::SdrOutput),
            FormatData::Meta(_) => matches!(type_, BufferType::MetaCapture | BufferType::MetaOutput),
        }
    }
}

/// The data format of one queue: its buffer type and a payload of the
/// matching kind.
#[derive(Clone, Copy, Debug, PartialEq, Eq)]
pub struct Format {
    pub type_: BufferType,
    pub fmt: FormatData,
}

impl Format {
    /// A format payload must be of the kind its buffer type calls for.
    pub open spec fn spec_wf(self) -> bool {
        self.fmt.spec_matches(self.type_)
    }

    /// Build a format record; a value exactly when the payload's kind
    /// belongs to the buffer type.
    pub fn new(type_: BufferType, data: FormatData) -> (r: Option<Format>)
        ensures
            r == if data.spec_matches(type_) {
                Some(Format { type_, fmt: data })
            } else {
                None::<Format>
            },
            r matches Some(f) ==> f.spec_wf(),
    {
        if data.matches_type(type_) {
            Some(Format { type_, fmt: data })
        } else {
            None
        }
    }

    /// The single-planar pixel format, when the record carries one.
    pub fn pix(&self) -> (r: Option<PixFormat>)
        ensures
            r == match self.fmt {
                FormatData::Pix(p) => Some(p),
                _ => None::<PixFormat>,
            },
    {
        match self.fmt {
            FormatData::Pix(p) => Some(p),
            _ => None,
        }
    }

    /// The raw VBI format, when the record carries one.
    pub fn vbi(&self) -> (r: Option<VbiFormat>)
        ensures
            r == match self.fmt {
                FormatData::Vbi(v) => Some(v),
                _ => None::<VbiFormat>,
            },
    {
        match self.fmt {
            FormatData::Vbi(v) => Some(v),
            _ => None,
        }
    }

    /// The radio format, when the record carries one.
    pub fn sdr(&self) -> (r: Option<SdrFormat>)
        ensures
            r == match self.fmt {
                FormatData::Sdr(s) => Some(s),
                _ => None::<SdrFormat>,
            },
    {
        match self.fmt {
            FormatData::Sdr(s) => Some(s),
            _ => None,
        }
    }

    /// The metadata format, when the record carries one.
    pub fn meta(&self) -> (r: Option<MetaFormat>)
        ensures
            r == match self.fmt {
                FormatData::Meta(m) => Some(m),
                _ => None::<MetaFormat>,
            },
    {
        match self.fmt {
            FormatData::Meta(m) => Some(m),
            _ => None,
        }
    }
}

/// The index-stepping rule shared by the enumeration queries (formats,
/// frame sizes, frame intervals, menu items): ask the device for entry 0,
/// 1, 2, … until a query reports nothing, then stay exhausted.  The
/// embedding program issues each query with the cursor's current index and
/// reports whether the device answered.
#[derive(Clone, Copy, Debug, PartialEq, Eq, Structural)]
pub struct EnumCursor {
    /// The next index to query, or the end marker.
    pub index: u32,
}

impl EnumCursor {
    /// The index value that marks an exhausted enumeration.
    pub open spec fn spec_done(self) -> bool {
        self.index == u32::MAX
    }

    /// A cursor at the start of an enumeration.
    pub fn new() -> (r: EnumCursor)
        ensures
            r.index == 0,
    {
        EnumCursor { index: 0 }
    }

    /// The index to query next, or nothing when the enumeration is over.
    pub fn current(&self) -> (r: Option<u32>)
        ensures
            r == if self.spec_done() {
                None
            } else {
                Some(self.index)
            },
    {
        if self.index == u32::MAX {
            None
        } else {
            Some(self.index)
        }
    }

    /// Record the outcome of the query at the current index: a reply moves
    /// the cursor to the next index, no reply ends the enumeration.
    pub fn advance(&mut self, found: bool)
        requires
            !old(self).spec_done(),
        ensures
            final(self).index == if found {
                (old(self).index + 1) as u32
            } else {
                u32::MAX
            },
    {
        if found {
            self.index = self.index + 1;
        } else {
            self.index = u32::MAX;
        }
    }
}

/// Stepwise frame intervals: every interval from the minimum to the
/// maximum in fixed steps.
#[derive(Clone, Copy, Debug, PartialEq, Eq, Structural)]
pub struct FrmIvalStepwise {
    pub min: Fract,
    pub max: Fract,
    pub step: Fract,
}

/// The intervals that one frame-interval query reported.
#[derive(Clone, Copy, Debug, PartialEq, Eq, Structural)]
pub enum FrmIvalData {
    /// One discrete interval.
    Discrete(FrmIvalDiscrete),
    /// A stepwise range of intervals.
    Stepwise(FrmIvalStepwise),
    /// Any interval within the stepwise bounds.
    Continuous(FrmIvalStepwise),
}

/// One reply of the frame-interval enumeration.
#[derive(Clone, Copy, Debug, PartialEq, Eq, Structural)]
pub struct FrmIvalEnum {
    /// Index of the reply in the enumeration.
    pub index: u32,
    /// The pixel format the intervals belong to.
    pub pixel_format: FourCc,
    /// Frame width the intervals belong to.
    pub width: u32,
    /// Frame height the intervals belong to.
    pub height: u32,
    /// The intervals reported.
    pub data: FrmIvalData,
}

impl FrmIvalEnum {
    /// The discrete interval of the reply, when it carries one.
    pub fn discrete(&self) -> (r: Option<FrmIvalDiscrete>)
        ensures
            r == match self.data {
                FrmIvalData::Discrete(f) => Some(f),
                _ => None::<FrmIvalDiscrete>,
            },
    {
        match self.data {
            FrmIvalData::Discrete(f) => Some(f),
            _ => None,
        }
    }

    /// The stepwise range of the reply, when it carries one.
    pub fn stepwise(&self) -> (r: Option<FrmIvalStepwise>)
        ensures
            r == match self.data {
                FrmIvalData::Stepwise(s) => Some(s),
                _ => None::<FrmIvalStepwise>,
            },
    {
        match self.data {
            FrmIvalData::Stepwise(s) => Some(s),
            _ => None,
        }
    }

    /// How the reply describes its intervals.
    pub fn type_(&self) -> (r: FrmIvalType)
        ensures
            r == match self.data {
                FrmIvalData::Discrete(_) => FrmIvalType::Discrete,
                FrmIvalData::Stepwise(_) => FrmIvalType::Stepwise,
                FrmIvalData::Continuous(_) => FrmIvalType::Continuous,
            },
    {
        match self.data {
            FrmIvalData::Discrete(_) => FrmIvalType::Discrete,
            FrmIvalData::Stepwise(_) => FrmIvalType::Stepwise,
            FrmIvalData::Continuous(_) => FrmIvalType::Continuous,
        }
    }
}

/// A buffer exported as a file descriptor for sharing across devices.
#[derive(Clone, Copy, Debug, PartialEq, Eq, Structural)]
pub struct ExportBuffer {
    pub type_: BufferType,
    pub index: u32,
    pub plane: u32,
    pub flags: u32,
    pub fd: i32,
}

/// Format of the overlay frame buffer.
#[derive(Clone, Copy, Debug, PartialEq, Eq, Structural)]
pub struct FrameBufferFmt {
    pub width: u32,
    pub height: u32,
    pub pixel_format: FourCc,
    pub field: Field,
    pub bytes_per_line: u32,
    pub size_image: u32,
    pub color_space: ColorSpace,
    pub priv_: u32,
}

/// One clipping rectangle of an overlay window.
#[derive(Clone, Copy, Debug, PartialEq, Eq, Structural)]
pub struct Clip {
    pub c: Rect,
}

/// Streaming parameters of a capture queue.
#[derive(Clone, Copy, Debug, PartialEq, Eq, Structural)]
pub struct CaptureParm {
    /// Capability flag bits of the queue.
    pub capability: u32,
    /// Mode flag bits of the queue.
    pub capture_mode: u32,
    /// Time per frame.
    pub time_per_frame: Fract,
    /// Driver-specific extensions word.
    pub extended_mode: u32,
    /// Buffers the driver keeps for read-style I/O.
    pub read_buffers: u32,
}

/// Streaming parameters of an output queue.
#[derive(Clone, Copy, Debug, PartialEq, Eq, Structural)]
pub struct OutputParm {
    /// Capability flag bits of the queue.
    pub capability: u32,
    /// Mode flag bits of the queue.
    pub output_mode: u32,
    /// Time per frame.
    pub time_per_frame: Fract,
    /// Driver-specific extensions word.
    pub extended_mode: u32,
    /// Buffers the driver keeps for write-style I/O.
    pub write_buffers: u32,
}

/// The per-direction streaming parameters; the device interface overlays
/// the two in one field, here the variant carries the direction.
#[derive(Clone, Copy, Debug, PartialEq, Eq, Structural)]
pub enum StreamParmData {
    Capture(CaptureParm),
    Output(OutputParm),
}

/// Streaming parameters of one queue: its buffer type and the parameters
/// of the matching direction.
#[derive(Clone, Copy, Debug, PartialEq, Eq, Structural)]
pub struct StreamParm {
    pub type_: BufferType,
    pub parm: StreamParmData,
}

impl StreamParm {
    /// Blank parameters for a queue: a capture record for capture types,
    /// an output record for output types.
    pub fn from_type(type_: BufferType) -> (r: StreamParm)
        ensures
            r.type_ == type_,
            r.parm == if type_.spec_is_output() {
                StreamParmData::Output(OutputParm {
                    capability: 0,
                    output_mode: 0,
                    time_per_frame: Fract { numerator: 0, denominator: 0 },
                    extended_mode: 0,
                    write_buffers: 0,
                })
            } else {
                StreamParmData::Capture(CaptureParm {
                    capability: 0,
                    capture_mode: 0,
                    time_per_frame: Fract { numerator: 0, denominator: 0 },
                    extended_mode: 0,
                    read_buffers: 0,
                })
            },
    {
        let parm = if type_.is_output() {
            StreamParmData::Output(OutputParm {
                capability: 0,
                output_mode: 0,
                time_per_frame: Fract { numerator: 0, denominator: 0 },
                extended_mode: 0,
                write_buffers: 0,
            })
        } else {
            StreamParmData::Capture(CaptureParm {
                capability: 0,
                capture_mode: 0,
                time_per_frame: Fract { numerator: 0, denominator: 0 },
                extended_mode: 0,
                read_buffers: 0,
            })
        };
        StreamParm { type_, parm }
    }

    /// Build parameters for a capture queue; a value exactly when the type
    /// belongs to the capture direction.
    pub fn new_capture(type_: BufferType, data: CaptureParm) -> (r: Option<StreamParm>)
        ensures
            r == if !type_.spec_is_output() {
                Some(StreamParm { type_, parm: StreamParmData::Capture(data) })
            } else {
                None::<StreamParm>
            },
    {
        if type_.is_capture() {
            Some(StreamParm { type_, parm: StreamParmData::Capture(data) })
        } else {
            None
        }
    }

    /// Build parameters for an output queue; a value exactly when the type
    /// belongs to the output direction.
    pub fn new_output(type_: BufferType, data: OutputParm) -> (r: Option<StreamParm>)
        ensures
            r == if type_.spec_is_output() {
                Some(StreamParm { type_, parm: StreamParmData::Output(data) })
            } else {
                None::<StreamParm>
            },
    {
        if type_.is_output() {
            Some(StreamParm { type_, parm: StreamParmData::Output(data) })
        } else {
            None
        }
    }

    /// The capture parameters, when the queue captures.
    pub fn capture(&self) -> (r: Option<CaptureParm>)
        ensures
            r == match self.parm {
                StreamParmData::Capture(p) => Some(p),
                StreamParmData::Output(_) => None::<CaptureParm>,
            },
    {
        match self.parm {
            StreamParmData::Capture(p) => Some(p),
            StreamParmData::Output(_) => None,
        }
    }

    /// The output parameters, when the queue outputs.
    pub fn output(&self) -> (r: Option<OutputParm>)
        ensures
            r == match self.parm {
                StreamParmData::Output(p) => Some(p),
                StreamParmData::Capture(_) => None::<OutputParm>,
            },
    {
        match self.parm {
            StreamParmData::Output(p) => Some(p),
            StreamParmData::Capture(_) => None,
        }
    }
}

/// Cropping bounds of a queue.
#[derive(Clone, Copy, Debug, PartialEq, Eq, Structural)]
pub struct CropCap {
    pub type_: BufferType,
    pub bounds: Rect,
    pub defrect: Rect,
    pub pixel_aspect: Fract,
}

/// The current cropping rectangle of a queue.
#[derive(Clone, Copy, Debug, PartialEq, Eq, Structural)]
pub struct Crop {
    pub type_: BufferType,
    pub c: Rect,
}

/// A selection rectangle of a queue.
#[derive(Clone, Copy, Debug, PartialEq, Eq, Structural)]
pub struct Selection {
    pub type_: BufferType,
    /// Which rectangle is selected, as the interface's target code.
    pub target: u32,
    /// Selection flag bits.
    pub flags: u32,
    pub r: Rect,
}

/// Capabilities of BT.656/1120 timings.
#[derive(Clone, Copy, Debug, PartialEq, Eq, Structural)]
pub struct BtTimingsCap {
    pub min_width: u32,
    pub max_width: u32,
    pub min_height: u32,
    pub max_height: u32,
    pub min_pixelclock: u64,
    pub max_pixelclock: u64,
    /// Standard flag bits.
    pub standards: u32,
    /// Capability flag bits.
    pub capabilities: u32,
}

/// Capabilities of the digital video timings of a device.
#[derive(Clone, Copy, Debug, PartialEq, Eq, Structural)]
pub struct DvTimingsCap {
    /// Timing type code of the interface.
    pub type_: u32,
    pub pad: u32,
    pub bt: BtTimingsCap,
}

/// Tuner kind codes of the interface.
#[derive(Clone, Copy, Debug, PartialEq, Eq, Structural)]
pub enum TunerType {
    Radio,
    AnalogTv,
    DigitalTv,
    Sdr,
    Rf,
}

/// A tuner frequency.
#[derive(Clone, Copy, Debug, PartialEq, Eq, Structural)]
pub struct Frequency {
    pub tuner: u32,
    pub type_: TunerType,
    pub frequency: u32,
}

/// One band of frequencies that a tuner supports.
#[derive(Clone, Copy, Debug, PartialEq, Eq, Structural)]
pub struct FrequencyBand {
    pub tuner: u32,
    pub type_: TunerType,
    pub index: u32,
    /// Capability flag bits of the band.
    pub capability: u32,
    pub rangelow: u32,
    pub rangehigh: u32,
    /// Modulation flag bits of the band.
    pub modulation: u32,
}

/// A hardware frequency-seek request.
#[derive(Clone, Copy, Debug, PartialEq, Eq, Structural)]
pub struct HwFreqSeek {
    pub tuner: u32,
    pub type_: TunerType,
    pub seek_upward: u32,
    pub wrap_around: u32,
    pub spacing: u32,
    pub rangelow: u32,
    pub rangehigh: u32,
}

/// One entry of an encoder's index.
#[derive(Clone, Copy, Debug, PartialEq, Eq, Structural)]
pub struct EncIdxEntry {
    pub offset: u64,
    pub pts: u64,
    pub length: u32,
    pub flags: u32,
}

/// An encoder's index of stream positions.
#[derive(Clone, Debug, PartialEq, Eq)]
pub struct EncIdx {
    /// Entries filled in `entry`.
    pub entries: u32,
    /// Total entries the encoder has buffered.
    pub entries_cap: u32,
    /// The reported entries.
    pub entry: Vec<EncIdxEntry>,
}

/// Encoder command codes of the interface.
#[derive(Clone, Copy, Debug, PartialEq, Eq, Structural)]
pub enum EncCmd {
    Start,
    Stop,
    Pause,
    Resume,
}

/// A command to an encoder.
#[derive(Clone, Copy, Debug, PartialEq, Eq)]
pub struct EncoderCmd {
    pub cmd: EncCmd,
    /// Command flag bits.
    pub flags: u32,
    pub raw: EncoderCmdUnionRaw,
}

/// The raw payload words of an encoder command.
#[derive(Clone, Copy, Debug, PartialEq, Eq)]
pub struct EncoderCmdUnionRaw {
    pub data: [u32; 8],
}

/// Decoder command codes of the interface.
#[derive(Clone, Copy, Debug, PartialEq, Eq, Structural)]
pub enum DecCmd {
    Start,
    Stop,
    Pause,
    Resume,
    Flush,
}

/// The payload of a decoder command; the device interface overlays these
/// in one field, here the variant carries the kind.
#[derive(Clone, Copy, Debug, PartialEq, Eq)]
pub enum DecoderCmdUnion {
    Stop(DecoderCmdUnionStop),
    Start(DecoderCmdUnionStart),
    Raw(DecoderCmdUnionRaw),
}

/// Payload of a decoder stop command.
#[derive(Clone, Copy, Debug, PartialEq, Eq, Structural)]
pub struct DecoderCmdUnionStop {
    pub pts: u64,
}

/// Payload of a decoder start command.
#[derive(Clone, Copy, Debug, PartialEq, Eq, Structural)]
pub struct DecoderCmdUnionStart {
    pub speed: i32,
    pub format: u32,
}

/// The raw payload words of a decoder command.
#[derive(Clone, Copy, Debug, PartialEq, Eq)]
pub struct DecoderCmdUnionRaw {
    pub data: [u32; 16],
}

/// A command to a decoder.
#[derive(Clone, Copy, Debug, PartialEq, Eq)]
pub struct DecoderCmd {
    pub cmd: DecCmd,
    /// Command flag bits.
    pub flags: u32,
    pub union_: DecoderCmdUnion,
}

/// Raw VBI format of a stream.
#[derive(Clone, Copy, Debug, PartialEq, Eq)]
pub struct VbiFormat {
    pub sampling_rate: u32,
    pub offset: u32,
    pub samples_per_line: u32,
    pub sample_format: u32,
    pub start: [i32; 2],
    pub count: [u32; 2],
    /// VBI flag bits.
    pub flags: u32,
}

/// Sliced VBI format of a stream.
#[derive(Clone, Copy, Debug, PartialEq, Eq)]
pub struct SlicedVbiFormat {
    /// Service set bits.
    pub service_set: u16,
    pub service_lines: [[u16; 24]; 2],
    pub io_size: u32,
}

/// Sliced VBI services a device can handle.
#[derive(Clone, Copy, Debug, PartialEq, Eq)]
pub struct SlicedVbiCap {
    /// Service set bits.
    pub service_set: u16,
    pub service_lines: [[u16; 24]; 2],
    pub type_: BufferType,
}

/// Pixel format of one plane of a multi-planar stream.
#[derive(Clone, Copy, Debug, PartialEq, Eq, Structural)]
pub struct PlanePixFormat {
    pub size_image: u32,
    pub bytes_per_line: u32,
}

/// Format of a metadata stream.
#[derive(Clone, Copy, Debug, PartialEq, Eq, Structural)]
pub struct MetaFormat {
    pub data_format: FourCc,
    pub buffer_size: u32,
}

/// The value carried by a control-change event; the device interface
/// overlays the two widths in one field.
#[derive(Clone, Copy, Debug, PartialEq, Eq, Structural)]
pub enum EventCtrlValue {
    Value(i32),
    Value64(i64),
}

/// A control-change event.
#[derive(Clone, Copy, Debug, PartialEq, Eq, Structural)]
pub struct EventCtrl {
    /// Change flag bits.
    pub changes: u32,
    /// Control type code of the interface.
    pub type_: u32,
    pub value: EventCtrlValue,
    /// Control flag bits.
    pub flags: u32,
    pub minimum: i32,
    pub maximum: i32,
    pub step: i32,
    pub default_value: i32,
}

/// A frame-synchronisation event.
#[derive(Clone, Copy, Debug, PartialEq, Eq, Structural)]
pub struct EventFrameSync {
    pub frame_sequence: u32,
}

/// A source-change event.
#[derive(Clone, Copy, Debug, PartialEq, Eq, Structural)]
pub struct EventSrcChange {
    /// Change flag bits.
    pub changes: u32,
}

/// A motion-detection event.
#[derive(Clone, Copy, Debug, PartialEq, Eq, Structural)]
pub struct EventMotionDet {
    /// Flag bits of the event.
    pub flags: u32,
    pub frame_sequence: u32,
    pub region_mask: u32,
}

/// A subscription to a class of events.
#[derive(Clone, Copy, Debug, PartialEq, Eq, Structural)]
pub struct EventSubscription {
    pub type_: u32,
    pub id: u32,
    pub flags: u32,
}

/// Per-list weight factors of an H.264 prediction.
#[derive(Clone, Copy, Debug, PartialEq, Eq)]
pub struct H264WeightFactors {
    pub luma_weight: [i16; 32],
    pub luma_offset: [i16; 32],
    pub chroma_weight: [[i16; 2]; 32],
    pub chroma_offset: [[i16; 2]; 32],
}

/// Prediction weights of an H.264 slice.
#[derive(Clone, Copy, Debug, PartialEq, Eq)]
pub struct H264PredWeights {
    pub luma_log2_weight_denom: u16,
    pub chroma_log2_weight_denom: u16,
    pub weight_factors: [H264WeightFactors; 2],
}

/// Parameters of an FWHT-compressed frame.
#[derive(Clone, Copy, Debug, PartialEq, Eq, Structural)]
pub struct FwhtParams {
    pub backward_ref_ts: u64,
    /// Version code of the compressed stream.
    pub version: u32,
    pub width: u32,
    pub height: u32,
    /// Flag bits of the frame.
    pub flags: u32,
    pub colorspace: ColorSpace,
    pub xfer_func: XferFunc,
    pub ycbcr_enc: YcbcrEncoding,
    pub quantization: Quantization,
}

/// HDR10 content light level information.
#[derive(Clone, Copy, Debug, PartialEq, Eq, Structural)]
pub struct Hdr10CllInfo {
    pub max_content_light_level: u16,
    pub max_pic_average_light_level: u16,
}

/// HDR10 mastering display description.
#[derive(Clone, Copy, Debug, PartialEq, Eq)]
pub struct Hdr10MasteringDisplay {
    pub display_primaries_x: [u16; 3],
    pub display_primaries_y: [u16; 3],
    pub white_point_x: u16,
    pub white_point_y: u16,
    pub max_display_mastering_luminance: u32,
    pub min_display_mastering_luminance: u32,
}

/// Driver version, as three numbers.
#[derive(Clone, Copy, Debug, PartialEq, Eq, Structural)]
pub struct VersionTriple {
    pub major: u8,
    pub minor: u8,
    pub patch: u8,
}

/// What a device reports about itself.
#[derive(Clone, Copy, Debug, PartialEq, Eq)]
pub struct Capability {
    /// Name of the driver, as a fixed-size C string.
    pub driver: [u8; 16],
    /// Name of the device, as a fixed-size C string.
    pub card: [u8; 32],
    /// Location of the device, as a fixed-size C string.
    pub bus_info: [u8; 32],
    /// Version of the driver.
    pub version: VersionTriple,
    /// Capabilities of the whole physical device.
    pub capabilities: CapabilityFlag,
    /// Capabilities of this device node alone.
    pub device_capabilities: CapabilityFlag,
}

impl Capability {
    /// Get driver version
    pub fn version(&self) -> (r: VersionTriple)
        ensures
            r == self.version,
    {
        self.version
    }

    /// Get capabilities
    pub fn capabilities(&self) -> (r: CapabilityFlag)
        ensures
            r == self.capabilities,
    {
        self.capabilities
    }

    /// Get device capabilities
    pub fn device_capabilities(&self) -> (r: CapabilityFlag)
        ensures
            r == self.device_capabilities,
    {
        self.device_capabilities
    }

    /// The driver's name, decoded from its fixed-size C string.
    pub fn driver(&self) -> (r: Result<String, Error>)
        ensures
            r is Ok <==> utf8_decode(spec_nul_prefix(self.driver@)) is Some,
            r matches Ok(s) ==> utf8_decode(spec_nul_prefix(self.driver@)) == Some(s@),
    {
        get_str(self.driver.as_slice())
    }

    /// The device's name, decoded from its fixed-size C string.
    pub fn card(&self) -> (r: Result<String, Error>)
        ensures
            r is Ok <==> utf8_decode(spec_nul_prefix(self.card@)) is Some,
            r matches Ok(s) ==> utf8_decode(spec_nul_prefix(self.card@)) == Some(s@),
    {
        get_str(self.card.as_slice())
    }

    /// The device's location, decoded from its fixed-size C string.
    pub fn bus_info(&self) -> (r: Result<String, Error>)
        ensures
            r is Ok <==> utf8_decode(spec_nul_prefix(self.bus_info@)) is Some,
            r matches Ok(s) ==> utf8_decode(spec_nul_prefix(self.bus_info@)) == Some(s@),
    {
        get_str(self.bus_info.as_slice())
    }
}

} // verus!
