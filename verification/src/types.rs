//! Core value types of the video interface: content classes, buffer types,
//! memory strategies, field parities and the flag words that the driver
//! reports.

use vstd::prelude::*;

verus! {

/// Semantic class of the data that flows over a stream.
#[derive(Clone, Copy, Debug, PartialEq, Eq, Structural)]
pub enum ContentType {
    Video,
    Vbi,
    SlicedVbi,
    VideoOverlay,
    VideoMplane,
    Sdr,
    Meta,
}

/// Direction of a stream: `In` captures data from the device,
/// `Out` sends data to it.
#[derive(Clone, Copy, Debug, PartialEq, Eq, Structural)]
pub enum Direction {
    In,
    Out,
}

/// Driver-level buffer type, the product of a content class and a direction.
#[derive(Clone, Copy, Debug, PartialEq, Eq, Structural)]
pub enum BufferType {
    VideoCapture,
    VideoOutput,
    VideoOverlay,
    VbiCapture,
    VbiOutput,
    SlicedVbiCapture,
    SlicedVbiOutput,
    VideoOutputOverlay,
    VideoCaptureMplane,
    VideoOutputMplane,
    SdrCapture,
    SdrOutput,
    MetaCapture,
    MetaOutput,
}

/// How a buffer's backing memory is obtained.
#[derive(Clone, Copy, Debug, PartialEq, Eq, Structural)]
pub enum Memory {
    Mmap,
    UserPtr,
    Overlay,
    DmaBuf,
}

/// Field order of a frame.
#[derive(Clone, Copy, Debug, PartialEq, Eq, Structural)]
pub enum Field {
    Any,
    NoField,
    Top,
    Bottom,
    Interlaced,
    SequentialTb,
    SequentialBt,
    Alternate,
    InterlacedTb,
    InterlacedBt,
}

impl ContentType {
    /// Whether the content class carries video frames.
    pub open spec fn spec_is_video(self) -> bool {
        self == ContentType::Video || self == ContentType::VideoOverlay
            || self == ContentType::VideoMplane
    }

    /// Is video type
    pub fn is_video(self) -> (r: bool)
        ensures
            r == self.spec_is_video(),
    {
        matches!(self, ContentType::Video | ContentType::VideoOverlay | ContentType::VideoMplane)
    }

    /// Get buffer type using direction
    pub fn buffer_type(self, dir: Direction) -> (r: BufferType)
        ensures
            r == dir.spec_buffer_type(self),
    {
        dir.buffer_type(self)
    }
}

impl Direction {
    /// The buffer type that this direction assigns to each content class.
    pub open spec fn spec_buffer_type(self, content: ContentType) -> BufferType {
        match self {
            Direction::In => match content {
                ContentType::Video => BufferType::VideoCapture,
                ContentType::Vbi => BufferType::VbiCapture,
                ContentType::SlicedVbi => BufferType::SlicedVbiCapture,
                ContentType::VideoOverlay => BufferType::VideoOverlay,
                ContentType::VideoMplane => BufferType::VideoCaptureMplane,
                ContentType::Sdr => BufferType::SdrCapture,
                ContentType::Meta => BufferType::MetaCapture,
            },
            Direction::Out => match content {
                ContentType::Video => BufferType::VideoOutput,
                ContentType::Vbi => BufferType::VbiOutput,
                ContentType::SlicedVbi => BufferType::SlicedVbiOutput,
                ContentType::VideoOverlay => BufferType::VideoOutputOverlay,
                ContentType::VideoMplane => BufferType::VideoOutputMplane,
                ContentType::Sdr => BufferType::SdrOutput,
                ContentType::Meta => BufferType::MetaOutput,
            },
        }
    }

    /// Map a content class to the concrete buffer type of this direction.
    pub fn buffer_type(self, content: ContentType) -> (r: BufferType)
        ensures
            r == self.spec_buffer_type(content),
    {
        match self {
            Direction::In => match content {
                ContentType::Video => BufferType::VideoCapture,
                ContentType::Vbi => BufferType::VbiCapture,
                ContentType::SlicedVbi => BufferType::SlicedVbiCapture,
                ContentType::VideoOverlay => BufferType::VideoOverlay,
                ContentType::VideoMplane => BufferType::VideoCaptureMplane,
                ContentType::Sdr => BufferType::SdrCapture,
                ContentType::Meta => BufferType::MetaCapture,
            },
            Direction::Out => match content {
                ContentType::Video => BufferType::VideoOutput,
                ContentType::Vbi => BufferType::VbiOutput,
                ContentType::SlicedVbi => BufferType::SlicedVbiOutput,
                ContentType::VideoOverlay => BufferType::VideoOutputOverlay,
                ContentType::VideoMplane => BufferType::VideoOutputMplane,
                ContentType::Sdr => BufferType::SdrOutput,
                ContentType::Meta => BufferType::MetaOutput,
            },
        }
    }

    /// Whether this is the capture direction.
    pub open spec fn spec_is_input(self) -> bool {
        self == Direction::In
    }

    /// Whether data flows from the device to the application.
    pub fn is_input(self) -> (r: bool)
        ensures
            r == self.spec_is_input(),
    {
        matches!(self, Direction::In)
    }

    /// Whether data flows from the application to the device.
    pub fn is_output(self) -> (r: bool)
        ensures
            r == !self.spec_is_input(),
    {
        matches!(self, Direction::Out)
    }
}

impl BufferType {
    /// Whether the type uses per-plane buffers.
    pub open spec fn spec_is_multiplanar(self) -> bool {
        self == BufferType::VideoCaptureMplane || self == BufferType::VideoOutputMplane
    }

    /// Check that buffer type is multi-planar
    pub fn is_multiplanar(self) -> (r: bool)
        ensures
            r == self.spec_is_multiplanar(),
    {
        matches!(self, BufferType::VideoCaptureMplane | BufferType::VideoOutputMplane)
    }

    /// Whether the type belongs to the output direction.
    pub open spec fn spec_is_output(self) -> bool {
        self == BufferType::VideoOutput || self == BufferType::VideoOutputMplane
            || self == BufferType::VideoOverlay || self == BufferType::VideoOutputOverlay
            || self == BufferType::VbiOutput || self == BufferType::SlicedVbiOutput
            || self == BufferType::SdrOutput || self == BufferType::MetaOutput
    }

    /// Check that buffer type is an output type
    pub fn is_output(self) -> (r: bool)
        ensures
            r == self.spec_is_output(),
    {
        matches!(
            self,
            BufferType::VideoOutput | BufferType::VideoOutputMplane | BufferType::VideoOverlay
                | BufferType::VideoOutputOverlay | BufferType::VbiOutput
                | BufferType::SlicedVbiOutput | BufferType::SdrOutput | BufferType::MetaOutput
        )
    }

    /// Check that buffer type is a capture type
    pub fn is_capture(self) -> (r: bool)
        ensures
            r == !self.spec_is_output(),
    {
        !self.is_output()
    }

    /// The content class of the buffer type.
    pub open spec fn spec_content(self) -> ContentType {
        match self {
            BufferType::VideoCapture | BufferType::VideoOutput => ContentType::Video,
            BufferType::VbiCapture | BufferType::VbiOutput => ContentType::Vbi,
            BufferType::SlicedVbiCapture | BufferType::SlicedVbiOutput => ContentType::SlicedVbi,
            BufferType::VideoOverlay | BufferType::VideoOutputOverlay => ContentType::VideoOverlay,
            BufferType::VideoCaptureMplane | BufferType::VideoOutputMplane => ContentType::VideoMplane,
            BufferType::SdrCapture | BufferType::SdrOutput => ContentType::Sdr,
            BufferType::MetaCapture | BufferType::MetaOutput => ContentType::Meta,
        }
    }

    /// Get corresponding content type
    pub fn content(self) -> (r: ContentType)
        ensures
            r == self.spec_content(),
    {
        match self {
            BufferType::VideoCapture | BufferType::VideoOutput => ContentType::Video,
            BufferType::VbiCapture | BufferType::VbiOutput => ContentType::Vbi,
            BufferType::SlicedVbiCapture | BufferType::SlicedVbiOutput => ContentType::SlicedVbi,
            BufferType::VideoOverlay | BufferType::VideoOutputOverlay => ContentType::VideoOverlay,
            BufferType::VideoCaptureMplane | BufferType::VideoOutputMplane => ContentType::VideoMplane,
            BufferType::SdrCapture | BufferType::SdrOutput => ContentType::Sdr,
            BufferType::MetaCapture | BufferType::MetaOutput => ContentType::Meta,
        }
    }

    /// The capability bit that a device must advertise to support this type.
    pub open spec fn spec_capability_mask(self) -> u32 {
        match self {
            BufferType::VideoCapture => CAP_VIDEO_CAPTURE,
            BufferType::VbiCapture => CAP_VBI_CAPTURE,
            BufferType::SlicedVbiCapture => CAP_SLICED_VBI_CAPTURE,
            BufferType::VideoOverlay => CAP_VIDEO_OVERLAY,
            BufferType::VideoCaptureMplane => CAP_VIDEO_CAPTURE_MPLANE,
            BufferType::SdrCapture => CAP_SDR_CAPTURE,
            BufferType::MetaCapture => CAP_META_CAPTURE,
            BufferType::VideoOutput => CAP_VIDEO_OUTPUT,
            BufferType::VbiOutput => CAP_VBI_OUTPUT,
            BufferType::SlicedVbiOutput => CAP_SLICED_VBI_OUTPUT,
            BufferType::VideoOutputOverlay => CAP_VIDEO_OUTPUT_OVERLAY,
            BufferType::VideoOutputMplane => CAP_VIDEO_OUTPUT_MPLANE,
            BufferType::SdrOutput => CAP_SDR_OUTPUT,
            BufferType::MetaOutput => CAP_META_OUTPUT,
        }
    }

    /// Check that buffer type is supported according to capabilities
    pub fn is_supported(self, capabilities: CapabilityFlag) -> (r: bool)
        ensures
            r == capabilities.spec_contains(self.spec_capability_mask()),
    {
        let mask = match self {
            BufferType::VideoCapture => CAP_VIDEO_CAPTURE,
            BufferType::VbiCapture => CAP_VBI_CAPTURE,
            BufferType::SlicedVbiCapture => CAP_SLICED_VBI_CAPTURE,
            BufferType::VideoOverlay => CAP_VIDEO_OVERLAY,
            BufferType::VideoCaptureMplane => CAP_VIDEO_CAPTURE_MPLANE,
            BufferType::SdrCapture => CAP_SDR_CAPTURE,
            BufferType::MetaCapture => CAP_META_CAPTURE,
            BufferType::VideoOutput => CAP_VIDEO_OUTPUT,
            BufferType::VbiOutput => CAP_VBI_OUTPUT,
            BufferType::SlicedVbiOutput => CAP_SLICED_VBI_OUTPUT,
            BufferType::VideoOutputOverlay => CAP_VIDEO_OUTPUT_OVERLAY,
            BufferType::VideoOutputMplane => CAP_VIDEO_OUTPUT_MPLANE,
            BufferType::SdrOutput => CAP_SDR_OUTPUT,
            BufferType::MetaOutput => CAP_META_OUTPUT,
        };
        capabilities.contains(mask)
    }
}

impl Field {
    /// Whether the field order includes the top field in the same buffer.
    pub open spec fn spec_has_top(self) -> bool {
        self == Field::Top || self == Field::Interlaced || self == Field::InterlacedTb
            || self == Field::InterlacedBt || self == Field::SequentialTb
            || self == Field::SequentialBt
    }

    /// Field contains the top field
    pub fn has_top(self) -> (r: bool)
        ensures
            r == self.spec_has_top(),
    {
        matches!(
            self,
            Field::Top | Field::Interlaced | Field::InterlacedTb | Field::InterlacedBt
                | Field::SequentialTb | Field::SequentialBt
        )
    }

    /// Whether the field order includes the bottom field in the same buffer.
    pub open spec fn spec_has_bottom(self) -> bool {
        self == Field::Bottom || self == Field::Interlaced || self == Field::InterlacedTb
            || self == Field::InterlacedBt || self == Field::SequentialTb
            || self == Field::SequentialBt
    }

    /// Field contains the bottom field
    pub fn has_bottom(self) -> (r: bool)
        ensures
            r == self.spec_has_bottom(),
    {
        matches!(
            self,
            Field::Bottom | Field::Interlaced | Field::InterlacedTb | Field::InterlacedBt
                | Field::SequentialTb | Field::SequentialBt
        )
    }

    /// Field contains both top and bottom fields
    pub fn has_both(self) -> (r: bool)
        ensures
            r == (self.spec_has_top() && self.spec_has_bottom()),
    {
        matches!(
            self,
            Field::Interlaced | Field::InterlacedTb | Field::InterlacedBt | Field::SequentialTb
                | Field::SequentialBt
        )
    }

    /// Field contains exactly one of the two fields
    pub fn has_t_or_b(self) -> (r: bool)
        ensures
            r == (self == Field::Bottom || self == Field::Top || self == Field::Alternate),
    {
        matches!(self, Field::Bottom | Field::Top | Field::Alternate)
    }

    /// Whether the two fields are interlaced into one buffer.
    pub open spec fn spec_is_interlaced(self) -> bool {
        self == Field::Interlaced || self == Field::InterlacedTb || self == Field::InterlacedBt
    }

    /// Field is interlaced
    pub fn is_interlaced(self) -> (r: bool)
        ensures
            r == self.spec_is_interlaced(),
    {
        matches!(self, Field::Interlaced | Field::InterlacedTb | Field::InterlacedBt)
    }

    /// Whether the two fields are stored sequentially in one buffer.
    pub open spec fn spec_is_sequential(self) -> bool {
        self == Field::SequentialTb || self == Field::SequentialBt
    }

    /// Field is sequential
    pub fn is_sequential(self) -> (r: bool)
        ensures
            r == self.spec_is_sequential(),
    {
        matches!(self, Field::SequentialTb | Field::SequentialBt)
    }
}

/// Device advertises video capture support.
pub const CAP_VIDEO_CAPTURE: u32 = 0x1;
/// Device advertises video output support.
pub const CAP_VIDEO_OUTPUT: u32 = 0x2;
/// Device advertises video overlay support.
pub const CAP_VIDEO_OVERLAY: u32 = 0x4;
/// Device advertises raw VBI capture support.
pub const CAP_VBI_CAPTURE: u32 = 0x10;
/// Device advertises raw VBI output support.
pub const CAP_VBI_OUTPUT: u32 = 0x20;
/// Device advertises sliced VBI capture support.
pub const CAP_SLICED_VBI_CAPTURE: u32 = 0x40;
/// Device advertises sliced VBI output support.
pub const CAP_SLICED_VBI_OUTPUT: u32 = 0x80;
/// Device advertises RDS capture support.
pub const CAP_RDS_CAPTURE: u32 = 0x100;
/// Device advertises video output overlay support.
pub const CAP_VIDEO_OUTPUT_OVERLAY: u32 = 0x200;
/// Device advertises hardware frequency seek support.
pub const CAP_HW_FREQ_SEEK: u32 = 0x400;
/// Device advertises RDS output support.
pub const CAP_RDS_OUTPUT: u32 = 0x800;
/// Device advertises multi-planar video capture support.
pub const CAP_VIDEO_CAPTURE_MPLANE: u32 = 0x1000;
/// Device advertises multi-planar video output support.
pub const CAP_VIDEO_OUTPUT_MPLANE: u32 = 0x2000;
/// Device advertises multi-planar memory-to-memory support.
pub const CAP_VIDEO_M2M_MPLANE: u32 = 0x4000;
/// Device advertises memory-to-memory support.
pub const CAP_VIDEO_M2M: u32 = 0x8000;
/// Device has a tuner.
pub const CAP_TUNER: u32 = 0x10000;
/// Device has audio support.
pub const CAP_AUDIO: u32 = 0x20000;
/// Device is a radio receiver.
pub const CAP_RADIO: u32 = 0x40000;
/// Device has a modulator.
pub const CAP_MODULATOR: u32 = 0x80000;
/// Device advertises SDR capture support.
pub const CAP_SDR_CAPTURE: u32 = 0x100000;
/// Device supports the extended pixel format fields.
pub const CAP_EXT_PIX_FORMAT: u32 = 0x200000;
/// Device advertises SDR output support.
pub const CAP_SDR_OUTPUT: u32 = 0x400000;
/// Device advertises metadata capture support.
pub const CAP_META_CAPTURE: u32 = 0x800000;
/// Device supports the read/write I/O style.
pub const CAP_READ_WRITE: u32 = 0x1000000;
/// Device supports asynchronous I/O.
pub const CAP_ASYNC_IO: u32 = 0x2000000;
/// Device supports the streaming I/O style.
pub const CAP_STREAMING: u32 = 0x4000000;
/// Device advertises metadata output support.
pub const CAP_META_OUTPUT: u32 = 0x8000000;
/// Device is a touch device.
pub const CAP_TOUCH: u32 = 0x10000000;
/// Device is controlled through the media controller.
pub const CAP_IO_MC: u32 = 0x20000000;
/// The device-capability field of the capability record is valid.
pub const CAP_DEVICE_CAPS: u32 = 0x80000000;

/// Capability bits that a device reports.
#[derive(Clone, Copy, Debug, PartialEq, Eq, Structural)]
pub struct CapabilityFlag {
    pub bits: u32,
}

impl CapabilityFlag {
    /// Whether every bit of `mask` is set.
    pub open spec fn spec_contains(self, mask: u32) -> bool {
        self.bits & mask == mask
    }

    /// Build a capability word from its raw bits.
    pub fn new(bits: u32) -> (r: CapabilityFlag)
        ensures
            r.bits == bits,
    {
        CapabilityFlag { bits }
    }

    /// Check that all bits of `mask` are present.
    pub fn contains(self, mask: u32) -> (r: bool)
        ensures
            r == self.spec_contains(mask),
    {
        self.bits & mask == mask
    }

    /// Whether no capability bit is set.
    pub fn is_none(self) -> (r: bool)
        ensures
            r == (self.bits == 0),
    {
        self.bits == 0
    }
}

/// The buffer's memory is mapped into the process.
pub const BUF_FLAG_MAPPED: u32 = 0x1;
/// The buffer is owned by the driver.
pub const BUF_FLAG_QUEUED: u32 = 0x2;
/// The driver has finished with the buffer.
pub const BUF_FLAG_DONE: u32 = 0x4;
/// The buffer holds a key frame.
pub const BUF_FLAG_KEYFRAME: u32 = 0x8;
/// The buffer holds a predicted frame.
pub const BUF_FLAG_PFRAME: u32 = 0x10;
/// The buffer holds a bidirectionally predicted frame.
pub const BUF_FLAG_BFRAME: u32 = 0x20;
/// The driver reports an error on this buffer.
pub const BUF_FLAG_ERROR: u32 = 0x40;
/// The buffer is part of an unqueued request.
pub const BUF_FLAG_IN_REQUEST: u32 = 0x80;
/// The buffer's time-code field is valid.
pub const BUF_FLAG_TIMECODE: u32 = 0x100;
/// Memory-to-memory devices hold the capture buffer.
pub const BUF_FLAG_M2M_HOLD_CAPTURE: u32 = 0x200;
/// The buffer has been prepared for I/O.
pub const BUF_FLAG_PREPARED: u32 = 0x400;
/// Caches need not be invalidated for this buffer.
pub const BUF_FLAG_NO_CACHE_INVALIDATE: u32 = 0x800;
/// Caches need not be cleaned for this buffer.
pub const BUF_FLAG_NO_CACHE_CLEAN: u32 = 0x1000;
/// Mask over the timestamp-kind bits.
pub const BUF_FLAG_TIMESTAMP_MASK: u32 = 0xe000;
/// Mask over the timestamp-source bits.
pub const BUF_FLAG_TIMESTAMP_SRC_MASK: u32 = 0x70000;
/// The buffer is the last one of a stream.
pub const BUF_FLAG_LAST: u32 = 0x100000;
/// The request-descriptor field of the buffer is valid.
pub const BUF_FLAG_REQUEST_FD: u32 = 0x800000;

/// Status bits of one buffer descriptor.
#[derive(Clone, Copy, Debug, PartialEq, Eq, Structural)]
pub struct BufferFlag {
    pub bits: u32,
}

impl BufferFlag {
    /// Whether every bit of `mask` is set.
    pub open spec fn spec_contains(self, mask: u32) -> bool {
        self.bits & mask == mask
    }

    /// The flag word with every bit of `mask` set.
    pub open spec fn spec_with(self, mask: u32) -> BufferFlag {
        BufferFlag { bits: self.bits | mask }
    }

    /// The flag word with every bit of `mask` cleared.
    pub open spec fn spec_without(self, mask: u32) -> BufferFlag {
        BufferFlag { bits: self.bits & !mask }
    }

    /// Build a flag word from its raw bits.
    pub fn new(bits: u32) -> (r: BufferFlag)
        ensures
            r.bits == bits,
    {
        BufferFlag { bits }
    }

    /// The empty flag word.
    pub fn none() -> (r: BufferFlag)
        ensures
            r.bits == 0,
    {
        BufferFlag { bits: 0 }
    }

    /// Check that all bits of `mask` are present.
    pub fn contains(self, mask: u32) -> (r: bool)
        ensures
            r == self.spec_contains(mask),
    {
        self.bits & mask == mask
    }

    /// Set all bits of `mask`.
    pub fn with(self, mask: u32) -> (r: BufferFlag)
        ensures
            r == self.spec_with(mask),
    {
        BufferFlag { bits: self.bits | mask }
    }

    /// Clear all bits of `mask`.
    pub fn without(self, mask: u32) -> (r: BufferFlag)
        ensures
            r == self.spec_without(mask),
    {
        BufferFlag { bits: self.bits & !mask }
    }

    /// Whether no flag bit is set.
    pub fn is_none(self) -> (r: bool)
        ensures
            r == (self.bits == 0),
    {
        self.bits == 0
    }
}

/// The zero flag word contains no bits.
pub proof fn lemma_flag_zero_contains(mask: u32)
    ensures
        0u32 & mask == 0,
{
    assert(0u32 & mask == 0) by (bit_vector);
}

/// After setting a mask, the mask is contained; bits outside the mask keep
/// their value, so a mask that was absent stays absent when a disjoint mask
/// is set.
pub proof fn lemma_flag_with(bits: u32, mask: u32)
    ensures
        (bits | mask) & mask == mask,
{
    assert((bits | mask) & mask == mask) by (bit_vector);
}

/// After clearing a mask, no bit of the mask remains.
pub proof fn lemma_flag_without(bits: u32, mask: u32)
    ensures
        (bits & !mask) & mask == 0,
{
    assert((bits & !mask) & mask == 0) by (bit_vector);
}

} // verus!
