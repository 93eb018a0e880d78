use linux_video::types::{
    BufferFlag, BufferType, CapabilityFlag, ContentType, Direction, Field, BUF_FLAG_QUEUED,
    BUF_FLAG_TIMECODE, CAP_META_OUTPUT, CAP_SDR_CAPTURE, CAP_STREAMING, CAP_VIDEO_CAPTURE,
    CAP_VIDEO_OUTPUT,
};
use linux_video::buffer::{Buffer, TimeCode};
use linux_video::enums::{ColorSpace, CtrlType, HsvEncoding, Quantization, XferFunc, YcbcrEncoding};
use linux_video::types::Memory;

#[test]
fn direction_maps_content_to_buffer_type() {
    assert_eq!(ContentType::Video.buffer_type(Direction::In), BufferType::VideoCapture);
    assert_eq!(ContentType::Video.buffer_type(Direction::Out), BufferType::VideoOutput);
    assert_eq!(ContentType::Vbi.buffer_type(Direction::In), BufferType::VbiCapture);
    assert_eq!(ContentType::SlicedVbi.buffer_type(Direction::Out), BufferType::SlicedVbiOutput);
    assert_eq!(ContentType::VideoOverlay.buffer_type(Direction::In), BufferType::VideoOverlay);
    assert_eq!(
        ContentType::VideoOverlay.buffer_type(Direction::Out),
        BufferType::VideoOutputOverlay
    );
    assert_eq!(ContentType::VideoMplane.buffer_type(Direction::In), BufferType::VideoCaptureMplane);
    assert_eq!(ContentType::Sdr.buffer_type(Direction::Out), BufferType::SdrOutput);
    assert_eq!(ContentType::Meta.buffer_type(Direction::In), BufferType::MetaCapture);
}

#[test]
fn buffer_type_round_trips_to_content() {
    let all = [
        BufferType::VideoCapture,
        BufferType::VideoOutput,
        BufferType::VideoOverlay,
        BufferType::VbiCapture,
        BufferType::VbiOutput,
        BufferType::SlicedVbiCapture,
        BufferType::SlicedVbiOutput,
        BufferType::VideoOutputOverlay,
        BufferType::VideoCaptureMplane,
        BufferType::VideoOutputMplane,
        BufferType::SdrCapture,
        BufferType::SdrOutput,
        BufferType::MetaCapture,
        BufferType::MetaOutput,
    ];
    for t in all {
        let content = t.content();
        let dir = if t.is_output() { Direction::Out } else { Direction::In };
        // The overlay pair shares one content class across directions.
        if t != BufferType::VideoOverlay {
            assert_eq!(content.buffer_type(dir), t);
        }
    }
}

#[test]
fn content_type_video_predicate() {
    assert!(ContentType::Video.is_video());
    assert!(ContentType::VideoOverlay.is_video());
    assert!(ContentType::VideoMplane.is_video());
    assert!(!ContentType::Vbi.is_video());
    assert!(!ContentType::Sdr.is_video());
    assert!(!ContentType::Meta.is_video());
}

#[test]
fn buffer_type_predicates() {
    assert!(BufferType::VideoCaptureMplane.is_multiplanar());
    assert!(BufferType::VideoOutputMplane.is_multiplanar());
    assert!(!BufferType::VideoCapture.is_multiplanar());
    assert!(BufferType::VideoOutput.is_output());
    assert!(BufferType::MetaOutput.is_output());
    assert!(BufferType::VideoCapture.is_capture());
    assert!(!BufferType::VideoCapture.is_output());
    assert!(BufferType::SdrCapture.is_capture());
}

#[test]
fn buffer_type_capability_check() {
    let caps = CapabilityFlag::new(CAP_VIDEO_CAPTURE | CAP_STREAMING);
    assert!(BufferType::VideoCapture.is_supported(caps));
    assert!(!BufferType::VideoOutput.is_supported(caps));
    assert!(!BufferType::SdrCapture.is_supported(caps));
    let caps2 = CapabilityFlag::new(CAP_VIDEO_OUTPUT | CAP_SDR_CAPTURE | CAP_META_OUTPUT);
    assert!(BufferType::VideoOutput.is_supported(caps2));
    assert!(BufferType::SdrCapture.is_supported(caps2));
    assert!(BufferType::MetaOutput.is_supported(caps2));
    assert!(!BufferType::VideoCapture.is_supported(caps2));
}

#[test]
fn field_predicates() {
    assert!(Field::Top.has_top());
    assert!(!Field::Top.has_bottom());
    assert!(Field::Bottom.has_bottom());
    assert!(Field::Interlaced.has_both());
    assert!(Field::SequentialTb.has_both());
    assert!(!Field::Top.has_both());
    assert!(Field::Top.has_t_or_b());
    assert!(Field::Alternate.has_t_or_b());
    assert!(!Field::Interlaced.has_t_or_b());
    assert!(Field::InterlacedBt.is_interlaced());
    assert!(!Field::SequentialBt.is_interlaced());
    assert!(Field::SequentialBt.is_sequential());
    assert!(!Field::NoField.is_sequential());
    assert!(!Field::NoField.has_top());
}

#[test]
fn ctrl_type_predicates() {
    assert!(CtrlType::Menu.is_menu());
    assert!(CtrlType::IntegerMenu.is_menu());
    assert!(!CtrlType::Integer.is_menu());
    assert!(!CtrlType::Integer.is_compound());
    assert!(!CtrlType::IntegerMenu.is_compound());
    assert!(CtrlType::U8.is_compound());
    assert!(CtrlType::H264Sps.is_compound());
    assert!(CtrlType::Vp9Frame.is_compound());
    assert_eq!(CtrlType::Integer.code(), 0x1);
    assert_eq!(CtrlType::U8.code(), 0x100);
    assert_eq!(CtrlType::Vp9Frame.code(), 0x261);
}

#[test]
fn color_space_defaults() {
    assert_eq!(ColorSpace::map_default(true, false), ColorSpace::Smpte170M);
    assert_eq!(ColorSpace::map_default(true, true), ColorSpace::Smpte170M);
    assert_eq!(ColorSpace::map_default(false, true), ColorSpace::Rec709);
    assert_eq!(ColorSpace::map_default(false, false), ColorSpace::Srgb);
}

#[test]
fn xfer_func_from_color_space() {
    assert_eq!(XferFunc::from(ColorSpace::Oprgb), XferFunc::Oprgb);
    assert_eq!(XferFunc::from(ColorSpace::Smpte240M), XferFunc::Smpte240M);
    assert_eq!(XferFunc::from(ColorSpace::DciP3), XferFunc::DciP3);
    assert_eq!(XferFunc::from(ColorSpace::Raw), XferFunc::NoXfer);
    assert_eq!(XferFunc::from(ColorSpace::Srgb), XferFunc::Srgb);
    assert_eq!(XferFunc::from(ColorSpace::Jpeg), XferFunc::Srgb);
    assert_eq!(XferFunc::from(ColorSpace::Rec709), XferFunc::F709);
    assert_eq!(XferFunc::from(ColorSpace::Smpte170M), XferFunc::F709);
}

#[test]
fn ycbcr_encoding_from_color_space() {
    assert_eq!(YcbcrEncoding::from(ColorSpace::Rec709), YcbcrEncoding::E709);
    assert_eq!(YcbcrEncoding::from(ColorSpace::DciP3), YcbcrEncoding::E709);
    assert_eq!(YcbcrEncoding::from(ColorSpace::Bt2020), YcbcrEncoding::Bt2020);
    assert_eq!(YcbcrEncoding::from(ColorSpace::Smpte240M), YcbcrEncoding::Smpte240M);
    assert_eq!(YcbcrEncoding::from(ColorSpace::Srgb), YcbcrEncoding::E601);
}

#[test]
fn quantization_defaults() {
    assert_eq!(Quantization::map_default(true, ColorSpace::Rec709), Quantization::FullRange);
    assert_eq!(Quantization::map_default(false, ColorSpace::Jpeg), Quantization::FullRange);
    assert_eq!(Quantization::map_default(false, ColorSpace::Rec709), Quantization::LimRange);
}

#[test]
fn hsv_encoding_codes() {
    assert_eq!(HsvEncoding::E180.code(), 0x80);
    assert_eq!(HsvEncoding::E256.code(), 0x81);
}

#[test]
fn buffer_flag_operations() {
    let f = BufferFlag::new(0);
    assert!(f.is_none());
    let f = f.with(BUF_FLAG_QUEUED);
    assert!(f.contains(BUF_FLAG_QUEUED));
    assert!(!f.contains(BUF_FLAG_TIMECODE));
    let f = f.with(BUF_FLAG_TIMECODE);
    assert!(f.contains(BUF_FLAG_QUEUED | BUF_FLAG_TIMECODE));
    let f = f.without(BUF_FLAG_QUEUED);
    assert!(!f.contains(BUF_FLAG_QUEUED));
    assert!(f.contains(BUF_FLAG_TIMECODE));
}

#[test]
fn buffer_timecode_round_trip() {
    let mut b = Buffer::new(BufferType::VideoCapture, Memory::Mmap, 3);
    assert_eq!(b.index, 3);
    assert!(!b.is_queued());
    assert_eq!(b.timecode(), None);
    let tc = TimeCode { type_: 2, flags: 0, frames: 10, seconds: 30, minutes: 5, hours: 1 };
    b.set_timecode(Some(tc));
    assert!(b.has_timecode());
    assert_eq!(b.timecode(), Some(tc));
    b.set_timecode(None);
    assert!(!b.has_timecode());
    assert_eq!(b.timecode(), None);
}

#[test]
fn buffer_queued_flag_round_trip() {
    let mut b = Buffer::new(BufferType::VideoOutput, Memory::UserPtr, 0);
    b.mark_queued();
    assert!(b.is_queued());
    b.mark_dequeued();
    assert!(!b.is_queued());
    b.mark_dequeued();
    assert!(!b.is_queued());
}
