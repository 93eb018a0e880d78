use dcv_color_primitives::PixelFormat;
use linux_video::enums::{ColorSpace, FrmIvalType, HsvEncoding, YcbcrEncoding};
use linux_video::fourcc::{
    DcvFormat, FourCc, FOURCC_ARGB32, FOURCC_BGR24, FOURCC_HSV24, FOURCC_NV12, FOURCC_RGB24,
    FOURCC_YUV420,
};
use linux_video::structs::{
    Area, CaptureParm, EnumCursor, Format, FormatData, Fract, FrmIvalData, FrmIvalEnum,
    FrmIvalStepwise, FrmSizeData, FrmSizeEnum, FrmSizeStepwise, MetaFormat, OutputParm,
    PixFormatEnc, SdrFormat, StreamParm, StreamParmData,
};
use linux_video::types::BufferType;

#[test]
fn fourcc_packs_bytes_little_endian() {
    assert_eq!(FourCc::from_bytes(b'B', b'A', b'2', b'4').code(), FOURCC_ARGB32);
    assert_eq!(FourCc::from_bytes(b'R', b'G', b'B', b'3').code(), FOURCC_RGB24);
    assert_eq!(FourCc::from_bytes(b'N', b'V', b'1', b'2').code(), FOURCC_NV12);
    let c = FourCc::from_bytes(b'Y', b'U', b'1', b'2');
    assert_eq!(c.code(), FOURCC_YUV420);
    assert_eq!(c.bytes(), (b'Y', b'U', b'1', b'2'));
}

#[test]
fn fourcc_maps_to_conversion_formats() {
    assert_eq!(FourCc::from_code(FOURCC_ARGB32).dcv_format(), Some(DcvFormat::Argb));
    assert_eq!(FourCc::from_code(FOURCC_BGR24).dcv_format(), Some(DcvFormat::Bgr));
    assert_eq!(FourCc::from_code(FOURCC_NV12).dcv_format(), Some(DcvFormat::Nv12));
    assert_eq!(FourCc::from_code(FOURCC_YUV420).dcv_format(), Some(DcvFormat::I420));
    // A format the conversion library does not know.
    assert_eq!(FourCc::from_bytes(b'G', b'R', b'E', b'Y').dcv_format(), None);
}

#[test]
fn fourcc_conversion_round_trip() {
    let codes = [FOURCC_ARGB32, FOURCC_BGR24, FOURCC_RGB24, FOURCC_NV12, FOURCC_YUV420];
    for code in codes {
        let f = FourCc::from_code(code);
        let d = f.dcv_format().unwrap();
        assert_eq!(FourCc::of_dcv(d), f);
    }
}

#[test]
fn dcv_pixel_format_bridge() {
    // The bridge hands the conversion library's own values out, matching
    // the verified mapping.
    let argb = FourCc::from_code(FOURCC_ARGB32).dcv_pixel_format().unwrap();
    assert!(matches!(argb, PixelFormat::Argb));
    let nv12 = FourCc::from_code(FOURCC_NV12).dcv_pixel_format().unwrap();
    assert!(matches!(nv12, PixelFormat::Nv12));
    assert!(FourCc::from_bytes(b'G', b'R', b'E', b'Y').dcv_pixel_format().is_none());
    // And carries them back to the matching code.
    assert_eq!(FourCc::from_dcv_pixel_format(PixelFormat::Bgr).code(), FOURCC_BGR24);
    assert_eq!(FourCc::from_dcv_pixel_format(PixelFormat::I420).code(), FOURCC_YUV420);
}

#[test]
fn pix_format_enc_defaults() {
    let hsv = PixFormatEnc::new_default(FourCc::from_code(FOURCC_HSV24), ColorSpace::Srgb);
    assert_eq!(hsv, PixFormatEnc::Hsv(HsvEncoding::E256));
    let ycbcr = PixFormatEnc::new_default(FourCc::from_code(FOURCC_NV12), ColorSpace::Rec709);
    assert_eq!(ycbcr, PixFormatEnc::Ycbcr(YcbcrEncoding::E709));
}

#[test]
fn stepwise_size_formula() {
    let s = FrmSizeStepwise {
        min_width: 320,
        max_width: 1280,
        step_width: 320,
        min_height: 240,
        max_height: 960,
        step_height: 240,
    };
    assert_eq!(s.try_get(0), Some(Area { width: 320, height: 240 }));
    assert_eq!(s.try_get(1), Some(Area { width: 640, height: 480 }));
    assert_eq!(s.try_get(3), Some(Area { width: 1280, height: 960 }));
    assert_eq!(s.try_get(4), None);
    // Large indices overflow no arithmetic; they simply exceed the maxima.
    assert_eq!(s.try_get(u32::MAX), None);
}

#[test]
fn frame_size_iterator_walks_stepwise_sizes() {
    let s = FrmSizeStepwise {
        min_width: 100,
        max_width: 300,
        step_width: 100,
        min_height: 50,
        max_height: 150,
        step_height: 50,
    };
    let sizes = FrmSizeEnum {
        index: 0,
        pixel_format: FourCc::from_code(FOURCC_NV12),
        data: FrmSizeData::Stepwise(s),
    };
    let mut iter = sizes.sizes();
    let mut got: Vec<Area> = Vec::new();
    while let Some(a) = iter.next() {
        got.push(a);
    }
    assert_eq!(
        got,
        vec![
            Area { width: 100, height: 50 },
            Area { width: 200, height: 100 },
            Area { width: 300, height: 150 },
        ]
    );
    assert_eq!(iter.next(), None);
}

#[test]
fn frame_size_iterator_yields_one_discrete_size() {
    let sizes = FrmSizeEnum {
        index: 0,
        pixel_format: FourCc::from_code(FOURCC_RGB24),
        data: FrmSizeData::Discrete(Area { width: 640, height: 480 }),
    };
    let mut iter = sizes.sizes();
    assert_eq!(iter.next(), Some(Area { width: 640, height: 480 }));
    assert_eq!(iter.next(), None);
    assert_eq!(iter.next(), None);
}

#[test]
fn format_payload_must_match_buffer_type() {
    let sdr = FormatData::Sdr(SdrFormat {
        pixel_format: FourCc::from_bytes(b'C', b'U', b'0', b'8'),
        buffer_size: 4096,
    });
    let f = Format::new(BufferType::SdrCapture, sdr).unwrap();
    assert!(f.sdr().is_some());
    assert!(f.pix().is_none());
    assert!(f.meta().is_none());
    assert!(Format::new(BufferType::VideoCapture, sdr).is_none());
    let meta = FormatData::Meta(MetaFormat {
        data_format: FourCc::from_bytes(b'U', b'V', b'C', b'H'),
        buffer_size: 256,
    });
    assert!(Format::new(BufferType::MetaOutput, meta).is_some());
    assert!(Format::new(BufferType::SdrCapture, meta).is_none());
}

#[test]
fn stream_parm_matches_direction() {
    let cap = CaptureParm {
        capability: 0x1000,
        capture_mode: 0,
        time_per_frame: Fract { numerator: 1, denominator: 30 },
        extended_mode: 0,
        read_buffers: 2,
    };
    // A capture record fits only a capture queue.
    let p = StreamParm::new_capture(BufferType::VideoCapture, cap).unwrap();
    assert_eq!(p.capture().unwrap().read_buffers, 2);
    assert_eq!(p.output(), None);
    assert!(StreamParm::new_capture(BufferType::VideoOutput, cap).is_none());
    let out = OutputParm {
        capability: 0,
        output_mode: 0,
        time_per_frame: Fract { numerator: 1, denominator: 25 },
        extended_mode: 0,
        write_buffers: 4,
    };
    let p = StreamParm::new_output(BufferType::VideoOutput, out).unwrap();
    assert_eq!(p.output().unwrap().write_buffers, 4);
    assert!(StreamParm::new_output(BufferType::VideoCapture, out).is_none());
    // Blank parameters take the direction of the type.
    let blank = StreamParm::from_type(BufferType::VideoCapture);
    assert!(matches!(blank.parm, StreamParmData::Capture(_)));
    let blank = StreamParm::from_type(BufferType::SdrOutput);
    assert!(matches!(blank.parm, StreamParmData::Output(_)));
}

#[test]
fn frame_interval_accessors_match_variant() {
    let ival = FrmIvalEnum {
        index: 0,
        pixel_format: FourCc::from_code(FOURCC_NV12),
        width: 640,
        height: 480,
        data: FrmIvalData::Discrete(Fract { numerator: 1, denominator: 30 }),
    };
    assert_eq!(ival.type_(), FrmIvalType::Discrete);
    assert_eq!(ival.discrete(), Some(Fract { numerator: 1, denominator: 30 }));
    assert_eq!(ival.stepwise(), None);
    let sw = FrmIvalEnum {
        index: 1,
        pixel_format: FourCc::from_code(FOURCC_NV12),
        width: 640,
        height: 480,
        data: FrmIvalData::Stepwise(FrmIvalStepwise {
            min: Fract { numerator: 1, denominator: 60 },
            max: Fract { numerator: 1, denominator: 5 },
            step: Fract { numerator: 1, denominator: 60 },
        }),
    };
    assert_eq!(sw.type_(), FrmIvalType::Stepwise);
    assert!(sw.discrete().is_none());
    assert!(sw.stepwise().is_some());
}

#[test]
fn enumeration_cursor_steps_until_exhausted() {
    let mut cursor = EnumCursor::new();
    assert_eq!(cursor.current(), Some(0));
    cursor.advance(true);
    assert_eq!(cursor.current(), Some(1));
    cursor.advance(true);
    assert_eq!(cursor.current(), Some(2));
    cursor.advance(false);
    assert_eq!(cursor.current(), None);
}
