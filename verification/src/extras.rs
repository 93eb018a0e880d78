//! The bridge to the `dcv_color_primitives` colour-conversion crate: its
//! pixel-format type is opaque to the verifier, so the mirrored
//! `DcvFormat` values are carried over by trusted one-to-one conversions,
//! and everything said about the mapping is said over the mirror.

use vstd::prelude::*;

use crate::fourcc::{DcvFormat, FourCc};

verus! {

/// The pixel-format type of the colour-conversion crate, declared so that
/// it can stand in signatures; the verifier sees nothing inside it.
#[verifier::external_type_specification]
#[verifier::external_body]
pub struct ExPixelFormat(dcv_color_primitives::PixelFormat);

/// Relies on the variants of `dcv_color_primitives::PixelFormat`: carries
/// each mirrored format to the library's variant of the same name, one arm
/// per variant.
#[verifier::external_body]
pub(crate) fn dcv_to_external(format: DcvFormat) -> dcv_color_primitives::PixelFormat {
    match format {
        DcvFormat::Argb => dcv_color_primitives::PixelFormat::Argb,
        DcvFormat::Bgra => dcv_color_primitives::PixelFormat::Bgra,
        DcvFormat::Bgr => dcv_color_primitives::PixelFormat::Bgr,
        DcvFormat::Rgba => dcv_color_primitives::PixelFormat::Rgba,
        DcvFormat::Rgb => dcv_color_primitives::PixelFormat::Rgb,
        DcvFormat::I444 => dcv_color_primitives::PixelFormat::I444,
        DcvFormat::I422 => dcv_color_primitives::PixelFormat::I422,
        DcvFormat::I420 => dcv_color_primitives::PixelFormat::I420,
        DcvFormat::Nv12 => dcv_color_primitives::PixelFormat::Nv12,
    }
}

/// Relies on the variants of `dcv_color_primitives::PixelFormat`: carries
/// each of the library's variants back to the mirrored format of the same
/// name, one arm per variant.
#[verifier::external_body]
pub(crate) fn dcv_from_external(format: dcv_color_primitives::PixelFormat) -> DcvFormat {
    match format {
        dcv_color_primitives::PixelFormat::Argb => DcvFormat::Argb,
        dcv_color_primitives::PixelFormat::Bgra => DcvFormat::Bgra,
        dcv_color_primitives::PixelFormat::Bgr => DcvFormat::Bgr,
        dcv_color_primitives::PixelFormat::Rgba => DcvFormat::Rgba,
        dcv_color_primitives::PixelFormat::Rgb => DcvFormat::Rgb,
        dcv_color_primitives::PixelFormat::I444 => DcvFormat::I444,
        dcv_color_primitives::PixelFormat::I422 => DcvFormat::I422,
        dcv_color_primitives::PixelFormat::I420 => DcvFormat::I420,
        dcv_color_primitives::PixelFormat::Nv12 => DcvFormat::Nv12,
    }
}

impl FourCc {
    /// The colour-conversion library's pixel format for this code: some
    /// value exactly when the code is one of the nine formats the library
    /// knows, as `spec_dcv_format` lists them.
    pub fn dcv_pixel_format(self) -> (r: Option<dcv_color_primitives::PixelFormat>)
        ensures
            r is Some <==> self.spec_dcv_format() is Some,
    {
        match self.dcv_format() {
            Some(format) => Some(dcv_to_external(format)),
            None => None,
        }
    }

    /// The format code of one of the colour-conversion library's pixel
    /// formats; the result is always one of the nine supported codes.
    pub fn from_dcv_pixel_format(format: dcv_color_primitives::PixelFormat) -> (r: FourCc)
        ensures
            exists|d: DcvFormat| r == FourCc::spec_of_dcv(d),
    {
        let mirrored = dcv_from_external(format);
        let r = FourCc::of_dcv(mirrored);
        proof {
            assert(r == FourCc::spec_of_dcv(mirrored));
        }
        r
    }
}

} // verus!
