//! The kernel's side of the interface: its constants and the layout of its
//! records, as plain values.

use vstd::prelude::*;

verus! {

/// No encoder technology, or one that the kernel does not tell.
pub const DRM_MODE_ENCODER_NONE: u32 = 0;

/// An analog output (VGA and the like).
pub const DRM_MODE_ENCODER_DAC: u32 = 1;

/// A digital output (DVI, HDMI, DisplayPort).
pub const DRM_MODE_ENCODER_TMDS: u32 = 2;

/// A panel attached by LVDS.
pub const DRM_MODE_ENCODER_LVDS: u32 = 3;

/// An analog television output.
pub const DRM_MODE_ENCODER_TVDAC: u32 = 4;

/// An encoder without hardware behind it.
pub const DRM_MODE_ENCODER_VIRTUAL: u32 = 5;

/// A panel attached by DSI.
pub const DRM_MODE_ENCODER_DSI: u32 = 6;

/// One stream of a DisplayPort multi-stream link.
pub const DRM_MODE_ENCODER_DPMST: u32 = 7;

/// A panel attached by DPI.
pub const DRM_MODE_ENCODER_DPI: u32 = 8;

/// What the kernel answers when it is asked for an encoder. The fields stand
/// in the order in which the kernel lays them out, each 32 bits wide.
#[allow(non_camel_case_types)]
#[derive(Clone, Copy, PartialEq, Eq, Debug, Structural)]
pub struct drm_mode_get_encoder {
    /// The id of the encoder that the record describes.
    pub encoder_id: u32,
    /// The technology of the encoder, as one of the `DRM_MODE_ENCODER_`
    /// constants.
    pub encoder_type: u32,
    /// The id of the CRTC that drives the encoder now, or zero.
    pub crtc_id: u32,
    /// Bit `i` is set where the CRTC of index `i` can drive the encoder.
    pub possible_crtcs: u32,
    /// Bit `i` is set where the CRTC of index `i` can be cloned with the
    /// encoder.
    pub possible_clones: u32,
}

} // verus!
