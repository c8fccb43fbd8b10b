//! Typed handles and attribute snapshots for the resources of a display
//! mode-setting device, with the encoder as the resource class that is
//! worked out in full.

pub mod control;
pub mod decimal;
pub mod ffi;
