//! The CRTC: the unit of the device that generates a stream of pixels.

use vstd::prelude::*;
use crate::control::{RawHandle, ResourceHandle};

verus! {

/// The handle of a CRTC.
#[derive(Clone, Copy, PartialEq, Eq, Hash, Debug, Structural)]
pub struct Handle(RawHandle);

impl View for Handle {
    type V = RawHandle;

    /// A handle is seen as the raw id that it wraps.
    open spec fn view(&self) -> RawHandle {
        self.raw()
    }
}

impl ResourceHandle for Handle {
    closed spec fn raw(&self) -> RawHandle {
        self.0
    }

    closed spec fn of_raw(raw: RawHandle) -> Self {
        Handle(raw)
    }

    fn from_raw(raw: RawHandle) -> (handle: Self) {
        Handle(raw)
    }

    fn as_raw(&self) -> (raw: RawHandle) {
        self.0
    }

    proof fn lemma_raw_round_trip(raw: RawHandle) {
    }

    proof fn lemma_handle_round_trip(handle: Self) {
    }
}

} // verus!
