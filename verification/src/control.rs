//! Resources of the control plane: what every handle and every snapshot of a
//! resource has in common.

use vstd::prelude::*;
use crate::ffi::drm_mode_get_encoder;

pub mod bitmask;
pub mod crtc;
pub mod encoder;

verus! {

/// The id that the kernel gives a resource. Zero stands for "no resource".
pub type RawHandle = u32;

/// A handle of one resource class: a raw id that remembers which class of
/// resource it names.
pub trait ResourceHandle: Sized {
    /// The raw id that the handle wraps.
    spec fn raw(&self) -> RawHandle;

    /// The handle of this class that wraps `raw`.
    spec fn of_raw(raw: RawHandle) -> Self;

    /// Wraps a raw id. Every id is accepted, zero included.
    fn from_raw(raw: RawHandle) -> (handle: Self)
        ensures
            handle == Self::of_raw(raw),
            handle.raw() == raw,
    ;

    /// Gives the raw id back.
    fn as_raw(&self) -> (raw: RawHandle)
        ensures
            raw == self.raw(),
    ;

    /// Wrapping an id and unwrapping it again gives the same id.
    proof fn lemma_raw_round_trip(raw: RawHandle)
        ensures
            Self::of_raw(raw).raw() == raw,
    ;

    /// A handle is nothing more than its id: wrapping the id of a handle
    /// gives that handle.
    proof fn lemma_handle_round_trip(handle: Self)
        ensures
            Self::of_raw(handle.raw()) == handle,
    ;
}

/// Handles of one class are told apart by their raw ids alone: two with the
/// same id are the same handle.
pub proof fn lemma_same_id_same_handle<H: ResourceHandle>(a: H, b: H)
    requires
        a.raw() == b.raw(),
    ensures
        a == b,
{
    H::lemma_handle_round_trip(a);
    H::lemma_handle_round_trip(b);
}

/// A device that can be asked about its resources.
///
/// The library asks and decodes; how the question reaches the kernel is the
/// device's own business. Nothing is assumed of the answer: a device may
/// fail, and may answer one question differently each time.
pub trait Device {
    /// What the device reports when a query fails.
    type Error;

    /// Asks for the encoder of id `encoder_id`, once. The answer is the
    /// kernel's record of that encoder, or the failure as it was reported.
    fn mode_getencoder(&self, encoder_id: RawHandle) -> Result<drm_mode_get_encoder, Self::Error>;
}

/// A snapshot of the attributes of one resource, taken when a device was
/// asked, and tied to the handle class of that resource.
pub trait ResourceInfo: Sized {
    /// The handle class of the resource.
    type Handle: ResourceHandle;

    /// The handle of the resource that the snapshot describes.
    spec fn spec_handle(&self) -> Self::Handle;

    /// Asks `device` for the resource named by `handle`, once, and decodes
    /// the answer. A failure that the device reports is handed on as it is.
    fn load_from_device<T: Device>(
        device: &T,
        handle: Self::Handle,
    ) -> (loaded: Result<Self, T::Error>)
        ensures
            loaded matches Ok(info) ==> info.spec_handle() == handle,
    ;

    /// The handle of the resource that the snapshot describes.
    fn handle(&self) -> (handle: Self::Handle)
        ensures
            handle == self.spec_handle(),
    ;
}

} // verus!
