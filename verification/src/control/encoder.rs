//! The encoder: the bridge between a CRTC and a connector. It takes the
//! pixels that the CRTC generates and puts them into the signal that the
//! connector carries.

use vstd::prelude::*;
use crate::control::{Device, RawHandle, ResourceHandle, ResourceInfo};
use crate::control::bitmask::{bit_is_set, mask_contains, members, wrapped_index};
use crate::control::crtc;
use crate::decimal::{append_decimal, decimal};
use crate::ffi::{
    drm_mode_get_encoder, DRM_MODE_ENCODER_DAC, DRM_MODE_ENCODER_DPI, DRM_MODE_ENCODER_DPMST,
    DRM_MODE_ENCODER_DSI, DRM_MODE_ENCODER_LVDS, DRM_MODE_ENCODER_NONE, DRM_MODE_ENCODER_TMDS,
    DRM_MODE_ENCODER_TVDAC, DRM_MODE_ENCODER_VIRTUAL,
};

verus! {

/// The handle of an encoder.
///
/// Every encoder of a device has one. With it the encoder's attributes can
/// be asked for (see [`Info`]).
#[derive(Clone, Copy, PartialEq, Eq, Hash, Debug, Structural)]
pub struct Handle(RawHandle);

impl View for Handle {
    type V = RawHandle;

    /// A handle is seen as the raw id that it wraps.
    open spec fn view(&self) -> RawHandle {
        self.raw()
    }
}

impl ResourceHandle for Handle {
    closed spec fn raw(&self) -> RawHandle {
        self.0
    }

    closed spec fn of_raw(raw: RawHandle) -> Self {
        Handle(raw)
    }

    fn from_raw(raw: RawHandle) -> (handle: Self) {
        Handle(raw)
    }

    fn as_raw(&self) -> (raw: RawHandle) {
        self.0
    }

    proof fn lemma_raw_round_trip(raw: RawHandle) {
    }

    proof fn lemma_handle_round_trip(handle: Self) {
    }
}

impl Handle {
    /// The text that shows the handle of raw id `raw`: the name of the
    /// handle class, and in brackets the id in decimal digits.
    pub open spec fn debug_text(raw: RawHandle) -> Seq<char> {
        "encoder::Handle("@ + decimal(raw as nat) + ")"@
    }

    /// Shows the handle as text, as in `encoder::Handle(7)`.
    pub fn debug_string(&self) -> (text: String)
        ensures
            text@ == Handle::debug_text(self@),
    {
        let mut text = String::from_str("encoder::Handle(");
        append_decimal(&mut text, self.0);
        text.append(")");
        text
    }
}

/// The technology of an encoder.
#[derive(Debug, Clone, Copy, PartialEq, Eq, Structural)]
pub enum Type {
    /// No technology, or one that the library does not know.
    NONE,
    /// An analog output.
    DAC,
    /// A digital output.
    TMDS,
    /// A panel attached by LVDS.
    LVDS,
    /// An analog television output.
    TVDAC,
    /// An encoder without hardware behind it.
    Virtual,
    /// A panel attached by DSI.
    DSI,
    /// One stream of a DisplayPort multi-stream link.
    DPMST,
    /// A panel attached by DPI.
    DPI,
}

impl Type {
    /// The kernel's constant for a technology.
    pub open spec fn code(self) -> u32 {
        match self {
            Type::NONE => DRM_MODE_ENCODER_NONE,
            Type::DAC => DRM_MODE_ENCODER_DAC,
            Type::TMDS => DRM_MODE_ENCODER_TMDS,
            Type::LVDS => DRM_MODE_ENCODER_LVDS,
            Type::TVDAC => DRM_MODE_ENCODER_TVDAC,
            Type::Virtual => DRM_MODE_ENCODER_VIRTUAL,
            Type::DSI => DRM_MODE_ENCODER_DSI,
            Type::DPMST => DRM_MODE_ENCODER_DPMST,
            Type::DPI => DRM_MODE_ENCODER_DPI,
        }
    }

    /// Whether `n` is the kernel's constant for one of the technologies.
    pub open spec fn is_code(n: u32) -> bool {
        exists|t: Type| #[trigger] t.code() == n
    }

    /// The technology that a number from the kernel stands for: the one
    /// whose constant it is, and `Type::NONE` for every other number.
    pub open spec fn decode(n: u32) -> Type {
        if n == DRM_MODE_ENCODER_DAC {
            Type::DAC
        } else if n == DRM_MODE_ENCODER_TMDS {
            Type::TMDS
        } else if n == DRM_MODE_ENCODER_LVDS {
            Type::LVDS
        } else if n == DRM_MODE_ENCODER_TVDAC {
            Type::TVDAC
        } else if n == DRM_MODE_ENCODER_VIRTUAL {
            Type::Virtual
        } else if n == DRM_MODE_ENCODER_DSI {
            Type::DSI
        } else if n == DRM_MODE_ENCODER_DPMST {
            Type::DPMST
        } else if n == DRM_MODE_ENCODER_DPI {
            Type::DPI
        } else {
            Type::NONE
        }
    }

    /// Each of the kernel's constants is decoded to the technology that it
    /// is the constant of.
    pub proof fn lemma_decode_code(t: Type)
        ensures
            Type::decode(t.code()) == t,
    {
    }

    /// A number that is none of the kernel's constants is decoded to
    /// `Type::NONE`.
    pub proof fn lemma_decode_unknown(n: u32)
        requires
            !Type::is_code(n),
        ensures
            Type::decode(n) == Type::NONE,
    {
        if Type::decode(n) != Type::NONE {
            assert(Type::decode(n).code() == n);
        }
    }

    /// The kernel's constants are the numbers from 0 to 8.
    pub proof fn lemma_codes(n: u32)
        ensures
            Type::is_code(n) <==> n <= 8,
    {
        if n <= 8 {
            assert(Type::decode(n).code() == n);
        }
    }
}

impl From<u32> for Type {
    fn from(n: u32) -> (t: Type) {
        match n {
            DRM_MODE_ENCODER_NONE => Type::NONE,
            DRM_MODE_ENCODER_DAC => Type::DAC,
            DRM_MODE_ENCODER_TMDS => Type::TMDS,
            DRM_MODE_ENCODER_LVDS => Type::LVDS,
            DRM_MODE_ENCODER_TVDAC => Type::TVDAC,
            DRM_MODE_ENCODER_VIRTUAL => Type::Virtual,
            DRM_MODE_ENCODER_DSI => Type::DSI,
            DRM_MODE_ENCODER_DPMST => Type::DPMST,
            DRM_MODE_ENCODER_DPI => Type::DPI,
            _ => Type::NONE,
        }
    }
}

impl vstd::std_specs::convert::FromSpecImpl<u32> for Type {
    open spec fn obeys_from_spec() -> bool {
        true
    }

    open spec fn from_spec(n: u32) -> Type {
        Type::decode(n)
    }
}

/// A snapshot of the attributes of an encoder.
///
/// It is taken when a device is asked and does not follow the device
/// afterwards: to see a change, ask again.
#[derive(Debug, Clone, Copy, PartialEq, Eq, Structural)]
pub struct Info {
    handle: Handle,
    crtc_id: crtc::Handle,
    enc_type: Type,
    possible_crtcs: u32,
    possible_clones: u32,
}

/// What a snapshot of an encoder holds.
pub struct InfoView {
    /// The encoder that the snapshot describes.
    pub handle: Handle,
    /// The CRTC that drove the encoder, or the handle of id zero where none
    /// did.
    pub crtc_id: crtc::Handle,
    /// The technology of the encoder.
    pub enc_type: Type,
    /// The mask of the CRTCs that can drive the encoder.
    pub possible_crtcs: u32,
    /// The mask of the CRTCs that can be cloned with the encoder.
    pub possible_clones: u32,
}

impl InfoView {
    /// What a record of the kernel says of the encoder `handle`. The id in
    /// the record is not consulted: the snapshot describes the encoder that
    /// was asked for. The two masks are kept bit for bit.
    pub open spec fn decoded(handle: Handle, record: drm_mode_get_encoder) -> InfoView {
        InfoView {
            handle,
            crtc_id: crtc::Handle::of_raw(record.crtc_id),
            enc_type: Type::decode(record.encoder_type),
            possible_crtcs: record.possible_crtcs,
            possible_clones: record.possible_clones,
        }
    }

    /// The CRTC that drove the encoder, if one did. An id of zero names no
    /// resource.
    pub open spec fn current_crtc(self) -> Option<crtc::Handle> {
        if self.crtc_id@ == 0 {
            None
        } else {
            Some(self.crtc_id)
        }
    }

    /// A record with a CRTC id of zero is decoded to a snapshot without a
    /// current CRTC, and every other record to one whose current CRTC is
    /// the handle of that very id.
    pub proof fn lemma_current_crtc_of_record(handle: Handle, record: drm_mode_get_encoder)
        ensures
            record.crtc_id == 0 ==> InfoView::decoded(handle, record).current_crtc() is None,
            record.crtc_id != 0 ==> InfoView::decoded(handle, record).current_crtc() == Some(
                crtc::Handle::of_raw(record.crtc_id),
            ),
    {
        crtc::Handle::lemma_raw_round_trip(record.crtc_id);
    }

    /// The indices of the CRTCs that can drive the encoder.
    pub open spec fn crtc_indices(self) -> Set<nat> {
        members(self.possible_crtcs)
    }

    /// The indices of the CRTCs that can be cloned with the encoder.
    pub open spec fn clone_indices(self) -> Set<nat> {
        members(self.possible_clones)
    }
}

impl View for Info {
    type V = InfoView;

    closed spec fn view(&self) -> InfoView {
        InfoView {
            handle: self.handle,
            crtc_id: self.crtc_id,
            enc_type: self.enc_type,
            possible_crtcs: self.possible_crtcs,
            possible_clones: self.possible_clones,
        }
    }
}

impl Info {
    /// Whether `loaded` is what a query for `handle` comes to when the
    /// device has answered `reply`: the decoded record, or the very failure
    /// that the device reported.
    pub open spec fn is_outcome<E>(
        handle: Handle,
        reply: Result<drm_mode_get_encoder, E>,
        loaded: Result<Info, E>,
    ) -> bool {
        match reply {
            Ok(record) => loaded matches Ok(info) && info@ == InfoView::decoded(handle, record),
            Err(failure) => loaded == Err::<Info, E>(failure),
        }
    }

    /// A snapshot that a query has given describes the encoder that was
    /// asked for, whatever the device answered.
    pub proof fn lemma_outcome_describes_handle<E>(
        handle: Handle,
        reply: Result<drm_mode_get_encoder, E>,
        loaded: Result<Info, E>,
    )
        requires
            Info::is_outcome(handle, reply, loaded),
        ensures
            loaded matches Ok(info) ==> info.spec_handle() == handle,
            reply is Err <==> loaded is Err,
    {
    }

    /// A snapshot holds nothing but what its view shows: snapshots with the
    /// same view are the same snapshot.
    pub proof fn lemma_view_determines(a: Info, b: Info)
        requires
            a@ == b@,
        ensures
            a == b,
    {
    }

    /// Decodes the kernel's record of the encoder `handle`.
    pub fn decode(handle: Handle, record: &drm_mode_get_encoder) -> (info: Info)
        ensures
            info@ == InfoView::decoded(handle, *record),
    {
        Info {
            handle,
            crtc_id: crtc::Handle::from_raw(record.crtc_id),
            enc_type: Type::from(record.encoder_type),
            possible_crtcs: record.possible_crtcs,
            possible_clones: record.possible_clones,
        }
    }

    /// Turns the answer of a device into the result of the query: a record
    /// is decoded, a failure is handed on unchanged.
    pub fn from_reply<E>(
        handle: Handle,
        reply: Result<drm_mode_get_encoder, E>,
    ) -> (loaded: Result<Info, E>)
        ensures
            Info::is_outcome(handle, reply, loaded),
    {
        match reply {
            Ok(record) => Ok(Info::decode(handle, &record)),
            Err(failure) => Err(failure),
        }
    }

    /// Returns the technology of the encoder.
    pub fn encoder_type(&self) -> (enc_type: Type)
        ensures
            enc_type == self@.enc_type,
    {
        self.enc_type
    }

    /// Returns the CRTC that drove the encoder when the snapshot was taken,
    /// or `None` where the kernel reported the id zero.
    pub fn current_crtc(&self) -> (current: Option<crtc::Handle>)
        ensures
            current == self@.current_crtc(),
            current is None <==> self@.crtc_id@ == 0,
            current matches Some(crtc) ==> crtc == self@.crtc_id,
    {
        if self.crtc_id.as_raw() == 0 {
            None
        } else {
            Some(self.crtc_id)
        }
    }

    /// Returns true if the encoder can be driven by the given CRTC.
    ///
    /// The raw value of `crtc` is taken as the index of the CRTC in the
    /// device's list of CRTCs, and selects the bit of the mask. No index
    /// is refused: one of 32 or more selects the bit `index mod 32`.
    pub fn supports_crtc(&self, crtc: crtc::Handle) -> (supported: bool)
        ensures
            supported == bit_is_set(self@.possible_crtcs, wrapped_index(crtc@)),
            supported == self@.crtc_indices().contains(wrapped_index(crtc@)),
            crtc@ < 32 ==> supported == bit_is_set(self@.possible_crtcs, crtc@ as nat),
    {
        mask_contains(self.possible_crtcs, crtc.as_raw())
    }

    /// Returns true if the encoder can be cloned with the given CRTC.
    ///
    /// The raw value of `crtc` is taken as the index of the CRTC in the
    /// device's list of CRTCs, and selects the bit of the mask. No index
    /// is refused: one of 32 or more selects the bit `index mod 32`.
    pub fn supports_clone(&self, crtc: crtc::Handle) -> (supported: bool)
        ensures
            supported == bit_is_set(self@.possible_clones, wrapped_index(crtc@)),
            supported == self@.clone_indices().contains(wrapped_index(crtc@)),
            crtc@ < 32 ==> supported == bit_is_set(self@.possible_clones, crtc@ as nat),
    {
        mask_contains(self.possible_clones, crtc.as_raw())
    }
}

impl ResourceInfo for Info {
    type Handle = Handle;

    open spec fn spec_handle(&self) -> Handle {
        self@.handle
    }

    /// Asks `device` for the encoder `handle`, once, and decodes the answer.
    /// What comes back is the outcome of an answer that the device gives to
    /// a query for the id of `handle`: the snapshot decoded from its record,
    /// or its failure, unchanged.
    fn load_from_device<T: Device>(device: &T, handle: Handle) -> (loaded: Result<Info, T::Error>)
        ensures
            exists|reply: Result<drm_mode_get_encoder, T::Error>|
                call_ensures(T::mode_getencoder, (device, handle@), reply)
                    && #[trigger] Info::is_outcome(handle, reply, loaded),
    {
        let reply = device.mode_getencoder(handle.as_raw());
        Info::from_reply(handle, reply)
    }

    /// Returns the handle of the encoder that the snapshot describes.
    fn handle(&self) -> (handle: Handle) {
        self.handle
    }
}

} // verus!
