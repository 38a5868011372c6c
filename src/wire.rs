use vstd::prelude::*;
use wayland_client::protocol::wl_shm;
use wayland_protocols_wlr::screencopy::v1::client::zwlr_screencopy_frame_v1;

verus! {

/// Whether `code` names a pixel format of the core `wl_shm.format` enum.
pub uninterp spec fn shm_format_known(code: u32) -> bool;

/// Relies on `wl_shm::Format::try_from(u32)`, which the protocol scanner
/// generates from the enum's entries: `Ok` exactly for a listed format code.
#[verifier::external_body]
pub(crate) fn known_shm_format(code: u32) -> (r: bool)
    ensures
        r == shm_format_known(code),
{
    wl_shm::Format::try_from(code).is_ok()
}

/// Relies on `zwlr_screencopy_frame_v1::Flags::try_from(u32)`, generated as
/// `Flags::from_bits`: the only defined flag is `y_invert` (bit value 1), so
/// the bits are accepted exactly when no other bit is set.
#[verifier::external_body]
pub(crate) fn known_frame_flags(bits: u32) -> (r: bool)
    ensures
        r == (bits == 0 || bits == 1),
{
    zwlr_screencopy_frame_v1::Flags::try_from(bits).is_ok()
}

} // verus!
