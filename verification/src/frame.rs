use vstd::prelude::*;
use embedded_can::{ExtendedId, StandardId};

verus! {

/// Largest standard (11-bit) CAN identifier.
pub const STANDARD_ID_MAX: u16 = 0x7FF;

/// Largest extended (29-bit) CAN identifier.
pub const EXTENDED_ID_MAX: u32 = 0x1FFF_FFFF;

/// A CAN identifier as its raw number, tagged with its format.
#[derive(Clone, Copy, Debug, PartialEq, Eq, Structural)]
pub enum FrameId {
    Standard(u16),
    Extended(u32),
}

/// A classic CAN data frame: an identifier and its payload bytes.
#[derive(Debug)]
pub struct Frame {
    pub id: FrameId,
    pub data: Vec<u8>,
}

/// The raw number of an identifier widened to 32 bits.
pub open spec fn frame_id_raw(id: FrameId) -> u32 {
    match id {
        FrameId::Standard(raw) => raw as u32,
        FrameId::Extended(raw) => raw,
    }
}

/// `embedded_can::ExtendedId::new`, read back with `ExtendedId::as_raw`: the
/// crate accepts exactly the raw values up to `0x1FFF_FFFF` and keeps them as given.
#[verifier::external_body]
pub(crate) fn extended_id_checked(raw: u32) -> (r: Option<u32>)
    ensures
        r == (if raw <= EXTENDED_ID_MAX { Some(raw) } else { None::<u32> }),
{
    match ExtendedId::new(raw) {
        Some(id) => Some(id.as_raw()),
        None => None,
    }
}

/// `embedded_can::StandardId::new`, read back with `StandardId::as_raw`: the
/// crate accepts exactly the raw values up to `0x7FF` and keeps them as given.
#[verifier::external_body]
pub(crate) fn standard_id_checked(raw: u16) -> (r: Option<u16>)
    ensures
        r == (if raw <= STANDARD_ID_MAX { Some(raw) } else { None::<u16> }),
{
    match StandardId::new(raw) {
        Some(id) => Some(id.as_raw()),
        None => None,
    }
}

} // verus!
