//! The record that the IPFS router pins for each state snapshot.

use vstd::prelude::*;

verus! {

/// Version of the pinned record format.
pub const IPFS_PAYLOAD_VERSION: &'static str = "1.0";

/// A pinned record: the format version and the snapshot text.
pub struct IpfsPayload<'a> {
    pub version: &'a str,
    pub payload: &'a str,
}

/// The record that pins the snapshot text `data`.
pub fn ipfs_payload<'a>(data: &'a str) -> (p: IpfsPayload<'a>)
    ensures
        p.version@ == IPFS_PAYLOAD_VERSION@,
        p.payload@ == data@,
{
    IpfsPayload { version: IPFS_PAYLOAD_VERSION, payload: data }
}

} // verus!
