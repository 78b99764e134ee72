//! Platform adaptation layer for running a Thread protocol stack on a
//! constrained, radio-equipped microcontroller.
//!
//! The crate models the state that the adaptation layer owns — the shared
//! registry of radio handle, network settings and change callback, the
//! operational-dataset marshalling, the receive pipeline and the UDP socket
//! state machine — and verifies the decisions the layer makes.  The protocol
//! engine, the radio driver and the hardware timer are external collaborators:
//! their calls are performed by the host glue, which feeds the outcomes
//! (status codes, raw frames, datagrams) into the verified functions here.

use vstd::prelude::*;

pub mod dataset;
pub mod flags;
pub mod net;
pub mod ot;
pub mod radio;
pub mod registry;
pub mod role;
pub mod security_policy;
pub mod socket;

verus! {

/// The single error kind of this layer: a non-zero status code returned by
/// the protocol engine, surfaced verbatim.
#[derive(Debug, PartialEq, Eq, Structural, Clone, Copy)]
pub enum Error {
    InternalError(u32),
}

/// Maps an engine status code to a result: `0` means success, any other
/// value is surfaced as `InternalError`.
pub fn checked(status: u32) -> (r: Result<(), Error>)
    ensures
        status == 0 <==> r is Ok,
        status != 0 ==> r == Err::<(), Error>(Error::InternalError(status)),
{
    if status != 0 {
        Err(Error::InternalError(status))
    } else {
        Ok(())
    }
}

} // verus!
