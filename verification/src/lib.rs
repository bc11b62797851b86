//! Encoder/decoder library for the GPRS Tunnelling Protocol (GTP), covering
//! GTPv1-U/C and GTPv2-C headers, extension headers, information elements and
//! control-plane messages, together with the decision logic of the two tunnel
//! listeners and their shared traffic statistics.

use vstd::prelude::*;

pub mod bytes;
pub mod errors;
pub mod gtp_v1;
pub mod gtp_v2;
pub mod net;

verus! {

/// Size of the scratch buffers the listeners hand to the codec.
pub const MTU: usize = 1500;

} // verus!
