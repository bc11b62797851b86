//! GTPv2-C: packet codec for the control-plane messages.

pub mod packet;
