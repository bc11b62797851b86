//! GTPv1: packet codec, listener decision logic and shared statistics.

pub mod gtp_listener;
pub mod ip_listener;
pub mod listener_statistics;
pub mod packet;
