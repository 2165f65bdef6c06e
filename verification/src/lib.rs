//! Virtual network interfaces (TUN devices): netmask arithmetic, the adapter
//! bring-up sequence, and the split of one device into a send half and a
//! receive half.

pub mod bringup_laws;
pub mod error;
pub mod netmask;
pub mod posix;
pub mod proto;
pub mod wintun;
