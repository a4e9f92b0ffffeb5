//! Core of a transparent tunneling client: the tunnel interface device, the
//! resolution and relay dispatch of each flow, the bookkeeping of the accept
//! loop, and the scoped override of the system resolver.
use vstd::prelude::*;

pub mod device;
pub mod dispatch;
pub mod dns_override;
pub mod flow;
pub mod memory_tun;

verus! {

} // verus!
