//! Federation core: the host topology, the route planner over it, and the
//! hop-by-hop packet relay with its acknowledgment walk-back.

pub mod helpers;
pub mod host;
pub mod topology;
pub mod registry;
pub mod packet;
pub mod session;
