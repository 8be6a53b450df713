//! DDC/CI monitor control: wire-protocol framing, display identity matching,
//! and dual-backend transport policies.
//!
//! A host that wants to read or set a monitor parameter (a VCP feature such as
//! input source or brightness) must frame the command as a DDC/CI I2C packet,
//! pick the native port that backs the logical display, send the bytes over
//! one of two transport generations, and validate the reply. This crate holds
//! that logic, verified: the packet framer and checksum, the matching rules
//! for both backends, the ordered bus-fallback policy, and the monitor facade
//! that ties them together. The native I/O itself (IOKit calls, registry
//! iteration, property queries) stays outside; callers hand in the plain
//! values those calls return and get plain values back.

pub mod error;
pub mod identity;
pub mod monitor;
pub mod protocol;
pub mod registry;
pub mod text;
pub mod transport;
