//! Supervisor for a locally spawned backend service.
//!
//! The library holds the decision logic of the supervisor: port-range
//! scanning, bounded readiness probing, the graceful-then-forced shutdown
//! state machine, and the single-owner slot that makes concurrent shutdown
//! requests safe. The surrounding process, network and timer work is driven
//! from outside the library, which consumes events and returns the next
//! action together with a proved contract about it.

pub mod clipboard;
pub mod decimal;
pub mod errors;
pub mod health;
pub mod logging;
pub mod menu;
pub mod paths;
pub mod ports;
pub mod shutdown;
pub mod slot;
pub mod supervisor;
pub mod system;
pub mod urls;
