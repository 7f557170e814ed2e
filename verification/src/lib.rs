//! Core of a game-server supervisor: the process-tree scanner, the launch
//! strategy, the run/stop state machine, the stdio relay transforms, the
//! resource-usage snapshot assembly and the bounded graceful-shutdown driver.
//!
//! Everything here is verified; the surrounding service performs the
//! process spawning, stream I/O and timed sleeps and feeds the results to
//! these functions as plain values.

pub mod auth;
pub mod channel;
pub mod discovery;
pub mod forge;
pub mod install;
pub mod minecraft;
pub mod paper;
pub mod process_tree;
pub mod relay;
pub mod sampler;
pub mod shutdown;
pub mod supervisor;
pub mod terraria;
pub mod tmodloader;
