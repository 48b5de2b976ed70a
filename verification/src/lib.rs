//! Decision core of the X402 agent swarm: vote consensus, pre-trade risk
//! guards, the shared-memory frame layout and the record keys of the
//! experience store.

pub mod auto_ramp;
pub mod bucket_guard;
mod clock;
pub mod consensus;
pub mod cooldown;
pub mod ipc;
pub mod ipfs;
pub mod kill_switch;
pub mod memory;
pub mod oracle;
pub mod risk_gate;
pub mod text;
