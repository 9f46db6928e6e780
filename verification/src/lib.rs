//! Ship control interface and tick execution core for a deterministic,
//! fixed-timestep multi-agent simulation.
//!
//! Each agent ("ship") is driven by untrusted code that talks to the host only
//! through a small, fixed-layout register file plus a few private buffers: an
//! environment text buffer, a deterministic per-agent random number generator,
//! radio channels, and per-tick debug overlay buffers. The host publishes
//! sensor state into the registers before each tick, invokes the agent once,
//! and consumes the agent's actuator commands afterwards.
//!
//! All physical quantities are fixed-point integers: lengths, speeds and
//! accelerations carry three fractional decimal digits (one unit is a
//! thousandth of the base unit), and angles are measured in milliradians.

pub mod accel;
pub mod agent;
pub mod dbg;
pub mod envdata;
pub mod mathx;
pub mod radio;
pub mod rng;
pub mod scenario;
pub mod sched;
pub mod sensor;
pub mod ship;
pub mod slots;
pub mod types;

pub use agent::{AgentBoundary, Message, ScanResult};
pub use envdata::Environment;
pub use mathx::{vec2, Vec2};
pub use rng::RngState;
pub use sched::{AccelLimits, AgentCommands, AgentConfig, AgentInstance, PhysicsSnapshot, Simulation};
pub use ship::{Agent, Ship};
pub use slots::{SystemState, StateSlotArray, MAX_SIZE};
pub use types::{Ability, Class, EcmMode};
