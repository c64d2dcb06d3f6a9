//! A small real-time application runtime: a bounded generational entity
//! store, a double-buffered state exchange, and a scene state machine.

pub mod asset;
pub mod cont;
pub mod copyswap;
pub mod engine;
pub mod event_buf;
pub mod fixed;
pub mod manual;
pub mod surface;
pub mod text;

pub use cont::{Cont, ContEntities, Entity, Row};
pub use copyswap::{BackGuard, CopySwap, Flushable};
pub use engine::{Engine, EngineArgs, EngineConfig, EngineError, IceBox, Preservable, Scene, SceneExit};
pub use event_buf::EventBuffer;
pub use manual::Manual;
pub use surface::SurfaceEdgeData;
