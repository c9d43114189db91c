//! An abstract contract for an event-retrieval subsystem.
//!
//! The crate defines a polymorphic interface for draining or blocking on
//! window-system events (`EventsLoop`), a control-flow signal returned by the
//! per-event callback (`ControlFlow`), and a cross-thread wake-up handle
//! (`EventsLoopProxy`) together with its single error (`EventsLoopClosed`).
//! A toy in-memory double (`ScriptedLoop` and friends) exercises the
//! interface; real platform backends are expected to supply their own
//! implementations against the same contracts.

pub mod control;
pub mod doubles;
pub mod interface;
pub mod laws;

pub use control::ControlFlow;
pub use control::EventsLoopClosed;
pub use doubles::BreakAfter;
pub use doubles::FlagProxy;
pub use doubles::Recorder;
pub use doubles::ScriptedLoop;
pub use interface::EventsLoop;
pub use interface::EventsLoopProxy;
pub use interface::PollHandler;
pub use interface::RunHandler;
