//! A 2D platformer movement controller in integer fixed point: contact-normal
//! resolution, the per-tick jump/wall/dash state machine, horizontal run
//! blending, tuning-parameter recompute, one-shot timers and a movement
//! history recorder.

pub mod fixed;
pub mod timer;
pub mod contact;
pub mod tuning;
pub mod movement;
pub mod dash;
pub mod history;
pub mod laws;

pub use fixed::{Velocity, Sample};
pub use timer::Timer;
pub use contact::{Normal, Contact, EntityId, resolve_standing_normal};
pub use tuning::{TuningParameters, ConfigWarning, isqrt, compute_gravity, compute_jump_power_unscaled};
pub use movement::{Direction, JumpInput, JumpStatus, PlayerControl, jump_step, run_step, record_standing, blend_toward};
pub use dash::{DashInput, dash_step};
pub use history::{TrackMovement, History, HistoryTimer, MoveVisConfig, record_history};
