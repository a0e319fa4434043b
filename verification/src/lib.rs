//! A time-indexed replay and signal-phase engine for a traffic-simulation
//! front-end.
//!
//! The engine holds what the front-end decides between reading its input and
//! drawing its frame:
//!
//! - `time`: durations, and the discrete clock of the replay;
//! - `replay`: a small stand-in world that can be asked where its cars are
//!   at any time, in any order;
//! - `simple_model`: the controller that steps that clock by hand or lets it
//!   run, forwards or backwards, and the source of cars to draw that the
//!   renderer sees in it;
//! - `signal`: the phase cycle of a traffic signal, and which phase shows at
//!   a given time;
//! - `turn_cycler`: what to highlight for the lane or the intersection under
//!   the cursor;
//! - `fix_traffic_signals`, `optimize_bus`, `play_scenario`, `gameplay`,
//!   `scenario`: the challenges, their scores against a recorded baseline,
//!   and the tutorial scenarios;
//! - `objects`, `pregame`, `map_edits`: the debugging aids, the title screen
//!   and its menu, and the manager of map edits;
//! - `text`, `seqs`, `ids`: numbers written out, facts about sequences, and
//!   the identifiers of map objects.
//!
//! Every function is a function of its arguments alone. The host reads input
//! events and map data, hands them over as plain values, and carries out what
//! the returned value asks for.

pub mod fix_traffic_signals;
pub mod gameplay;
pub mod ids;
pub mod map_edits;
pub mod objects;
pub mod optimize_bus;
pub mod play_scenario;
pub mod pregame;
pub mod replay;
pub mod scenario;
pub mod seqs;
pub mod simple_model;
pub mod signal;
pub mod text;
pub mod time;
pub mod turn_cycler;
