//! The modulation engine of a randomized light show.
//!
//! Each light in the show, or each group of lights, is driven by a task
//! that draws a colour and a delay from the published parameters, has the
//! colour sent, sleeps for the delay and starts over. This crate holds the
//! decisions of that engine: the ranges and the rule that keeps them
//! ordered, the sampling, the commands, the life of a task and the
//! supervisor that says which tasks are to run. Sending, sleeping and
//! drawing the controls are left to the program around it.

pub mod app;
pub mod bridge;
pub mod command;
pub mod config;
pub mod light;
pub mod modulator;
pub mod range;
pub mod sample;
pub mod seed;
pub mod source;
pub mod task;

pub use app::{admits_all, App, Screen};
pub use bridge::{get_bridge_ip, Address, Bridge, Signal};
pub use command::LightCommand;
pub use config::{label, Data, SyncMode};
pub use light::{get_color_lights, DiscoLight, Light};
pub use modulator::Modulator;
pub use range::{update_end, update_start};
pub use task::{Cycle, Dispatch, ModulationTask, TaskAction, TaskEvent, TaskState};
