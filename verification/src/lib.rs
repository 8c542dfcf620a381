//! The logic of a desktop bar: a window docked to the top of a monitor that
//! shows telemetry, media, weather and notes.
//!
//! The heart of it is the docking: the decisions that reserve a strip of
//! screen space with the desktop shell, keep that reservation consistent
//! as the bar moves between monitors, and withdraw it while another
//! application is fullscreen on the same monitor.
//!
//! Nothing here talks to the operating system. Where an operation needs the
//! shell, it is a state machine: it hands out one request at a time, the
//! embedding performs it and hands the outcome back. Where an operation
//! needs facts from the system, the embedding reads them and hands them in.
//!
//! Docking:
//! - [`dock`]: the controller that registers, repositions and removes the reservation
//! - [`dock_runs`]: what holds of every operation of the controller, whatever the shell answers
//! - [`shell`]: the requests to the shell and their outcomes
//! - [`state`]: the record that commands and the watcher share
//! - [`fullscreen`], [`watcher`]: hiding the bar behind fullscreen applications
//! - [`monitor`], [`commands`]: monitors, their stable identifiers, and placing the bar on them
//! - [`geometry`]: rectangles
//!
//! Widgets:
//! - [`audio`], [`headset`], [`media`], [`network`], [`hardware`], [`weather`]
//! - [`notes`], [`config`]: notes and profiles
//! - [`popups`], [`task_switcher`], [`icon`], [`system`]
//!
//! [`text`] holds what the others need of text.

pub mod geometry;
pub mod text;

pub mod shell;
pub mod state;
pub mod dock;
pub mod dock_runs;
pub mod fullscreen;
pub mod watcher;
pub mod monitor;
pub mod commands;

pub mod audio;
pub mod config;
pub mod hardware;
pub mod headset;
pub mod icon;
pub mod media;
pub mod network;
pub mod notes;
pub mod popups;
pub mod system;
pub mod task_switcher;
pub mod weather;
