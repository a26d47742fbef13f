//! Decisions of a daemon that watches the upstream branch of a checkout,
//! pulls when its tip moves and runs a command afterwards.
//!
//! The library performs no input or output. Its caller reports what happened
//! as an [`event::Event`], and [`daemon::listen_and_run`] answers with what to
//! write to standard output and what to do next: run a command, send a
//! request, sleep, or stop with an error.
//!
//! - [`text`]: decimal rendering, trimming, searching and joining.
//! - [`error`]: the errors and their messages.
//! - [`process`]: command lines and the outcomes of commands.
//! - [`git`]: the questions put to `git` and how its answers are read.
//! - [`commit`], [`remote`]: the reply of the remote host and the tip it names.
//! - [`repo`], [`setup`]: the start, up to the coordinates of the branch.
//! - [`daemon`]: the polling loop.
//! - [`theorems`]: what holds of every run.

pub mod commit;
pub mod daemon;
pub mod error;
pub mod event;
pub mod git;
pub mod process;
pub mod remote;
pub mod repo;
pub mod setup;
pub mod text;
pub mod theorems;
