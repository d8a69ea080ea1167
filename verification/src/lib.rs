//! The logic of a development server with live reload, and of the tool
//! that creates and builds the projects it serves.
//!
//! The server watches a project, rebuilds it on every change and tells
//! every connected page to reload after a build that succeeded. Its core
//! is the [`registry`] of connections with the fan-out of one message to
//! all of them, the [`connection`] life cycle that keeps the registry
//! clean, the meaning of a [`rebuild`]'s end, and the [`reload`] cycle that
//! ties them together. [`cli`], [`scaffold`] and [`docs`] hold what the
//! command-line tool and the documentation page decide and compute.
//! [`boundary`] lists what is believed of foreign code without proof.
//!
//! Nothing here reads files, starts processes or waits: the caller does,
//! and hands in what it found.

pub mod boundary;
pub mod cli;
pub mod connection;
pub mod docs;
pub mod rebuild;
pub mod registry;
pub mod reload;
pub mod scaffold;
