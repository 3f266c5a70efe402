//! Window lifecycle rules of the Biometrics Studio desktop shell.
//!
//! The shell owns three windows, each known by its label: the main window, a splash
//! screen that is up while the application starts, and a settings window that is created
//! on demand. This crate holds every decision the shell makes about them, and none of the
//! calls into the windowing toolkit:
//!
//! - [`registry`] is the collection of live windows, with at most one window per label;
//! - [`commands`] says, for each operation of the shell, what it asks of the toolkit on a
//!   given registry, and what becomes of the toolkit's answer;
//! - [`request`] is the vocabulary of those requests, and their effect on the registry;
//! - [`error`] keeps fatal failures apart from those that are reported to the front-end;
//! - [`bootstrap`] lists the plugins that are attached before the event loop runs;
//! - [`laws`] proves what the commands guarantee on every registry.
//!
//! An application reads the toolkit's windows into a [`registry::WindowRegistry`], asks
//! [`commands::decide`] what to do, performs the request, and hands the toolkit's answer to
//! [`commands::conclude`].

pub mod bootstrap;
pub mod commands;
pub mod error;
pub mod laws;
pub mod registry;
pub mod request;
pub mod window;
