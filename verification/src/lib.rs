//! Verified core of the FatturaAnalyzer desktop shell.
//!
//! The shell exposes six named commands to its embedded user interface, probes
//! a local backend service over HTTP and drives the main window through its
//! lifecycle. Everything the shell decides lives here, stated over
//! mathematical models and proved; the windowing runtime, the network and the
//! console stay outside and exchange plain values with this crate.

pub mod command;
pub mod info;
pub mod lifecycle;
pub mod probe;
pub mod status;
pub mod text;
