//! Verified core of a runtime binding for a user-supplied MA-5 software
//! emulator DLL pair.
//!
//! The library holds what can be decided without touching the DLL: the PCM
//! that a render produces, the call protocol that drives the emulator from
//! initialisation to cleanup, the errors and their messages, and the argument
//! parsing of the renderer command line. Loading the DLL and calling its
//! exports is left to the surrounding program, which performs each call that
//! the protocol asks for and reports what came back.

mod outside;
pub mod text;
pub mod error;
pub mod pcm;
pub mod api;
pub mod protocol;
pub mod session;
pub mod cli;

pub use error::{Error, Result};
pub use pcm::RenderedPcm;
pub use api::{ApiCall, ApiFunction, Arg};
pub use protocol::Stage;
pub use session::{Action, Render, Runtime};
pub use cli::{Args, ArgsError, Command, parse_args};
