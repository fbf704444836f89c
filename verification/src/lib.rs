//! Locates a game's installation directory across mounted volumes and
//! deploys a bundled archive of files into it.
//!
//! The crate is organised around four pieces: decoding the set of mounted
//! volumes from the OS bitmask (`volumes`), resolving the install target
//! from an ordered list of candidate paths (`resolver`), planning the
//! deployment of an archive payload and modelling its effect on the target
//! (`payload`, `archive`, `deploy`, `model`), and a small interaction state
//! machine that reports the outcome (`ui`).

pub mod archive;
pub mod deploy;
pub mod model;
pub mod payload;
pub mod resolver;
pub mod text;
pub mod ui;
pub mod volumes;
