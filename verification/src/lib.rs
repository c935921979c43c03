//! Lets an Alfred workflow find out whether a newer release of it exists.
//!
//! The library decides; the program around it reads the environment, the files
//! and the network, and hands plain values in.

pub mod check;
pub mod download;
pub mod error;
pub mod event;
pub mod faithful;
pub mod laws;
pub mod moment;
pub mod names;
pub mod order;
pub mod outcomes;
pub mod releaser;
pub mod state;
pub mod store;
pub mod updater;
pub mod version;
pub mod worker;
