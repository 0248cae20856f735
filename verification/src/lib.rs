//! Verified bring-up protocol for a Direct3D 12 rendering backend.
//!
//! The library models the one-time device/resource initialization sequence of
//! a real-time graphics backend as an explicit state machine: acquire a GPU
//! device (with a software fallback), capture driver capabilities, provision
//! command-submission objects, create the presentation swap chain, and
//! allocate descriptor storage. Each stage is a hard precondition for the
//! next, and the aggregate ends in exactly one of two states: fully ready or
//! cleanly failed.
//!
//! The machine decides; it does not call the driver itself. A thin platform
//! shim asks the machine for the next [`state::Action`], performs the
//! corresponding native call, and hands the outcome back as a
//! [`state::Event`]. Everything the shim must get right — the order of the
//! stages, the single software-adapter retry, the exact descriptors handed to
//! the driver — is decided and proved here.

pub mod desc;
pub mod machine;
pub mod props;
pub mod state;
