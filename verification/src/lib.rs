//! Decision logic of a minimal single-shot Linux container launcher.
//!
//! The library decides *what* has to be done to bring a container up and
//! to take it down again, and leaves the doing to its caller. It says
//! which files are written with which contents, which `ip` commands run
//! in which order, how the overlay root is stacked, and how launcher,
//! child and supervisor react to each outcome.
//!
//! * [`plan`] is the vocabulary: operations, and steps that may or may
//!   not fail.
//! * [`cgroups`], [`fs`], [`net`] and [`caps`] each turn their part of a
//!   configuration into a plan of steps; [`decimal`] and [`text`] serve
//!   them.
//! * [`container`], [`child`] and [`init`] hold the three state machines
//!   of a launch: the launcher, the child in its namespaces, and the
//!   supervisor that the child becomes. Each takes the outcome of the
//!   last action and answers with the next one.
//! * [`course`] and [`stack`] state what holds of every launch and of
//!   every layer stack.

pub mod caps;
pub mod cgroups;
pub mod child;
pub mod container;
pub mod course;
pub mod decimal;
pub mod fs;
pub mod init;
pub mod net;
pub mod plan;
pub mod stack;
pub mod text;
