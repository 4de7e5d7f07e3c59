//! A dynamic test-registration library.
//!
//! A user program builds a tree of named tests at run time: a [`DynTester`]
//! accumulates a flat list of test units while nested groups prefix the
//! fully-qualified name of every test registered within them.  Glob
//! discovery generates tests from a directory tree, and a small decision
//! kernel computes, for a finished list, which tests run, which are
//! ignored or filtered out, and whether an observed outcome counts as a
//! pass.

pub mod directive;
pub mod discovery;
pub mod name;
pub mod registry;
pub mod runner;
pub mod strutil;

pub use directive::leak_string;
pub use directive::Ignore;
pub use directive::ShouldPanic;
pub use discovery::Discovery;
pub use discovery::DiscoveryError;
pub use name::Name;
pub use registry::DynTest;
pub use registry::DynTester;
pub use runner::conclude;
pub use runner::plan_test;
pub use runner::tally;
pub use runner::Disposition;
pub use runner::Outcome;
pub use runner::TestStats;
