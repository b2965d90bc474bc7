//! Decision logic of a continuous fuzzing infrastructure: project
//! configuration rules, corpus minimisation and coverage command plans,
//! ensemble synchronisation plans, image build and reproduction protocols.
pub mod config;
pub mod text;
pub mod paths;
pub mod reproducer;
pub mod semsan;
pub mod pattern;
pub mod native_go;
pub mod names;
pub mod revisions;
pub mod builder;
pub mod ensemble;
pub mod reporter;
pub mod monitor;
pub mod minimizer;
pub mod coverage;
