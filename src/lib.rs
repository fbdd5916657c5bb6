//! A conformance oracle for 6502 CPU implementations: it runs the nestest
//! program on an implementation and turns the two status bytes that the
//! program leaves in memory into a diagnosis of the defect they point at.
pub mod decoder;
pub mod outcome;
pub mod runner;
pub mod table;

pub use runner::{run_all_tests, TestableCpu};
