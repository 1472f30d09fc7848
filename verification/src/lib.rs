//! A verified simulator for a two-dimensional cellular automaton on a
//! fixed-size toroidal grid: a dense cell buffer, wraparound neighbor
//! counting, a generation-advance rule, and a textual snapshot.

pub mod laws;
pub mod universe;
