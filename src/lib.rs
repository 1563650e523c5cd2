//! A decorator that bounds how long a request-processing service may take.
//!
//! The library holds the decisions of the decorator: the race between an
//! in-flight call and a deadline timer, the unification of the call's error
//! with the timeout marker, and a model of a whole run of drive steps on a
//! virtual clock, over which the timing guarantees are stated and proved.
//! The runtime glue (polling real futures, arming a real timer) lives beside
//! the library and hands it plain observations.
pub mod decorator;
pub mod error;
pub mod guarantees;
pub mod race;
pub mod run;
pub mod span;
