//! Control core of an appliance controller: a timed finite-state machine for
//! a heating element, a hold-off debouncer for noisy binary sensors, and a
//! parser for the one-byte remote command protocol.
//!
//! The library is pure transition logic: every operation returns the effects
//! (notification to publish, timer to arm or cancel) that the surrounding
//! runtime must carry out.  The runtime glue — locks, threads, the real timer
//! service and the network transport — lives outside the library and feeds
//! plain values back in.

pub mod coffeepot;
pub mod command;
pub mod debounce;
